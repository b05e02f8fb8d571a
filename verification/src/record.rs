//! The durable flat projection of a raw reading, the mapping that produces
//! it, and the partition path that routes it: one file per entity name and
//! UTC calendar year of observation.
use vstd::prelude::*;

use crate::numtext::int_text;
use crate::numtext::lemma_int_text_injective;
use crate::reading::Precipitation;
use crate::reading::RawReading;
use crate::timetext::epoch_in_range;
use crate::timetext::utc_text;
use crate::timetext::utc_text_of;
use crate::timetext::utc_year;
use crate::timetext::utc_year_of;

verus! {

/// One output row: the versioned flat projection of a raw reading.
/// Measurements stay the decimal text the reading carried; upstream optional
/// numeric fields hold the text `0` when absent — the persisted format has
/// no null representation.
pub struct LegacyRecord {
    pub city: String,
    pub description: String,
    pub icon: String,
    pub main_weather: String,
    pub city_id: u64,
    pub visibility: u64,
    pub humidity: String,
    pub pressure: String,
    /// `YYYY-MM-DD HH:MM:SS`, the observation timestamp rendered in UTC.
    pub time: String,
    /// The observation timestamp verbatim, for lossless round-trip.
    pub unix_utc: i64,
    pub rain_3h: String,
    pub rain_1h: String,
    pub snow_3h: String,
    pub snow_1h: String,
    pub temp_min: String,
    pub temp_max: String,
    pub temp: String,
    pub country: String,
    pub sunrise: i64,
    pub sunset: i64,
    pub clouds: String,
    pub wind_direction: String,
    pub wind_speed: String,
    pub latitude: String,
    pub longitude: String,
    /// UTC calendar year of the observation timestamp; determines the
    /// partition together with `city`.
    pub year: i32,
}

/// The text an absent numeric field materializes as.
pub open spec fn zero_text() -> Seq<char> {
    seq!['0']
}

/// The one-hour accumulation of a precipitation field: zero when the whole
/// object or the sub-field is absent.
pub open spec fn one_hour_text(p: Option<Precipitation>) -> Seq<char> {
    match p {
        None => zero_text(),
        Some(q) => match q.one_hour {
            None => zero_text(),
            Some(v) => v@,
        },
    }
}

/// The three-hour accumulation of a precipitation field: zero when the whole
/// object or the sub-field is absent.
pub open spec fn three_hour_text(p: Option<Precipitation>) -> Seq<char> {
    match p {
        None => zero_text(),
        Some(q) => match q.three_hour {
            None => zero_text(),
            Some(v) => v@,
        },
    }
}

/// The country column: empty when the upstream field is absent.
pub open spec fn country_text(c: Option<String>) -> Seq<char> {
    match c {
        None => Seq::<char>::empty(),
        Some(s) => s@,
    }
}

/// The visibility column: zero when the upstream field is absent.
pub open spec fn visibility_value(v: Option<u16>) -> int {
    match v {
        None => 0,
        Some(m) => m as int,
    }
}

/// What `map` produces: every field of the record, determined by the
/// reading. Verbatim copies for the measurements, zero or empty defaults for
/// absent optionals, the first condition descriptor taken as authoritative,
/// and the calendar fields derived from the observation timestamp in UTC.
pub open spec fn is_mapped(r: RawReading, rec: LegacyRecord) -> bool {
    &&& rec.city@ == r.name@
    &&& rec.description@ == r.weather@[0].description@
    &&& rec.icon@ == r.weather@[0].icon@
    &&& rec.main_weather@ == r.weather@[0].main@
    &&& rec.city_id == r.id
    &&& rec.visibility as int == visibility_value(r.visibility)
    &&& rec.humidity@ == r.main.humidity@
    &&& rec.pressure@ == r.main.pressure@
    &&& rec.time@ == utc_text_of(r.dt as int)
    &&& rec.unix_utc == r.dt
    &&& rec.rain_3h@ == three_hour_text(r.rain)
    &&& rec.rain_1h@ == one_hour_text(r.rain)
    &&& rec.snow_3h@ == three_hour_text(r.snow)
    &&& rec.snow_1h@ == one_hour_text(r.snow)
    &&& rec.temp_min@ == r.main.temp_min@
    &&& rec.temp_max@ == r.main.temp_max@
    &&& rec.temp@ == r.main.temp@
    &&& rec.country@ == country_text(r.country)
    &&& rec.sunrise == r.sunrise
    &&& rec.sunset == r.sunset
    &&& rec.clouds@ == r.clouds@
    &&& rec.wind_direction@ == r.wind_deg@
    &&& rec.wind_speed@ == r.wind_speed@
    &&& rec.latitude@ == r.latitude@
    &&& rec.longitude@ == r.longitude@
    &&& rec.year as int == utc_year_of(r.dt as int)
    &&& 1 <= rec.year <= 2999
}

fn copy_string(s: &String) -> (r: String)
    ensures
        r@ == s@,
{
    String::from_str(s.as_str())
}

fn zero_string() -> (r: String)
    ensures
        r@ == zero_text(),
{
    let r = String::from_str("0");
    proof {
        reveal_strlit("0");
        assert(r@ =~= zero_text());
    }
    r
}

fn accumulation(sub: &Option<String>) -> (r: String)
    ensures
        r@ == match sub {
            None => zero_text(),
            Some(v) => v@,
        },
{
    match sub {
        None => zero_string(),
        Some(v) => copy_string(v),
    }
}

/// Maps one raw reading to one output record: total for every reading with
/// at least one weather-condition descriptor and an observation timestamp
/// the calendar accepts.
pub fn map(r: &RawReading) -> (rec: LegacyRecord)
    requires
        r.weather@.len() >= 1,
        epoch_in_range(r.dt as int),
    ensures
        is_mapped(*r, rec),
{
    let first = &r.weather[0];
    let (rain_3h, rain_1h) = match &r.rain {
        None => (zero_string(), zero_string()),
        Some(p) => (accumulation(&p.three_hour), accumulation(&p.one_hour)),
    };
    let (snow_3h, snow_1h) = match &r.snow {
        None => (zero_string(), zero_string()),
        Some(p) => (accumulation(&p.three_hour), accumulation(&p.one_hour)),
    };
    let country = match &r.country {
        None => String::from_str(""),
        Some(c) => copy_string(c),
    };
    proof {
        reveal_strlit("");
        assert(country_text(r.country) == country@);
    }
    let visibility: u64 = match r.visibility {
        None => 0u64,
        Some(m) => m as u64,
    };
    LegacyRecord {
        city: copy_string(&r.name),
        description: copy_string(&first.description),
        icon: copy_string(&first.icon),
        main_weather: copy_string(&first.main),
        city_id: r.id,
        visibility,
        humidity: copy_string(&r.main.humidity),
        pressure: copy_string(&r.main.pressure),
        time: utc_text(r.dt),
        unix_utc: r.dt,
        rain_3h,
        rain_1h,
        snow_3h,
        snow_1h,
        temp_min: copy_string(&r.main.temp_min),
        temp_max: copy_string(&r.main.temp_max),
        temp: copy_string(&r.main.temp),
        country,
        sunrise: r.sunrise,
        sunset: r.sunset,
        clouds: copy_string(&r.clouds),
        wind_direction: copy_string(&r.wind_deg),
        wind_speed: copy_string(&r.wind_speed),
        latitude: copy_string(&r.latitude),
        longitude: copy_string(&r.longitude),
        year: utc_year(r.dt),
    }
}

/// The partition path for records of one entity name in one calendar year:
/// `<base>/<city>/<year>.<extension>`.
pub open spec fn path_text(base: Seq<char>, city: Seq<char>, year: int, ext: Seq<char>) -> Seq<
    char,
> {
    base + seq!['/'] + city + seq!['/'] + int_text(year) + seq!['.'] + ext
}

impl LegacyRecord {
    /// Computes the partition path this record routes to.
    pub fn path(&self, base: &str, extension: &str) -> (s: String)
        ensures
            s@ == path_text(base@, self.city@, self.year as int, extension@),
    {
        let mut s = String::from_str(base);
        s.append("/");
        s.append(self.city.as_str());
        s.append("/");
        s.append(crate::numtext::i64_text(self.year as i64).as_str());
        s.append(".");
        s.append(extension);
        proof {
            reveal_strlit("/");
            reveal_strlit(".");
            assert(s@ =~= path_text(base@, self.city@, self.year as int, extension@));
        }
        s
    }
}

/// Partition routing: with one base directory and one extension, records of
/// the same entity name route to the same file exactly when their
/// observation years agree; distinct years route to distinct files.
pub proof fn lemma_partition_routing(
    base: Seq<char>,
    city: Seq<char>,
    y1: int,
    y2: int,
    ext: Seq<char>,
)
    ensures
        y1 == y2 ==> path_text(base, city, y1, ext) == path_text(base, city, y2, ext),
        y1 != y2 ==> path_text(base, city, y1, ext) != path_text(base, city, y2, ext),
{
    if y1 != y2 && path_text(base, city, y1, ext) == path_text(base, city, y2, ext) {
        let pa = path_text(base, city, y1, ext);
        let pb = path_text(base, city, y2, ext);
        let off = base.len() + 1 + city.len() + 1;
        let t1 = int_text(y1);
        let t2 = int_text(y2);
        assert(pa.len() == off + t1.len() + 1 + ext.len());
        assert(pb.len() == off + t2.len() + 1 + ext.len());
        assert(t1.len() == t2.len());
        assert(t1 =~= t2) by {
            assert forall|j: int| 0 <= j < t1.len() implies t1[j] == t2[j] by {
                assert(pa[off + j] == t1[j]);
                assert(pb[off + j] == t2[j]);
            }
        }
        lemma_int_text_injective(y1, y2);
    }
}

} // verus!
