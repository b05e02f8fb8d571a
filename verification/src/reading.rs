//! The library's model of one raw weather reading: the fields of the upstream
//! payload that the record mapper consumes, as plain values. Measurements
//! that the upstream provider reports as fractional numbers are carried as
//! their decimal text: the pipeline copies them verbatim into the output row
//! and never computes with them.
use vstd::prelude::*;

verus! {

/// One weather-condition descriptor of a reading. A reading carries at least
/// one; only the first is mapped.
pub struct Condition {
    /// Short label, such as `Clear`.
    pub main: String,
    /// Longer description, such as `clear sky`.
    pub description: String,
    /// Icon identifier.
    pub icon: String,
}

/// The main measurements of a reading, each as decimal text.
pub struct Measurements {
    pub temp: String,
    pub temp_min: String,
    pub temp_max: String,
    pub pressure: String,
    pub humidity: String,
}

/// A precipitation accumulation: either sub-field may be absent
/// independently of the other.
pub struct Precipitation {
    pub one_hour: Option<String>,
    pub three_hour: Option<String>,
}

/// One raw weather reading for one entity at one point in time.
pub struct RawReading {
    /// Location display name.
    pub name: String,
    /// Numeric identifier of the location.
    pub id: u64,
    /// Coordinates, as decimal text.
    pub latitude: String,
    pub longitude: String,
    /// Weather-condition descriptors, in upstream order; non-empty for a
    /// well-formed reading.
    pub weather: Vec<Condition>,
    /// Main measurements.
    pub main: Measurements,
    /// Visibility in meters; absent upstream means zero downstream.
    pub visibility: Option<u16>,
    /// Wind speed and direction, as decimal text.
    pub wind_speed: String,
    pub wind_deg: String,
    /// Cloudiness percentage, as decimal text.
    pub clouds: String,
    /// Rain and snow accumulations; either whole object may be absent.
    pub rain: Option<Precipitation>,
    pub snow: Option<Precipitation>,
    /// Country code; absent upstream means the empty string downstream.
    pub country: Option<String>,
    /// Sunrise and sunset, epoch seconds UTC.
    pub sunrise: i64,
    pub sunset: i64,
    /// Observation timestamp, epoch seconds UTC.
    pub dt: i64,
}

} // verus!
