//! The delimited text of the partition files: field quoting, one fixed
//! header row, and one data row per record. The exact bytes of every append
//! are specified here, and the header-once law is proved over them.
use vstd::prelude::*;

use crate::numtext::dec_digits;
use crate::numtext::i64_text;
use crate::numtext::int_text;
use crate::numtext::u64_text;
use crate::record::LegacyRecord;

verus! {

/// A character that forces the field containing it into quotes: the
/// delimiter, the quote itself, or a line break.
pub open spec fn quote_forcing(c: char, d: char) -> bool {
    c == d || c == '"' || c == '\n' || c == '\r'
}

/// Whether a field must be quoted under delimiter `d`.
pub open spec fn needs_quoting(s: Seq<char>, d: char) -> bool {
    exists|j: int| 0 <= j < s.len() && quote_forcing(s[j], d)
}

/// One character of a quoted field: a quote is doubled, everything else
/// stands as it is.
pub open spec fn escaped_char(c: char) -> Seq<char> {
    if c == '"' {
        seq!['"', '"']
    } else {
        seq![c]
    }
}

/// A field's characters with every quote doubled.
pub open spec fn escape_quotes(s: Seq<char>) -> Seq<char>
    decreases s.len(),
{
    if s.len() == 0 {
        Seq::<char>::empty()
    } else {
        escape_quotes(s.drop_last()) + escaped_char(s.last())
    }
}

/// The text of one field under delimiter `d`: quoted with doubled quotes
/// when it holds a forcing character, verbatim otherwise.
pub open spec fn field_text(s: Seq<char>, d: char) -> Seq<char> {
    if needs_quoting(s, d) {
        seq!['"'] + escape_quotes(s) + seq!['"']
    } else {
        s
    }
}

/// The text of one row: the fields separated by the delimiter, closed by a
/// line feed.
pub open spec fn row_text(fields: Seq<Seq<char>>, d: char) -> Seq<char>
    decreases fields.len(),
{
    if fields.len() == 0 {
        seq!['\n']
    } else if fields.len() == 1 {
        field_text(fields[0], d) + seq!['\n']
    } else {
        field_text(fields[0], d) + seq![d] + row_text(fields.drop_first(), d)
    }
}

/// Relies on `String::push`: appends exactly the one given character.
#[verifier::external_body]
fn push_char(s: &mut String, c: char)
    ensures
        final(s)@ == old(s)@ + seq![c],
{
    s.push(c);
}

fn scan_needs_quoting(f: &str, d: char) -> (b: bool)
    ensures
        b == needs_quoting(f@, d),
{
    let n = f.unicode_len();
    let mut i: usize = 0;
    let mut found = false;
    while i < n
        invariant
            i <= n,
            n == f@.len(),
            found == exists|j: int| 0 <= j < i && quote_forcing(f@[j], d),
        decreases n - i,
    {
        let c = f.get_char(i);
        if c == d || c == '"' || c == '\n' || c == '\r' {
            found = true;
        }
        i = i + 1;
    }
    found
}

fn push_field(out: &mut String, f: &str, d: char)
    ensures
        final(out)@ == old(out)@ + field_text(f@, d),
{
    if scan_needs_quoting(f, d) {
        let ghost entry = out@;
        push_char(out, '"');
        let n = f.unicode_len();
        let mut i: usize = 0;
        while i < n
            invariant
                i <= n,
                n == f@.len(),
                out@ == entry + seq!['"'] + escape_quotes(f@.subrange(0, i as int)),
            decreases n - i,
        {
            let c = f.get_char(i);
            if c == '"' {
                push_char(out, '"');
                push_char(out, '"');
            } else {
                push_char(out, c);
            }
            proof {
                let pre = f@.subrange(0, i as int);
                let cur = f@.subrange(0, i + 1 as int);
                assert(cur.drop_last() =~= pre);
                assert(cur.last() == f@[i as int]);
            }
            i = i + 1;
        }
        push_char(out, '"');
        proof {
            assert(f@.subrange(0, n as int) =~= f@);
            assert(out@ =~= entry + field_text(f@, d));
        }
    } else {
        out.append(f);
    }
}

/// Renders one row from its fields, already as text, under delimiter `d`.
pub fn join_row(fields: &Vec<String>, d: char) -> (s: String)
    ensures
        s@ == row_text(fields.deep_view(), d),
{
    let mut out = String::from_str("");
    proof {
        reveal_strlit("");
        assert(out@ =~= Seq::<char>::empty());
    }
    let n = fields.len();
    if n == 0 {
        push_char(&mut out, '\n');
        proof {
            assert(out@ =~= row_text(fields.deep_view(), d));
        }
        return out;
    }
    let ghost all = fields.deep_view();
    proof {
        assert(all.subrange(0, n as int) =~= all);
        assert(out@ + row_text(all, d) =~= row_text(all, d));
    }
    let mut i: usize = 0;
    while i < n
        invariant
            i <= n,
            1 <= n == fields@.len(),
            all == fields.deep_view(),
            i < n ==> row_text(all, d) == out@ + row_text(
                all.subrange(i as int, n as int),
                d,
            ),
            i == n ==> out@ == row_text(all, d),
        decreases n - i,
    {
        let ghost rest = all.subrange(i as int, n as int);
        proof {
            assert(rest[0] == all[i as int]);
            assert(all[i as int] == fields@[i as int]@);
        }
        push_field(&mut out, fields[i].as_str(), d);
        if i + 1 < n {
            push_char(&mut out, d);
            proof {
                assert(rest.drop_first() =~= all.subrange(i + 1, n as int));
                assert(row_text(rest, d) == field_text(rest[0], d) + seq![d] + row_text(
                    rest.drop_first(),
                    d,
                ));
                assert(row_text(all, d) =~= out@ + row_text(all.subrange(i + 1, n as int), d));
            }
        } else {
            push_char(&mut out, '\n');
            proof {
                assert(rest.len() == 1);
                assert(row_text(rest, d) == field_text(rest[0], d) + seq!['\n']);
                assert(out@ =~= row_text(all, d));
            }
        }
        i = i + 1;
    }
    out
}

/// The fixed column names, in their stable order.
pub open spec fn header_fields() -> Seq<Seq<char>> {
    seq![
        "City"@,
        "Description"@,
        "Icon"@,
        "Main_Weather"@,
        "ID"@,
        "Visibility[m]"@,
        "Humidity[%]"@,
        "Pressure[hPa]"@,
        "Time"@,
        "UNIX_UTC"@,
        "Rain[3h][mm]"@,
        "Rain[1h][mm]"@,
        "Snow[3h][mm]"@,
        "Snow[1h][mm]"@,
        "Min_temp"@,
        "Max_temp"@,
        "Temp"@,
        "Country"@,
        "Sunrise"@,
        "Sunset"@,
        "Clouds[%]"@,
        "Wind_direction"@,
        "Wind_speed[m/s]"@,
        "Latitude"@,
        "Longitude"@,
    ]
}

/// The header row under delimiter `d`.
pub open spec fn header_text(d: char) -> Seq<char> {
    row_text(header_fields(), d)
}

/// Renders the header row.
pub fn header_row(d: char) -> (s: String)
    ensures
        s@ == header_text(d),
{
    let mut fields: Vec<String> = Vec::new();
    fields.push(String::from_str("City"));
    fields.push(String::from_str("Description"));
    fields.push(String::from_str("Icon"));
    fields.push(String::from_str("Main_Weather"));
    fields.push(String::from_str("ID"));
    fields.push(String::from_str("Visibility[m]"));
    fields.push(String::from_str("Humidity[%]"));
    fields.push(String::from_str("Pressure[hPa]"));
    fields.push(String::from_str("Time"));
    fields.push(String::from_str("UNIX_UTC"));
    fields.push(String::from_str("Rain[3h][mm]"));
    fields.push(String::from_str("Rain[1h][mm]"));
    fields.push(String::from_str("Snow[3h][mm]"));
    fields.push(String::from_str("Snow[1h][mm]"));
    fields.push(String::from_str("Min_temp"));
    fields.push(String::from_str("Max_temp"));
    fields.push(String::from_str("Temp"));
    fields.push(String::from_str("Country"));
    fields.push(String::from_str("Sunrise"));
    fields.push(String::from_str("Sunset"));
    fields.push(String::from_str("Clouds[%]"));
    fields.push(String::from_str("Wind_direction"));
    fields.push(String::from_str("Wind_speed[m/s]"));
    fields.push(String::from_str("Latitude"));
    fields.push(String::from_str("Longitude"));
    proof {
        assert(fields.deep_view() =~~= header_fields());
    }
    join_row(&fields, d)
}

/// The fields of one record's data row, in the stable column order, with the
/// integer columns rendered in decimal.
pub open spec fn record_fields(rec: LegacyRecord) -> Seq<Seq<char>> {
    seq![
        rec.city@,
        rec.description@,
        rec.icon@,
        rec.main_weather@,
        dec_digits(rec.city_id as nat),
        dec_digits(rec.visibility as nat),
        rec.humidity@,
        rec.pressure@,
        rec.time@,
        int_text(rec.unix_utc as int),
        rec.rain_3h@,
        rec.rain_1h@,
        rec.snow_3h@,
        rec.snow_1h@,
        rec.temp_min@,
        rec.temp_max@,
        rec.temp@,
        rec.country@,
        int_text(rec.sunrise as int),
        int_text(rec.sunset as int),
        rec.clouds@,
        rec.wind_direction@,
        rec.wind_speed@,
        rec.latitude@,
        rec.longitude@,
    ]
}

/// The data row of one record under delimiter `d`.
pub open spec fn row_of(rec: LegacyRecord, d: char) -> Seq<char> {
    row_text(record_fields(rec), d)
}

fn copy_field(s: &String) -> (r: String)
    ensures
        r@ == s@,
{
    String::from_str(s.as_str())
}

/// Renders one record's data row.
pub fn render_row(rec: &LegacyRecord, d: char) -> (s: String)
    ensures
        s@ == row_of(*rec, d),
{
    let mut fields: Vec<String> = Vec::new();
    fields.push(copy_field(&rec.city));
    fields.push(copy_field(&rec.description));
    fields.push(copy_field(&rec.icon));
    fields.push(copy_field(&rec.main_weather));
    fields.push(u64_text(rec.city_id));
    fields.push(u64_text(rec.visibility));
    fields.push(copy_field(&rec.humidity));
    fields.push(copy_field(&rec.pressure));
    fields.push(copy_field(&rec.time));
    fields.push(i64_text(rec.unix_utc));
    fields.push(copy_field(&rec.rain_3h));
    fields.push(copy_field(&rec.rain_1h));
    fields.push(copy_field(&rec.snow_3h));
    fields.push(copy_field(&rec.snow_1h));
    fields.push(copy_field(&rec.temp_min));
    fields.push(copy_field(&rec.temp_max));
    fields.push(copy_field(&rec.temp));
    fields.push(copy_field(&rec.country));
    fields.push(i64_text(rec.sunrise));
    fields.push(i64_text(rec.sunset));
    fields.push(copy_field(&rec.clouds));
    fields.push(copy_field(&rec.wind_direction));
    fields.push(copy_field(&rec.wind_speed));
    fields.push(copy_field(&rec.latitude));
    fields.push(copy_field(&rec.longitude));
    proof {
        assert(fields.deep_view() =~~= record_fields(*rec));
    }
    join_row(&fields, d)
}

/// The exact text of one append: the data row alone when the partition file
/// was already present, the header row before it when the append creates the
/// file.
pub open spec fn append_text(rec: LegacyRecord, present: bool, d: char) -> Seq<char> {
    if present {
        row_of(rec, d)
    } else {
        header_text(d) + row_of(rec, d)
    }
}

/// Renders the exact text of one append.
pub fn render_append(rec: &LegacyRecord, present: bool, d: char) -> (s: String)
    ensures
        s@ == append_text(*rec, present, d),
{
    if present {
        render_row(rec, d)
    } else {
        let header = header_row(d);
        let row = render_row(rec, d);
        header.concat(row.as_str())
    }
}

/// The data rows of a sequence of records, in order.
pub open spec fn rows_of(recs: Seq<LegacyRecord>, d: char) -> Seq<char>
    decreases recs.len(),
{
    if recs.len() == 0 {
        Seq::<char>::empty()
    } else {
        rows_of(recs.drop_last(), d) + row_of(recs.last(), d)
    }
}

/// The content of a fresh partition after the records are appended in turn:
/// the first append finds no file, every later one finds the file the
/// earlier appends created.
pub open spec fn appended_content(recs: Seq<LegacyRecord>, d: char) -> Seq<char>
    decreases recs.len(),
{
    if recs.len() == 0 {
        Seq::<char>::empty()
    } else {
        appended_content(recs.drop_last(), d) + append_text(recs.last(), recs.len() > 1, d)
    }
}

/// Header emission happens exactly once: a fresh partition that receives N
/// records in turn holds one header row followed by the N data rows in
/// order, whatever N is.
pub proof fn lemma_header_once(recs: Seq<LegacyRecord>, d: char)
    requires
        recs.len() >= 1,
    ensures
        appended_content(recs, d) == header_text(d) + rows_of(recs, d),
    decreases recs.len(),
{
    if recs.len() == 1 {
        assert(appended_content(recs.drop_last(), d) =~= Seq::<char>::empty());
        assert(rows_of(recs.drop_last(), d) =~= Seq::<char>::empty());
        assert(appended_content(recs, d) =~= header_text(d) + rows_of(recs, d));
    } else {
        lemma_header_once(recs.drop_last(), d);
        assert(appended_content(recs, d) =~= header_text(d) + rows_of(recs, d));
    }
}

} // verus!
