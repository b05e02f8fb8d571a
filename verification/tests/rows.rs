use weather_poller::record::LegacyRecord;
use weather_poller::rowtext::header_row;
use weather_poller::rowtext::join_row;
use weather_poller::rowtext::render_append;
use weather_poller::rowtext::render_row;

const HEADER: &str = "City,Description,Icon,Main_Weather,ID,Visibility[m],Humidity[%],\
Pressure[hPa],Time,UNIX_UTC,Rain[3h][mm],Rain[1h][mm],Snow[3h][mm],Snow[1h][mm],\
Min_temp,Max_temp,Temp,Country,Sunrise,Sunset,Clouds[%],Wind_direction,\
Wind_speed[m/s],Latitude,Longitude\n";

fn sample_record() -> LegacyRecord {
    LegacyRecord {
        city: "Paris".to_string(),
        description: "clear sky".to_string(),
        icon: "01d".to_string(),
        main_weather: "Clear".to_string(),
        city_id: 2988507,
        visibility: 10000,
        humidity: "60".to_string(),
        pressure: "1012".to_string(),
        time: "2023-11-14 22:13:20".to_string(),
        unix_utc: 1700000000,
        rain_3h: "0".to_string(),
        rain_1h: "0".to_string(),
        snow_3h: "0".to_string(),
        snow_1h: "0".to_string(),
        temp_min: "14".to_string(),
        temp_max: "16".to_string(),
        temp: "15.2".to_string(),
        country: "FR".to_string(),
        sunrise: 1699946400,
        sunset: 1699980000,
        clouds: "5".to_string(),
        wind_direction: "90".to_string(),
        wind_speed: "3.1".to_string(),
        latitude: "48.85".to_string(),
        longitude: "2.35".to_string(),
        year: 2023,
    }
}

const SAMPLE_ROW: &str = "Paris,clear sky,01d,Clear,2988507,10000,60,1012,\
2023-11-14 22:13:20,1700000000,0,0,0,0,14,16,15.2,FR,1699946400,1699980000,\
5,90,3.1,48.85,2.35\n";

#[test]
fn header_has_the_stable_column_order() {
    assert_eq!(header_row(','), HEADER);
}

#[test]
fn row_renders_all_columns_in_order() {
    assert_eq!(render_row(&sample_record(), ','), SAMPLE_ROW);
}

#[test]
fn append_to_fresh_partition_emits_header_then_row() {
    let text = render_append(&sample_record(), false, ',');
    assert_eq!(text, format!("{}{}", HEADER, SAMPLE_ROW));
}

#[test]
fn append_to_present_partition_emits_row_only() {
    let text = render_append(&sample_record(), true, ',');
    assert_eq!(text, SAMPLE_ROW);
}

#[test]
fn n_appends_emit_one_header_and_n_rows() {
    let mut content = String::new();
    for i in 0..4 {
        content.push_str(&render_append(&sample_record(), i > 0, ','));
    }
    let expected = format!(
        "{}{}{}{}{}",
        HEADER, SAMPLE_ROW, SAMPLE_ROW, SAMPLE_ROW, SAMPLE_ROW
    );
    assert_eq!(content, expected);
    assert_eq!(content.matches("City,Description").count(), 1);
}

#[test]
fn delimiter_override_is_used_everywhere() {
    let header = header_row(';');
    assert!(header.starts_with("City;Description;Icon"));
    let row = render_row(&sample_record(), ';');
    assert!(row.starts_with("Paris;clear sky;01d;Clear;2988507;"));
}

#[test]
fn fields_holding_the_delimiter_are_quoted() {
    let mut rec = sample_record();
    rec.city = "Paris, France".to_string();
    let row = render_row(&rec, ',');
    assert!(row.starts_with("\"Paris, France\",clear sky,"));
}

#[test]
fn quotes_in_fields_are_doubled() {
    let mut rec = sample_record();
    rec.description = "so \"clear\"".to_string();
    let row = render_row(&rec, ',');
    assert!(row.contains("Paris,\"so \"\"clear\"\"\",01d,"));
}

#[test]
fn line_breaks_in_fields_are_quoted() {
    let fields = vec!["a\nb".to_string(), "c".to_string()];
    assert_eq!(join_row(&fields, ','), "\"a\nb\",c\n");
}

#[test]
fn negative_and_extreme_integers_render_in_decimal() {
    let mut rec = sample_record();
    rec.sunrise = -5;
    rec.sunset = 0;
    rec.unix_utc = i64::MIN;
    let row = render_row(&rec, ',');
    assert!(row.contains(",-9223372036854775808,"));
    assert!(row.contains(",-5,0,"));
}
