use serde_json::Value;
use weather_report::decode::{
    decode_air_quality, decode_condition, decode_forecast_day, decode_hour, decode_weather,
    parse_weather, DeserializationFailure,
};
use weather_report::encode::{encode_air_quality, encode_hours, encode_weather};
use weather_report::report::{render_report, Line, Piece};

fn air_quality_text(pm2_5: &str, pm10: &str, epa: &str) -> String {
    format!(
        "{{\"co\": 230.3, \"no2\": 13.5, \"o3\": 62.0, \"so2\": 2.1, \"pm2_5\": {}, \"pm10\": {}, \"us-epa-index\": {}, \"gb-defra-index\": 9}}",
        pm2_5, pm10, epa
    )
}

fn condition_text(text: &str) -> String {
    format!(
        "{{\"text\": \"{}\", \"icon\": \"//cdn.example/64x64/day/116.png\", \"code\": 1003}}",
        text
    )
}

fn current_text(wind_dir: &str, air_quality: &str) -> String {
    format!(
        "{{\"last_updated_epoch\": 1754035200, \"last_updated\": \"2025-08-01 09:00\", \
         \"temp_c\": 21.3, \"temp_f\": 70.3, \"is_day\": 1, \"condition\": {}, \
         \"wind_mph\": 9.4, \"wind_kph\": 15.1, \"wind_degree\": 45, \"wind_dir\": \"{}\", \
         \"pressure_mb\": 1015.0, \"pressure_in\": 29.97, \"precip_mm\": 0.02, \"precip_in\": 0.0, \
         \"humidity\": 64, \"cloud\": 50, \"feelslike_c\": 21.3, \"feelslike_f\": 70.3, \
         \"windchill_c\": 20.1, \"windchill_f\": 68.2, \"heatindex_c\": 20.5, \"heatindex_f\": 68.9, \
         \"dewpoint_c\": 12, \"dewpoint_f\": 53.6, \"vis_km\": 10.0, \"vis_miles\": 6.0, \
         \"uv\": 4.2, \"gust_mph\": 11.2, \"gust_kph\": 18.0, \"air_quality\": {}, \
         \"short_rad\": 401.5, \"diff_rad\": 120.25, \"dni\": 512.0, \"gti\": 388.75}}",
        condition_text("Partly cloudy"),
        wind_dir,
        air_quality
    )
}

fn location_text() -> String {
    "{\"name\": \"London\", \"region\": \"City of London, Greater London\", \
     \"country\": \"United Kingdom\", \"lat\": 51.5171, \"lon\": -0.1062, \
     \"tz_id\": \"Europe/London\", \"localtime_epoch\": 1754035560, \
     \"localtime\": \"2025-08-01 09:06\"}"
        .to_string()
}

fn hour_text(epoch: i64, time: &str) -> String {
    format!(
        "{{\"time_epoch\": {}, \"time\": \"{}\", \"temp_c\": 16.4, \"temp_f\": 61.5, \"is_day\": 0, \
         \"condition\": {}, \"wind_mph\": 5.1, \"wind_kph\": 8.3, \"wind_degree\": 251, \
         \"wind_dir\": \"WSW\", \"pressure_mb\": 1016.0, \"pressure_in\": 30.0, \"precip_mm\": 0.0, \
         \"precip_in\": 0.0, \"snow_cm\": 0.0, \"humidity\": 80, \"cloud\": 21, \
         \"feelslike_c\": 16.4, \"feelslike_f\": 61.5, \"windchill_c\": 16.4, \"windchill_f\": 61.5, \
         \"heatindex_c\": 16.4, \"heatindex_f\": 61.5, \"dewpoint_c\": 12.9, \"dewpoint_f\": 55.3, \
         \"will_it_rain\": 0, \"chance_of_rain\": 0, \"will_it_snow\": 0, \"chance_of_snow\": 0, \
         \"vis_km\": 10.0, \"vis_miles\": 6.0, \"gust_kph\": 12.5, \"gust_mph\": 7.8, \"uv\": 0.0, \
         \"air_quality\": {}, \"short_rad\": 0.0, \"diff_rad\": 0.0, \"dni\": 0.0, \"gti\": 0.0}}",
        epoch,
        time,
        condition_text("Clear"),
        air_quality_text("8.1", "11.9", "1")
    )
}

fn day_text(max_c: &str, condition: &str) -> String {
    format!(
        "{{\"maxtemp_c\": {}, \"maxtemp_f\": 75.2, \"mintemp_c\": 14.1, \"mintemp_f\": 57.4, \
         \"avgtemp_c\": 18.7, \"avgtemp_f\": 65.7, \"maxwind_mph\": 12.1, \"maxwind_kph\": 19.4, \
         \"totalprecip_mm\": 1.25, \"totalprecip_in\": 0.05, \"totalsnow_cm\": 0.0, \
         \"avgvis_km\": 9.8, \"avgvis_miles\": 6.0, \"avghumidity\": 71, \
         \"daily_will_it_rain\": 1, \"daily_chance_of_rain\": 86, \"daily_will_it_snow\": 0, \
         \"daily_chance_of_snow\": 0, \"condition\": {}, \"uv\": 5.0, \"air_quality\": {}}}",
        max_c,
        condition_text(condition),
        air_quality_text("9.75", "14.2", "1")
    )
}

fn astro_text() -> String {
    "{\"sunrise\": \"05:23 AM\", \"sunset\": \"08:48 PM\", \"moonrise\": \"02:51 PM\", \
     \"moonset\": \"11:36 PM\", \"moon_phase\": \"First Quarter\", \"moon_illumination\": 47, \
     \"is_moon_up\": 0, \"is_sun_up\": 1}"
        .to_string()
}

fn forecast_day_text(date: &str, epoch: i64, max_c: &str, condition: &str, hours: usize) -> String {
    let mut list: Vec<String> = Vec::new();
    for h in 0..hours {
        list.push(hour_text(epoch + 3600 * h as i64, &format!("{} {:02}:00", date, h)));
    }
    format!(
        "{{\"date\": \"{}\", \"date_epoch\": {}, \"day\": {}, \"astro\": {}, \"hour\": [{}]}}",
        date,
        epoch,
        day_text(max_c, condition),
        astro_text(),
        list.join(", ")
    )
}

fn payload_with(wind_dir: &str, air_quality: &str, days: &[String]) -> String {
    format!(
        "{{\"location\": {}, \"current\": {}, \"forecast\": {{\"forecastday\": [{}]}}}}",
        location_text(),
        current_text(wind_dir, air_quality),
        days.join(", ")
    )
}

fn three_days() -> Vec<String> {
    vec![
        forecast_day_text("2025-08-01", 1754006400, "24.0", "Sunny", 24),
        forecast_day_text("2025-08-02", 1754092800, "19.55", "Patchy rain nearby", 3),
        forecast_day_text("2025-08-03", 1754179200, "22", "Overcast", 0),
    ]
}

fn sample_payload() -> String {
    payload_with("NE", &air_quality_text("12.34", "45.678", "2"), &three_days())
}

fn shown(line: &Line) -> String {
    let mut texts: Vec<String> = Vec::new();
    for piece in &line.pieces {
        match piece {
            Piece::Text(_) => {}
            Piece::Plain(q) => texts.push(format!("{}", q.number.as_f64().unwrap())),
            Piece::Tenths(q) => texts.push(format!("{:.1}", q.number.as_f64().unwrap())),
        }
    }
    line.text(&texts).unwrap()
}

fn report_texts(payload: &str) -> Vec<String> {
    let weather = parse_weather(payload).unwrap();
    render_report(&weather).iter().map(shown).collect()
}

#[test]
fn sample_payload_decodes_in_full() {
    let w = parse_weather(&sample_payload()).unwrap();
    assert_eq!(w.location.name, "London");
    assert_eq!(w.location.region, "City of London, Greater London");
    assert_eq!(w.location.country, "United Kingdom");
    assert_eq!(w.location.lat.number.as_f64(), Some(51.5171));
    assert_eq!(w.location.lon.number.as_f64(), Some(-0.1062));
    assert_eq!(w.location.tz_id, "Europe/London");
    assert_eq!(w.location.localtime_epoch, 1754035560);
    assert_eq!(w.location.localtime, "2025-08-01 09:06");
    assert_eq!(w.current.last_updated_epoch, 1754035200);
    assert_eq!(w.current.temp_c.number.as_f64(), Some(21.3));
    assert_eq!(w.current.is_day, 1);
    assert_eq!(w.current.condition.text, "Partly cloudy");
    assert_eq!(w.current.condition.code, 1003);
    assert_eq!(w.current.wind_degree, 45);
    assert_eq!(w.current.wind_dir, "NE");
    assert_eq!(w.current.humidity, 64);
    assert_eq!(w.current.dewpoint_c.number.as_f64(), Some(12.0));
    assert_eq!(w.current.gti.number.as_f64(), Some(388.75));
    assert_eq!(w.current.air_quality.pm2_5.number.as_f64(), Some(12.34));
    assert_eq!(w.current.air_quality.pm10.number.as_f64(), Some(45.678));
    assert_eq!(w.forecast.forecastday.len(), 3);
    let first = &w.forecast.forecastday[0];
    assert_eq!(first.date, "2025-08-01");
    assert_eq!(first.date_epoch, 1754006400);
    assert_eq!(first.day.avghumidity, 71);
    assert_eq!(first.day.daily_chance_of_rain, 86);
    assert_eq!(first.day.condition.text, "Sunny");
    assert_eq!(first.astro.moon_phase, "First Quarter");
    assert_eq!(first.astro.moon_illumination, 47);
    assert_eq!(first.hour[5].time_epoch, 1754006400 + 5 * 3600);
    assert_eq!(first.hour[5].time, "2025-08-01 05:00");
    assert_eq!(first.hour[5].wind_dir, "WSW");
    assert_eq!(first.hour[5].air_quality.us_epa_index, 1);
}

#[test]
fn hyphenated_keys_fill_the_two_indices() {
    let v: Value = serde_json::from_str(&air_quality_text("1.5", "2.5", "4")).unwrap();
    let a = decode_air_quality(&v).unwrap();
    assert_eq!(a.us_epa_index, 4);
    assert_eq!(a.gb_defra_index, 9);
    let renamed = air_quality_text("1.5", "2.5", "4").replace("us-epa-index", "us_epa_index");
    let v: Value = serde_json::from_str(&renamed).unwrap();
    assert!(decode_air_quality(&v).is_none());
}

#[test]
fn hour_counts_follow_the_arrays() {
    let w = parse_weather(&sample_payload()).unwrap();
    let counts: Vec<usize> = w.forecast.forecastday.iter().map(|d| d.hour.len()).collect();
    assert_eq!(counts, vec![24, 3, 0]);
    let times: Vec<&str> = w.forecast.forecastday[1].hour.iter().map(|h| h.time.as_str()).collect();
    assert_eq!(times, vec!["2025-08-02 00:00", "2025-08-02 01:00", "2025-08-02 02:00"]);
}

#[test]
fn malformed_text_fails() {
    assert_eq!(parse_weather("").err(), Some(DeserializationFailure {}));
    assert!(parse_weather("{").is_err());
    assert!(parse_weather("[]").is_err());
    assert!(parse_weather("null").is_err());
    assert!(parse_weather("{}").is_err());
    let trailing = format!("{} x", sample_payload());
    assert!(parse_weather(&trailing).is_err());
    assert_eq!(
        DeserializationFailure {}.message(),
        "Failed to parse Json to the structs"
    );
}

#[test]
fn dropping_a_pollutant_fails() {
    let mut v: Value = serde_json::from_str(&sample_payload()).unwrap();
    assert!(decode_weather(&v).is_some());
    v["current"]["air_quality"].as_object_mut().unwrap().remove("co");
    assert!(decode_weather(&v).is_none());
}

fn keys_of(v: &Value) -> Vec<String> {
    v.as_object().unwrap().keys().cloned().collect()
}

#[test]
fn dropping_any_one_member_fails() {
    let whole: Value = serde_json::from_str(&sample_payload()).unwrap();
    let paths: Vec<Vec<&str>> = vec![
        vec![],
        vec!["location"],
        vec!["current"],
        vec!["current", "condition"],
        vec!["current", "air_quality"],
        vec!["forecast"],
    ];
    let mut tried = 0;
    for path in &paths {
        let mut at = &whole;
        for step in path {
            at = &at[*step];
        }
        for key in keys_of(at) {
            let mut v = whole.clone();
            let mut target = &mut v;
            for step in path {
                target = &mut target[*step];
            }
            target.as_object_mut().unwrap().remove(&key);
            assert!(decode_weather(&v).is_none(), "without {:?} / {}", path, key);
            tried += 1;
        }
    }
    assert_eq!(tried, 3 + 8 + 34 + 3 + 8 + 1);
}

#[test]
fn dropping_any_one_member_of_a_day_or_an_hour_fails() {
    let whole: Value =
        serde_json::from_str(&forecast_day_text("2025-08-01", 1754006400, "24.0", "Sunny", 2))
            .unwrap();
    assert!(decode_forecast_day(&whole).is_some());
    let mut tried = 0;
    for key in keys_of(&whole) {
        let mut v = whole.clone();
        v.as_object_mut().unwrap().remove(&key);
        assert!(decode_forecast_day(&v).is_none(), "without {}", key);
        tried += 1;
    }
    for part in ["day", "astro"] {
        for key in keys_of(&whole[part]) {
            let mut v = whole.clone();
            v[part].as_object_mut().unwrap().remove(&key);
            assert!(decode_forecast_day(&v).is_none(), "without {} / {}", part, key);
            tried += 1;
        }
    }
    for key in keys_of(&whole["hour"][1]) {
        let mut v = whole.clone();
        v["hour"][1].as_object_mut().unwrap().remove(&key);
        assert!(decode_forecast_day(&v).is_none(), "without hour / {}", key);
        assert!(decode_hour(&v["hour"][1]).is_none());
        assert!(decode_hour(&v["hour"][0]).is_some());
        tried += 1;
    }
    assert_eq!(tried, 5 + 21 + 8 + 39);
}

#[test]
fn a_member_of_another_kind_fails() {
    let text_for_count = condition_text("Sunny").replace("1003", "\"1003\"");
    let v: Value = serde_json::from_str(&text_for_count).unwrap();
    assert!(decode_condition(&v).is_none());
    let fraction_for_count = condition_text("Sunny").replace("1003", "1003.0");
    let v: Value = serde_json::from_str(&fraction_for_count).unwrap();
    assert!(decode_condition(&v).is_none());
    let count_for_text = condition_text("Sunny").replace("\"Sunny\"", "7");
    let v: Value = serde_json::from_str(&count_for_text).unwrap();
    assert!(decode_condition(&v).is_none());
    let text_for_quantity = air_quality_text("\"12.3\"", "1.0", "1");
    let v: Value = serde_json::from_str(&text_for_quantity).unwrap();
    assert!(decode_air_quality(&v).is_none());
    let null_for_quantity = air_quality_text("null", "1.0", "1");
    let v: Value = serde_json::from_str(&null_for_quantity).unwrap();
    assert!(decode_air_quality(&v).is_none());
    let whole_for_quantity = air_quality_text("12", "1", "1");
    let v: Value = serde_json::from_str(&whole_for_quantity).unwrap();
    assert!(decode_air_quality(&v).is_some());
    let object_for_array = sample_payload().replace("\"hour\": [", "\"hour\": {\"a\": [") + "";
    assert!(parse_weather(&object_for_array).is_err());
}

#[test]
fn a_count_too_wide_for_its_field_fails() {
    let fits = condition_text("Sunny").replace("1003", "2147483647");
    let v: Value = serde_json::from_str(&fits).unwrap();
    assert_eq!(decode_condition(&v).unwrap().code, i32::MAX);
    let low = condition_text("Sunny").replace("1003", "-2147483648");
    let v: Value = serde_json::from_str(&low).unwrap();
    assert_eq!(decode_condition(&v).unwrap().code, i32::MIN);
    let wide = condition_text("Sunny").replace("1003", "2147483648");
    let v: Value = serde_json::from_str(&wide).unwrap();
    assert!(decode_condition(&v).is_none());
    let negative = astro_text().replace("47", "-1");
    assert!(serde_json::from_str::<Value>(&negative).is_ok());
    let day = forecast_day_text("2025-08-01", 1754006400, "24.0", "Sunny", 0)
        .replace("\"moon_illumination\": 47", "\"moon_illumination\": -1");
    let v: Value = serde_json::from_str(&day).unwrap();
    assert!(decode_forecast_day(&v).is_none());
    let late = hour_text(9007199254740993, "2025-08-01 00:00");
    let v: Value = serde_json::from_str(&late).unwrap();
    assert_eq!(decode_hour(&v).unwrap().time_epoch, 9007199254740993);
    let beyond = hour_text(0, "t").replace("\"time_epoch\": 0", "\"time_epoch\": 9223372036854775808");
    let v: Value = serde_json::from_str(&beyond).unwrap();
    assert!(decode_hour(&v).is_none());
}

#[test]
fn members_beside_the_schema_are_refused() {
    let v: Value = serde_json::from_str(&condition_text("Sunny")).unwrap();
    assert_eq!(decode_condition(&v).unwrap().text, "Sunny");
    let extra = condition_text("Sunny").replace("{\"text\"", "{\"note\": [1, 2], \"text\"");
    let v: Value = serde_json::from_str(&extra).unwrap();
    assert!(decode_condition(&v).is_none());
    let last = condition_text("Sunny").replace("1003}", "1003, \"zz\": null}");
    let v: Value = serde_json::from_str(&last).unwrap();
    assert!(decode_condition(&v).is_none());
}

#[test]
fn one_more_member_anywhere_fails_the_response() {
    let whole: Value = serde_json::from_str(&sample_payload()).unwrap();
    assert!(decode_weather(&whole).is_some());
    let paths: Vec<Vec<&str>> = vec![
        vec![],
        vec!["location"],
        vec!["current"],
        vec!["current", "condition"],
        vec!["current", "air_quality"],
        vec!["forecast"],
    ];
    for path in &paths {
        let mut v = whole.clone();
        let mut target = &mut v;
        for step in path {
            target = &mut target[*step];
        }
        target.as_object_mut().unwrap().insert("foo".to_string(), Value::from(1));
        assert!(decode_weather(&v).is_none(), "with foo at {:?}", path);
    }
    for part in ["day", "astro"] {
        let mut v = whole.clone();
        v["forecast"]["forecastday"][1][part]
            .as_object_mut()
            .unwrap()
            .insert("foo".to_string(), Value::from(1));
        assert!(decode_weather(&v).is_none(), "with foo in {}", part);
    }
    let mut v = whole.clone();
    v["forecast"]["forecastday"][0]["hour"][23]
        .as_object_mut()
        .unwrap()
        .insert("foo".to_string(), Value::from(1));
    assert!(decode_weather(&v).is_none());
    let mut v = whole.clone();
    v["forecast"]["forecastday"][2]
        .as_object_mut()
        .unwrap()
        .insert("foo".to_string(), Value::from(1));
    assert!(decode_weather(&v).is_none());
    let with_foo = sample_payload().replace("\"is_day\": 1,", "\"is_day\": 1, \"foo\": 1,");
    assert!(parse_weather(&with_foo).is_err());
}

#[test]
fn a_member_under_another_name_fails() {
    let renamed = condition_text("Sunny").replace("\"icon\"", "\"ikon\"");
    let v: Value = serde_json::from_str(&renamed).unwrap();
    assert!(decode_condition(&v).is_none());
    let v: Value = serde_json::from_str("[\"Sunny\", \"i\", 1003]").unwrap();
    assert!(decode_condition(&v).is_none());
    let v: Value = serde_json::from_str("{}").unwrap();
    assert!(decode_condition(&v).is_none());
}

#[test]
fn report_of_the_sample() {
    let lines = report_texts(&sample_payload());
    let rule = format!("<>{}<>", "-".repeat(70));
    let expected: Vec<String> = vec![
        rule.clone(),
        "London (City of London, Greater London, United Kingdom)".to_string(),
        "Local Time: 2025-08-01 09:06".to_string(),
        "".to_string(),
        "Partly cloudy | 21.3°C / 70.3°F\tUV: 4.2".to_string(),
        "".to_string(),
        "Feels like: 21.3°C / 70.3°F\tHumidity: 64%\tPrecip: 0.02 mm".to_string(),
        "Wind: ↗ 15.1kph / 9.4mph \tDew Point: 12°C / 53.6°F".to_string(),
        "AQI: Moderate\tPM2.5: 12.3 μg/m³\tPM10: 45.7 μg/m³".to_string(),
        "".to_string(),
        "▶ Forecast:".to_string(),
        "  - 2025-08-01: 24°C / 75.2°F, Sunny (Precip: 1.25 mm, UV: 5)".to_string(),
        "  - 2025-08-02: 19.55°C / 75.2°F, Patchy rain nearby (Precip: 1.25 mm, UV: 5)".to_string(),
        "  - 2025-08-03: 22°C / 75.2°F, Overcast (Precip: 1.25 mm, UV: 5)".to_string(),
        rule,
    ];
    assert_eq!(lines, expected);
}

#[test]
fn air_quality_line_of_a_minimal_payload() {
    let payload = payload_with("NE", &air_quality_text("12.34", "45.678", "2"), &[]);
    let lines = report_texts(&payload);
    assert_eq!(lines[8], "AQI: Moderate\tPM2.5: 12.3 μg/m³\tPM10: 45.7 μg/m³");
    assert_eq!(lines[7], "Wind: ↗ 15.1kph / 9.4mph \tDew Point: 12°C / 53.6°F");
    assert_eq!(lines.len(), 12);
}

#[test]
fn unknown_direction_and_index_do_not_fail_the_report() {
    let payload = payload_with("XXX", &air_quality_text("0.04", "0.06", "0"), &three_days());
    let lines = report_texts(&payload);
    assert_eq!(lines[7], "Wind: ❓ 15.1kph / 9.4mph \tDew Point: 12°C / 53.6°F");
    assert_eq!(lines[8], "AQI: Unknown\tPM2.5: 0.0 μg/m³\tPM10: 0.1 μg/m³");
    let payload = payload_with("", &air_quality_text("7", "8", "-3"), &three_days());
    let lines = report_texts(&payload);
    assert_eq!(lines[7], "Wind: ❓ 15.1kph / 9.4mph \tDew Point: 12°C / 53.6°F");
    assert_eq!(lines[8], "AQI: Unknown\tPM2.5: 7.0 μg/m³\tPM10: 8.0 μg/m³");
}

#[test]
fn index_beyond_a_byte_is_unknown() {
    let payload = payload_with("N", &air_quality_text("1.0", "2.0", "257"), &[]);
    let lines = report_texts(&payload);
    assert_eq!(lines[8], "AQI: Unknown\tPM2.5: 1.0 μg/m³\tPM10: 2.0 μg/m³");
    let payload = payload_with("N", &air_quality_text("1", "1", "-250"), &[]);
    let lines = report_texts(&payload);
    assert_eq!(lines[8], "AQI: Unknown\tPM2.5: 1.0 μg/m³\tPM10: 1.0 μg/m³");
    let payload = payload_with("N", &air_quality_text("1", "1", "6"), &[]);
    let lines = report_texts(&payload);
    assert_eq!(lines[8], "AQI: Hazardous\tPM2.5: 1.0 μg/m³\tPM10: 1.0 μg/m³");
}

#[test]
fn forecast_lines_keep_the_order_of_the_days() {
    let days = vec![
        forecast_day_text("2025-08-03", 3, "3", "Third", 1),
        forecast_day_text("2025-08-01", 1, "1", "First", 1),
        forecast_day_text("2025-08-02", 2, "2", "Second", 1),
        forecast_day_text("2025-08-01", 1, "1", "First", 1),
    ];
    let payload = payload_with("S", &air_quality_text("1", "1", "1"), &days);
    let lines = report_texts(&payload);
    assert_eq!(lines.len(), 16);
    assert_eq!(lines[11], "  - 2025-08-03: 3°C / 75.2°F, Third (Precip: 1.25 mm, UV: 5)");
    assert_eq!(lines[12], "  - 2025-08-01: 1°C / 75.2°F, First (Precip: 1.25 mm, UV: 5)");
    assert_eq!(lines[13], "  - 2025-08-02: 2°C / 75.2°F, Second (Precip: 1.25 mm, UV: 5)");
    assert_eq!(lines[14], "  - 2025-08-01: 1°C / 75.2°F, First (Precip: 1.25 mm, UV: 5)");
    assert_eq!(lines[15], lines[0]);
}

#[test]
fn negative_humidity_is_written_with_its_sign() {
    let payload = sample_payload().replace("\"humidity\": 64", "\"humidity\": -2147483648");
    let lines = report_texts(&payload);
    assert_eq!(
        lines[6],
        "Feels like: 21.3°C / 70.3°F\tHumidity: -2147483648%\tPrecip: 0.02 mm"
    );
}

#[test]
fn line_text_needs_one_text_for_each_quantity() {
    let w = parse_weather(&sample_payload()).unwrap();
    let lines = render_report(&w);
    let air = &lines[8];
    assert_eq!(air.pieces.len(), 7);
    assert_eq!(air.text(&vec![]), None);
    assert_eq!(air.text(&vec!["a".to_string()]), None);
    assert_eq!(
        air.text(&vec!["a".to_string(), "b".to_string()]),
        Some("AQI: Moderate\tPM2.5: a μg/m³\tPM10: b μg/m³".to_string())
    );
    assert_eq!(air.text(&vec!["a".to_string(), "b".to_string(), "c".to_string()]), None);
    assert_eq!(lines[3].text(&vec![]), Some(String::new()));
    assert_eq!(lines[3].text(&vec!["a".to_string()]), None);
    assert!(matches!(air.pieces[3], Piece::Tenths(_)));
    assert!(matches!(air.pieces[5], Piece::Tenths(_)));
    assert!(matches!(lines[4].pieces[2], Piece::Plain(_)));
}

#[test]
fn written_response_decodes_to_the_same() {
    let w = parse_weather(&sample_payload()).unwrap();
    let written = encode_weather(&w);
    assert_eq!(decode_weather(&written), Some(w.clone()));
    let text = written.to_string();
    assert_eq!(parse_weather(&text), Ok(w));
}

#[test]
fn written_document_equals_the_document_read() {
    let read: Value = serde_json::from_str(&sample_payload()).unwrap();
    let w = decode_weather(&read).unwrap();
    assert_eq!(encode_weather(&w), read);
}

#[test]
fn written_air_quality_has_the_hyphenated_keys() {
    let v: Value = serde_json::from_str(&air_quality_text("1.5", "2", "4")).unwrap();
    let a = decode_air_quality(&v).unwrap();
    let written = encode_air_quality(&a);
    let mut keys = keys_of(&written);
    keys.sort();
    assert_eq!(
        keys,
        vec!["co", "gb-defra-index", "no2", "o3", "pm10", "pm2_5", "so2", "us-epa-index"]
    );
    assert_eq!(written["us-epa-index"], Value::from(4));
    assert_eq!(written["gb-defra-index"], Value::from(9));
    assert_eq!(written["pm2_5"].as_f64(), Some(1.5));
    assert_eq!(written["pm10"].as_i64(), Some(2));
    assert_eq!(written["pm10"].to_string(), "2");
    assert_eq!(written, v);
}

#[test]
fn written_hours_keep_their_order() {
    let w = parse_weather(&sample_payload()).unwrap();
    let hours = encode_hours(&w.forecast.forecastday[1].hour);
    assert_eq!(hours.len(), 3);
    assert_eq!(hours[0]["time"], Value::from("2025-08-02 00:00"));
    assert_eq!(hours[2]["time"], Value::from("2025-08-02 02:00"));
    assert_eq!(hours[2]["time_epoch"], Value::from(1754092800i64 + 7200));
    assert_eq!(hours[1]["condition"]["code"], Value::from(1003));
    assert!(encode_hours(&Vec::new()).is_empty());
}

#[test]
fn extreme_counts_are_written_as_they_are() {
    let text = hour_text(i64::MIN, "t").replace("\"humidity\": 80", "\"humidity\": -2147483648");
    let v: Value = serde_json::from_str(&text).unwrap();
    let h = decode_hour(&v).unwrap();
    assert_eq!(h.time_epoch, i64::MIN);
    assert_eq!(h.humidity, i32::MIN);
    let day = forecast_day_text("d", i64::MAX - 3600, "1", "c", 1)
        .replace("\"avghumidity\": 71", "\"avghumidity\": 4294967295");
    let v: Value = serde_json::from_str(&day).unwrap();
    let d = decode_forecast_day(&v).unwrap();
    assert_eq!(d.day.avghumidity, u32::MAX);
    assert_eq!(d.date_epoch, i64::MAX - 3600);
    let written = weather_report::encode::encode_forecast_day(&d);
    assert_eq!(written, v);
}
