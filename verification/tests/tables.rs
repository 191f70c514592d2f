use weather_report::tables::{aqi_label, get_us_epa_index, get_wind_arrows, wind_arrow};

#[test]
fn wind_table_has_sixteen_entries() {
    let table = get_wind_arrows();
    assert_eq!(table.len(), 16);
    assert_eq!(table.get("N"), Some(&"⬆"));
    assert_eq!(table.get("SW"), Some(&"↙"));
    assert_eq!(table.get("XXX"), None);
}

#[test]
fn epa_table_has_six_entries() {
    let table = get_us_epa_index();
    assert_eq!(table.len(), 6);
    assert_eq!(table.get(&1), Some(&"Good"));
    assert_eq!(table.get(&6), Some(&"Hazardous"));
    assert_eq!(table.get(&0), None);
}

#[test]
fn unknown_direction_gets_the_fallback_glyph() {
    assert_eq!(wind_arrow("XXX"), "❓");
    assert_eq!(wind_arrow(""), "❓");
    assert_eq!(wind_arrow("n"), "❓");
    assert_eq!(wind_arrow("N"), "⬆");
}

#[test]
fn index_outside_the_table_is_unknown() {
    assert_eq!(aqi_label(0), "Unknown");
    assert_eq!(aqi_label(7), "Unknown");
    assert_eq!(aqi_label(-1), "Unknown");
    assert_eq!(aqi_label(3), "Unhealthy for sensitive group");
    for index in [256, 257, 258, 262, 513, -255, -250, -254, i32::MAX, i32::MIN, 9] {
        assert_eq!(aqi_label(index), "Unknown");
    }
}

#[test]
fn every_index_of_the_table_has_its_label() {
    let labels = [
        "Good",
        "Moderate",
        "Unhealthy for sensitive group",
        "Unhealthy",
        "Very Unhealthy",
        "Hazardous",
    ];
    for (i, label) in labels.iter().enumerate() {
        assert_eq!(aqi_label(i as i32 + 1), *label);
    }
}
