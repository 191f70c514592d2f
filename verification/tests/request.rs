use weather_report::request::{
    choose_api_key, choose_query_source, forecast_url, is_blank, key_choice_of, query_source_of,
    KeyChoice, QuerySource, API_KEY_MIN_LENGTH,
};

fn args(list: &[&str]) -> Vec<String> {
    list.iter().map(|s| s.to_string()).collect()
}

#[test]
fn blank_texts() {
    assert!(is_blank(""));
    assert!(is_blank(" "));
    assert!(is_blank(" \t\r\n"));
    assert!(is_blank("\u{a0}\u{3000}"));
    assert!(!is_blank("x"));
    assert!(!is_blank("  London \n"));
}

#[test]
fn query_comes_from_the_one_argument() {
    assert_eq!(choose_query_source(&args(&["weather", "London"])), QuerySource::Argument);
    assert_eq!(
        choose_query_source(&args(&["weather", "New York"])),
        QuerySource::Argument
    );
}

#[test]
fn query_is_asked_for_without_an_argument() {
    assert_eq!(choose_query_source(&args(&[])), QuerySource::Prompt);
    assert_eq!(choose_query_source(&args(&["weather"])), QuerySource::Prompt);
    assert_eq!(choose_query_source(&args(&["weather", ""])), QuerySource::Prompt);
    assert_eq!(choose_query_source(&args(&["weather", "  "])), QuerySource::Prompt);
}

#[test]
fn more_than_one_argument_is_refused() {
    assert_eq!(
        choose_query_source(&args(&["weather", "New", "York"])),
        QuerySource::TooManyArguments
    );
    assert_eq!(
        choose_query_source(&args(&["weather", "", "", ""])),
        QuerySource::TooManyArguments
    );
}

#[test]
fn api_key_choices() {
    assert_eq!(API_KEY_MIN_LENGTH, 20);
    assert_eq!(choose_api_key(""), KeyChoice::Environment);
    assert_eq!(choose_api_key("   \n"), KeyChoice::Environment);
    assert_eq!(choose_api_key("short"), KeyChoice::TooShort);
    assert_eq!(choose_api_key("0123456789012345678"), KeyChoice::TooShort);
    assert_eq!(choose_api_key("01234567890123456789"), KeyChoice::Provided);
    assert_eq!(choose_api_key("0123456789 0123456789 x"), KeyChoice::Provided);
    assert_eq!(choose_api_key("ééééééééééééééééééé"), KeyChoice::TooShort);
    assert_eq!(choose_api_key("éééééééééééééééééééé"), KeyChoice::Provided);
}

#[test]
fn address_of_a_forecast() {
    assert_eq!(
        forecast_url("0123456789abcdefghij", "London", 3),
        "https://api.weatherapi.com/v1/forecast.json?key=0123456789abcdefghij&q=London&days=3&aqi=yes"
    );
    assert_eq!(
        forecast_url("", "", 0),
        "https://api.weatherapi.com/v1/forecast.json?key=&q=&days=0&aqi=yes"
    );
    assert_eq!(
        forecast_url("k", "48.85,2.35\n", 4294967295),
        "https://api.weatherapi.com/v1/forecast.json?key=k&q=48.85,2.35\n&days=4294967295&aqi=yes"
    );
}

#[test]
fn key_choice_by_blankness_and_length() {
    assert_eq!(key_choice_of(true, 0), KeyChoice::Environment);
    assert_eq!(key_choice_of(true, 40), KeyChoice::Environment);
    assert_eq!(key_choice_of(false, 0), KeyChoice::TooShort);
    assert_eq!(key_choice_of(false, 19), KeyChoice::TooShort);
    assert_eq!(key_choice_of(false, 20), KeyChoice::Provided);
    assert_eq!(key_choice_of(false, usize::MAX), KeyChoice::Provided);
}

#[test]
fn query_source_by_count_and_blankness() {
    assert_eq!(query_source_of(0, false), QuerySource::Prompt);
    assert_eq!(query_source_of(1, false), QuerySource::Prompt);
    assert_eq!(query_source_of(1, true), QuerySource::Prompt);
    assert_eq!(query_source_of(2, true), QuerySource::Prompt);
    assert_eq!(query_source_of(2, false), QuerySource::Argument);
    assert_eq!(query_source_of(3, false), QuerySource::TooManyArguments);
    assert_eq!(query_source_of(3, true), QuerySource::TooManyArguments);
    assert_eq!(query_source_of(usize::MAX, false), QuerySource::TooManyArguments);
}
