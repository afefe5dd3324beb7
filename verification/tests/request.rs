use weather_report::request::{build_url, is_success};

#[test]
fn url_holds_city_key_and_metric_units() {
    assert_eq!(
        build_url("Paris", "abc123"),
        "https://api.openweathermap.org/data/2.5/weather?q=Paris&appid=abc123&units=metric"
    );
}

#[test]
fn url_of_empty_values() {
    assert_eq!(build_url("", ""), "https://api.openweathermap.org/data/2.5/weather?q=&appid=&units=metric");
}

// The city and the key go into the address as they are: a space or an
// ampersand in them is not percent-encoded.
#[test]
fn url_is_not_percent_encoded() {
    assert_eq!(
        build_url("New York", "k&y"),
        "https://api.openweathermap.org/data/2.5/weather?q=New York&appid=k&y&units=metric"
    );
}

#[test]
fn success_is_the_two_hundreds() {
    assert!(is_success(200));
    assert!(is_success(204));
    assert!(is_success(299));
    assert!(!is_success(199));
    assert!(!is_success(300));
    assert!(!is_success(404));
    assert!(!is_success(500));
    assert!(!is_success(0));
    assert!(!is_success(u16::MAX));
}
