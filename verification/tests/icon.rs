use weather_report::icon::{get_weather_icon, icon_for_lowercase};

const TABLE: [(&str, &str); 14] = [
    ("clear sky", "☀️"),
    ("few clouds", "🌤️"),
    ("scattered clouds", "🌥️"),
    ("broken clouds", "☁️"),
    ("shower rain", "🌧️"),
    ("rain", "🌧️"),
    ("thunderstorm", "⛈️"),
    ("snow", "❄️"),
    ("mist", "🌫️"),
    ("haze", "🌫️"),
    ("fog", "🌫️"),
    ("dust", "🌪️"),
    ("sand", "🌪️"),
    ("tornado", "🌪️"),
];

#[test]
fn every_known_description_has_its_glyph() {
    for (description, glyph) in TABLE {
        assert_eq!(get_weather_icon(description), glyph);
        assert_eq!(icon_for_lowercase(description), glyph);
    }
}

#[test]
fn descriptions_are_matched_whatever_their_case() {
    for (description, glyph) in TABLE {
        assert_eq!(get_weather_icon(&description.to_uppercase()), glyph);
    }
    assert_eq!(get_weather_icon("Clear Sky"), "☀️");
    assert_eq!(get_weather_icon("sNoW"), "❄️");
}

#[test]
fn lookup_of_lowercase_text_is_exact() {
    assert_eq!(icon_for_lowercase("SNOW"), "🌈");
    assert_eq!(icon_for_lowercase("Clear Sky"), "🌈");
}

#[test]
fn unknown_descriptions_get_the_default_glyph() {
    for description in ["", "overcast clouds", "light rain", "rain ", " rain", "clear  sky", "smoke"] {
        assert_eq!(get_weather_icon(description), "🌈");
        assert_eq!(icon_for_lowercase(description), "🌈");
    }
}
