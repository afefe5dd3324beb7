//! The glyph shown beside a weather description.

use vstd::prelude::*;
use vstd::string::*;

verus! {

/// The lowercase form of a text, as `str::to_lowercase` of the standard
/// library gives it.
pub uninterp spec fn lowercase_of(s: Seq<char>) -> Seq<char>;

/// `str::to_lowercase`: the result is the lowercase form of `s`, which
/// depends on the characters of `s` alone.
#[verifier::external_body]
fn lowercase(s: &str) -> (r: String)
    ensures
        r@ == lowercase_of(s@),
{
    s.to_lowercase()
}

/// The glyph for descriptions that the table does not hold.
pub open spec fn default_icon() -> Seq<char> {
    "🌈"@
}

/// The glyph that the table holds for the lowercase description `lowered`,
/// if it holds one.
pub open spec fn known_icon(lowered: Seq<char>) -> Option<Seq<char>> {
    if lowered == "clear sky"@ {
        Some("☀️"@)
    } else if lowered == "few clouds"@ {
        Some("🌤️"@)
    } else if lowered == "scattered clouds"@ {
        Some("🌥️"@)
    } else if lowered == "broken clouds"@ {
        Some("☁️"@)
    } else if lowered == "shower rain"@ || lowered == "rain"@ {
        Some("🌧️"@)
    } else if lowered == "thunderstorm"@ {
        Some("⛈️"@)
    } else if lowered == "snow"@ {
        Some("❄️"@)
    } else if lowered == "mist"@ || lowered == "haze"@ || lowered == "fog"@ {
        Some("🌫️"@)
    } else if lowered == "dust"@ || lowered == "sand"@ || lowered == "tornado"@ {
        Some("🌪️"@)
    } else {
        None
    }
}

/// The glyph for the lowercase description `lowered`: the table's where it
/// holds one, else the default glyph.
pub open spec fn icon_of(lowered: Seq<char>) -> Seq<char> {
    match known_icon(lowered) {
        Some(icon) => icon,
        None => default_icon(),
    }
}

fn same_text(a: &str, b: &str) -> (r: bool)
    ensures
        r == (a@ == b@),
{
    String::from_str(a) == String::from_str(b)
}

/// Returns the glyph for a description that is already in lowercase.
pub fn icon_for_lowercase(lowered: &str) -> (r: &'static str)
    ensures
        r@ == icon_of(lowered@),
{
    if same_text(lowered, "clear sky") {
        "☀️"
    } else if same_text(lowered, "few clouds") {
        "🌤️"
    } else if same_text(lowered, "scattered clouds") {
        "🌥️"
    } else if same_text(lowered, "broken clouds") {
        "☁️"
    } else if same_text(lowered, "shower rain") || same_text(lowered, "rain") {
        "🌧️"
    } else if same_text(lowered, "thunderstorm") {
        "⛈️"
    } else if same_text(lowered, "snow") {
        "❄️"
    } else if same_text(lowered, "mist") || same_text(lowered, "haze") || same_text(
        lowered,
        "fog",
    ) {
        "🌫️"
    } else if same_text(lowered, "dust") || same_text(lowered, "sand") || same_text(
        lowered,
        "tornado",
    ) {
        "🌪️"
    } else {
        "🌈"
    }
}

/// Returns the glyph for `description`, whatever the case of its letters:
/// the description is put in lowercase and looked up in the table.
pub fn get_weather_icon(description: &str) -> (r: &'static str)
    ensures
        r@ == icon_of(lowercase_of(description@)),
        known_icon(lowercase_of(description@)) is None ==> r@ == default_icon(),
{
    let lowered = lowercase(description);
    icon_for_lowercase(lowered.as_str())
}

} // verus!
