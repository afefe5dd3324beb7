//! The provider's answer, and the lines that are shown for it.

use crate::icon::{get_weather_icon, icon_of, lowercase_of};
use crate::text::{integer_text, integer_to_text};
use vstd::prelude::*;
use vstd::string::*;

verus! {

/// The ways in which a run can fail.
#[derive(Clone, Copy, Debug, PartialEq, Eq, Structural)]
pub enum ErrorKind {
    /// The credentials could not be stored.
    ConfigWrite,
    /// The request did not reach the provider, or no answer came back.
    Transport,
    /// The body of an answer does not have the expected shape.
    Deserialization,
    /// The provider answered with an error report.
    ProviderReported,
}

impl ErrorKind {
    /// Whether a failure of this kind ends the run with a non-zero status:
    /// every kind but the provider's own error report.
    pub open spec fn fatal(self) -> bool {
        !(self is ProviderReported)
    }

    /// Returns whether a failure of this kind ends the run with a non-zero
    /// status.
    pub fn is_fatal(self) -> (r: bool)
        ensures
            r == self.fatal(),
    {
        match self {
            ErrorKind::ProviderReported => false,
            _ => true,
        }
    }
}

/// What the library reads of the provider's answer.
#[derive(Debug)]
pub struct WeatherResponse {
    name: String,
    temperature: String,
    pressure: i32,
    humidity: i32,
    descriptions: Vec<String>,
}

/// The mathematical content of a [`WeatherResponse`].
pub struct WeatherView {
    pub name: Seq<char>,
    pub temperature: Seq<char>,
    pub pressure: int,
    pub humidity: int,
    pub descriptions: Seq<Seq<char>>,
}

/// One line of the report: a label and the value beside it.
#[derive(Clone, Debug)]
pub struct Row {
    pub label: String,
    pub value: String,
}

impl View for Row {
    type V = (Seq<char>, Seq<char>);

    open spec fn view(&self) -> (Seq<char>, Seq<char>) {
        (self.label@, self.value@)
    }
}

impl View for WeatherResponse {
    type V = WeatherView;

    closed spec fn view(&self) -> WeatherView {
        WeatherView {
            name: self.name@,
            temperature: self.temperature@,
            pressure: self.pressure as int,
            humidity: self.humidity as int,
            descriptions: self.descriptions@.map_values(|s: String| s@),
        }
    }
}

/// What stands in the condition line for `description`: its glyph, a space
/// and the description as the provider wrote it.
pub open spec fn condition_text(description: Seq<char>) -> Seq<char> {
    icon_of(lowercase_of(description)) + seq![' '] + description
}

/// The lines of the report for `w`, in the order in which they are shown:
/// city, temperature, pressure, humidity, and the first condition.
pub open spec fn report_rows(w: WeatherView) -> Seq<(Seq<char>, Seq<char>)>
    recommends
        w.descriptions.len() > 0,
{
    seq![
        ("🌆 City"@, w.name),
        ("🌡️ Temperature (°C)"@, w.temperature),
        ("🌬️ Pressure (hPa)"@, integer_text(w.pressure)),
        ("💧 Humidity (%)"@, integer_text(w.humidity)),
        ("🌤️ Condition"@, condition_text(w.descriptions[0])),
    ]
}

/// What is printed for the provider's error report `compact`.
pub open spec fn error_text(compact: Seq<char>) -> Seq<char> {
    "error: "@ + compact
}

impl WeatherResponse {
    /// Every answer holds at least one condition.
    #[verifier::type_invariant]
    spec fn has_condition(&self) -> bool {
        self.descriptions@.len() > 0
    }

    /// Makes the answer from its parts: the city's name, the temperature in
    /// degrees Celsius written as a text, the pressure in hPa, the humidity
    /// in percent and the descriptions of the conditions. An answer
    /// without a condition does not have the expected shape.
    pub fn new(
        name: String,
        temperature: String,
        pressure: i32,
        humidity: i32,
        descriptions: Vec<String>,
    ) -> (r: Result<WeatherResponse, ErrorKind>)
        ensures
            descriptions@.len() == 0 ==> r == Err::<WeatherResponse, ErrorKind>(
                ErrorKind::Deserialization,
            ),
            descriptions@.len() > 0 ==> r is Ok && r->Ok_0@ == (WeatherView {
                name: name@,
                temperature: temperature@,
                pressure: pressure as int,
                humidity: humidity as int,
                descriptions: descriptions@.map_values(|s: String| s@),
            }),
    {
        if descriptions.len() == 0 {
            Err(ErrorKind::Deserialization)
        } else {
            Ok(WeatherResponse { name, temperature, pressure, humidity, descriptions })
        }
    }

    /// Returns the name of the city.
    pub fn name(&self) -> (r: &str)
        ensures
            r@ == self@.name,
    {
        self.name.as_str()
    }

    /// Returns the temperature in degrees Celsius, as a text.
    pub fn temperature(&self) -> (r: &str)
        ensures
            r@ == self@.temperature,
    {
        self.temperature.as_str()
    }

    /// Returns the pressure in hPa.
    pub fn pressure(&self) -> (r: i32)
        ensures
            r == self@.pressure,
    {
        self.pressure
    }

    /// Returns the humidity in percent.
    pub fn humidity(&self) -> (r: i32)
        ensures
            r == self@.humidity,
    {
        self.humidity
    }

    /// Returns the description of the first condition, the one that is
    /// shown.
    pub fn description(&self) -> (r: &str)
        ensures
            self@.descriptions.len() > 0,
            r@ == self@.descriptions[0],
    {
        proof {
            use_type_invariant(self);
        }
        self.descriptions[0].as_str()
    }

    /// Returns the lines of the report, in the order in which they are
    /// shown.
    pub fn rows(&self) -> (r: Vec<Row>)
        ensures
            self@.descriptions.len() > 0,
            r@.len() == report_rows(self@).len(),
            forall|i: int| 0 <= i < r@.len() ==> (#[trigger] r@[i])@ == report_rows(self@)[i],
    {
        let description = self.description();
        let mut condition = String::from_str(get_weather_icon(description));
        condition.append(" ");
        condition.append(description);
        proof {
            reveal_strlit(" ");
            assert(" "@ =~= seq![' ']);
        }
        let mut out: Vec<Row> = Vec::new();
        out.push(Row { label: String::from_str("🌆 City"), value: self.name.clone() });
        out.push(
            Row {
                label: String::from_str("🌡️ Temperature (°C)"),
                value: self.temperature.clone(),
            },
        );
        out.push(
            Row {
                label: String::from_str("🌬️ Pressure (hPa)"),
                value: integer_to_text(self.pressure),
            },
        );
        out.push(
            Row {
                label: String::from_str("💧 Humidity (%)"),
                value: integer_to_text(self.humidity),
            },
        );
        out.push(Row { label: String::from_str("🌤️ Condition"), value: condition });
        out
    }
}

/// The error of serde_json's parser. Nothing of its content is read here.
#[verifier::external_type_specification]
#[verifier::external_body]
pub struct ExJsonError(serde_json::Error);

/// The compact JSON text of the JSON value that `text` holds, as serde_json
/// writes it; `None` where `text` is not one JSON value.
pub uninterp spec fn compact_json(text: Seq<char>) -> Option<Seq<char>>;

/// `serde_json::from_str` to a `serde_json::Value`, and that value's
/// `Display`: the result is the compact text of the value parsed from
/// `text`, or the parser's error where `text` is not one JSON value.
#[verifier::external_body]
fn reprint_json(text: &str) -> (r: Result<String, serde_json::Error>)
    ensures
        match r {
            Ok(compact) => compact_json(text@) == Some(compact@),
            Err(_) => compact_json(text@) is None,
        },
{
    match serde_json::from_str::<serde_json::Value>(text) {
        Ok(value) => Ok(format!("{}", value)),
        Err(e) => Err(e),
    }
}

/// Returns the line that is printed for an error report whose JSON value
/// has the compact text `compact`.
pub fn error_line_for(compact: &str) -> (r: String)
    ensures
        r@ == error_text(compact@),
{
    let mut out = String::from_str("error: ");
    out.append(compact);
    out
}

/// Returns the line that is printed for the body of an answer whose status
/// is not a success: the body's JSON value in compact form behind an error
/// marker. A body that is not JSON does not have the expected shape.
pub fn error_line(body: &str) -> (r: Result<String, ErrorKind>)
    ensures
        match compact_json(body@) {
            Some(compact) => r is Ok && r->Ok_0@ == error_text(compact),
            None => r == Err::<String, ErrorKind>(ErrorKind::Deserialization),
        },
{
    match reprint_json(body) {
        Ok(compact) => Ok(error_line_for(compact.as_str())),
        Err(_) => Err(ErrorKind::Deserialization),
    }
}

} // verus!
