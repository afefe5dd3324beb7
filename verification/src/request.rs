//! The request sent to the weather provider and the reading of its status.

use vstd::prelude::*;
use vstd::string::*;

verus! {

/// The address of the provider's current-weather endpoint, up to the city.
pub open spec fn url_head() -> Seq<char> {
    "https://api.openweathermap.org/data/2.5/weather?q="@
}

/// What stands between the city and the key in a request address.
pub open spec fn url_key_param() -> Seq<char> {
    "&appid="@
}

/// The end of a request address, which asks for metric units.
pub open spec fn url_tail() -> Seq<char> {
    "&units=metric"@
}

/// The request address for `city` and `api_key`. Both are put in as they
/// are: no character of them is percent-encoded.
pub open spec fn request_url(city: Seq<char>, api_key: Seq<char>) -> Seq<char> {
    url_head() + city + url_key_param() + api_key + url_tail()
}

/// Returns the address of the GET request for `city` with `api_key`.
pub fn build_url(city: &str, api_key: &str) -> (r: String)
    ensures
        r@ == request_url(city@, api_key@),
{
    let mut url = String::from_str("https://api.openweathermap.org/data/2.5/weather?q=");
    url.append(city);
    url.append("&appid=");
    url.append(api_key);
    url.append("&units=metric");
    url
}

/// Whether the HTTP status code `status` reports success: the codes from 200
/// to 299.
pub open spec fn status_is_success(status: u16) -> bool {
    200 <= status < 300
}

/// Returns whether the response with status code `status` carries weather
/// data rather than an error report.
pub fn is_success(status: u16) -> (r: bool)
    ensures
        r == status_is_success(status),
{
    200 <= status && status < 300
}

} // verus!
