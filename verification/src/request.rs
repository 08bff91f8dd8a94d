//! Construction of the tracking request: the URL, the two header values,
//! and classification of the HTTP status code of the answer.

use vstd::prelude::*;

verus! {

/// The URL queried for a given provider and tracking number: the fixed
/// base endpoint with the provider and the tracking number appended as
/// path segments.
pub open spec fn spec_tracker_url(provider: Seq<char>, tracking_number: Seq<char>) -> Seq<char> {
    "https://gdeposylka.ru/api/v4/tracker/"@ + provider + "/"@ + tracking_number
}

/// Builds the request URL for one query, embedding the provider and the
/// tracking number as path segments of the fixed base endpoint.
pub fn build_tracker_url(provider: &str, tracking_number: &str) -> (url: String)
    ensures
        url@ == spec_tracker_url(provider@, tracking_number@),
{
    let mut url = String::new();
    url.append("https://gdeposylka.ru/api/v4/tracker/");
    url.append(provider);
    url.append("/");
    url.append(tracking_number);
    proof {
        assert(url@ =~= spec_tracker_url(provider@, tracking_number@));
    }
    url
}

/// The value of the content-type header sent with every request.
pub fn content_type_value() -> (r: &'static str)
    ensures
        r@ == "application/json"@,
{
    "application/json"
}

/// The name of the authorization header sent with every request.
pub fn auth_header_name() -> (r: &'static str)
    ensures
        r@ == "X-Authorization-Token"@,
{
    "X-Authorization-Token"
}

/// The fixed credential sent in the authorization header.
pub fn auth_token_value() -> (r: &'static str)
    ensures
        r@ == "e1e9872ba84c0e91a99bf560f92bf60b572cb03074497d59021c3f5904494f6103cfd9b227c4ed9e"@,
{
    "e1e9872ba84c0e91a99bf560f92bf60b572cb03074497d59021c3f5904494f6103cfd9b227c4ed9e"
}

/// A status code counts as success exactly when it lies in the 2xx range.
pub open spec fn spec_is_success(status: u16) -> bool {
    200 <= status < 300
}

/// Decides whether an HTTP status code is in the success range.
pub fn is_success_status(status: u16) -> (r: bool)
    ensures
        r == spec_is_success(status),
{
    200 <= status && status < 300
}

} // verus!
