//! The failure cases of one tracking query and the exact text of their
//! diagnostics: a non-success HTTP answer, with its status code and raw
//! body, or a response body that could not be decoded.

use vstd::prelude::*;

use crate::numfmt::spec_decimal_digits;
use crate::numfmt::u16_to_decimal;

verus! {

/// Why a tracking query failed: the server answered with a status outside
/// the success range, or the body of a success answer did not decode as
/// the expected envelope.
#[derive(Debug)]
pub enum TrackError {
    Http { status: u16, body: String },
    Decode { message: String },
}

/// The diagnostic line for a non-success HTTP answer: the status code and
/// the raw response body.
pub open spec fn spec_http_error_line(status: u16, body: Seq<char>) -> Seq<char> {
    "Error: "@ + spec_decimal_digits(status as nat) + " - Response Body: "@ + body
}

/// The one-line summary of a failed request, carrying the status code.
pub open spec fn spec_request_failed(status: u16) -> Seq<char> {
    "Request failed: "@ + spec_decimal_digits(status as nat)
}

/// The diagnostic line for a body that did not decode, carrying the
/// decoder's message.
pub open spec fn spec_decode_failed_line(message: Seq<char>) -> Seq<char> {
    "Failed to decode response body: "@ + message
}

/// Whether `needle` occurs in `hay` as a contiguous run.
pub open spec fn spec_contains_seq(hay: Seq<char>, needle: Seq<char>) -> bool {
    exists|i: int|
        0 <= i && i + needle.len() <= hay.len() && #[trigger] hay.subrange(i, i + needle.len())
            == needle
}

/// The diagnostic line for a non-success HTTP answer contains both the
/// decimal status code and the raw body text.
pub proof fn lemma_http_error_line_contains(status: u16, body: Seq<char>)
    ensures
        spec_contains_seq(spec_http_error_line(status, body), spec_decimal_digits(status as nat)),
        spec_contains_seq(spec_http_error_line(status, body), body),
{
    let line = spec_http_error_line(status, body);
    let digits = spec_decimal_digits(status as nat);
    let prefix = "Error: "@;
    let at_digits = prefix.len() as int;
    assert(line.subrange(at_digits, at_digits + digits.len()) =~= digits);
    let at_body = line.len() - body.len();
    assert(line.subrange(at_body, at_body + body.len()) =~= body);
}

/// The summary of a failed request contains the decimal status code.
pub proof fn lemma_request_failed_contains_status(status: u16)
    ensures
        spec_contains_seq(spec_request_failed(status), spec_decimal_digits(status as nat)),
{
    let line = spec_request_failed(status);
    let digits = spec_decimal_digits(status as nat);
    let at_digits = "Request failed: "@.len() as int;
    assert(line.subrange(at_digits, at_digits + digits.len()) =~= digits);
}

/// Builds the diagnostic line for a non-success HTTP answer.
pub fn http_error_line(status: u16, body: &str) -> (r: String)
    ensures
        r@ == spec_http_error_line(status, body@),
{
    let mut r = String::new();
    r.append("Error: ");
    let digits = u16_to_decimal(status);
    r.append(digits.as_str());
    r.append(" - Response Body: ");
    r.append(body);
    proof {
        assert(r@ =~= spec_http_error_line(status, body@));
    }
    r
}

/// Builds the one-line summary of a failed request.
pub fn request_failed_message(status: u16) -> (r: String)
    ensures
        r@ == spec_request_failed(status),
{
    let mut r = String::new();
    r.append("Request failed: ");
    let digits = u16_to_decimal(status);
    r.append(digits.as_str());
    proof {
        assert(r@ =~= spec_request_failed(status));
    }
    r
}

/// Builds the diagnostic line for a body that did not decode.
pub fn decode_failed_line(message: &str) -> (r: String)
    ensures
        r@ == spec_decode_failed_line(message@),
{
    let mut r = String::new();
    r.append("Failed to decode response body: ");
    r.append(message);
    proof {
        assert(r@ =~= spec_decode_failed_line(message@));
    }
    r
}

impl TrackError {
    /// The diagnostic line for this failure, as written to standard error
    /// at the point the failure is detected.
    pub fn diagnostic_line(&self) -> (r: String)
        ensures
            self matches TrackError::Http { status, body } ==> r@ == spec_http_error_line(
                *status,
                body@,
            ),
            self matches TrackError::Decode { message } ==> r@ == spec_decode_failed_line(
                message@,
            ),
    {
        match self {
            TrackError::Http { status, body } => http_error_line(*status, body.as_str()),
            TrackError::Decode { message } => decode_failed_line(message.as_str()),
        }
    }

    /// The one-line summary of this failure, as reported by the top-level
    /// caller: `Request failed: <status>` for an HTTP failure, and the
    /// decoder's own message for a decode failure.
    pub fn summary(&self) -> (r: String)
        ensures
            self matches TrackError::Http { status, .. } ==> r@ == spec_request_failed(*status),
            self matches TrackError::Decode { message } ==> r@ == message@,
    {
        match self {
            TrackError::Http { status, .. } => request_failed_message(*status),
            TrackError::Decode { message } => message.clone(),
        }
    }
}

} // verus!
