//! The HTTP client and the status codes of `reqwest`.

use std::time::Duration;
use vstd::prelude::*;

verus! {

/// `reqwest::Client`, a pooled HTTP client.
#[verifier::external_type_specification]
#[verifier::external_body]
pub struct ExClient(reqwest::Client);

/// `reqwest::Error`, why an HTTP client could not be built or a request not be answered.
#[verifier::external_type_specification]
#[verifier::external_body]
pub struct ExError(reqwest::Error);

/// The total timeout that a client puts on each request, if it puts one.
pub uninterp spec fn request_timeout(http: reqwest::Client) -> Option<Duration>;

/// Calls `reqwest::ClientBuilder::build`, on a builder with `timeout` set: a client that is
/// built puts that total timeout on each of its requests. Whether one can be built depends
/// on the machine, so nothing is said of that, nor of the error.
#[verifier::external_body]
pub(crate) fn build_http(timeout: Duration) -> (built: Result<reqwest::Client, reqwest::Error>)
    ensures
        built matches Ok(http) ==> request_timeout(http) == Some(timeout),
{
    reqwest::Client::builder().timeout(timeout).build()
}

/// An error as it is shown to people.
pub uninterp spec fn error_shown(error: reqwest::Error) -> Seq<char>;

/// Calls `Display` on a `reqwest::Error`: the text depends on the error alone.
#[verifier::external_body]
pub(crate) fn error_text(error: &reqwest::Error) -> (text: String)
    ensures
        text@ == error_shown(*error),
{
    error.to_string()
}

/// What an exchange came to, an error being taken as it is shown.
pub open spec fn reply_shown(sent: Result<u16, reqwest::Error>) -> Result<u16, Seq<char>> {
    match sent {
        Ok(code) => Ok(code),
        Err(error) => Err(error_shown(error)),
    }
}

/// What an exchange came to: the status of the response, or in words why there is none.
pub fn reply(sent: Result<u16, reqwest::Error>) -> (reply: Result<u16, String>)
    ensures
        match reply {
            Ok(code) => reply_shown(sent) == Ok::<u16, Seq<char>>(code),
            Err(cause) => reply_shown(sent) == Err::<u16, Seq<char>>(cause@),
        },
        sent matches Ok(code) ==> reply == Ok::<u16, String>(code),
        sent matches Err(error) ==> (reply matches Err(cause) && cause@ == error_shown(error)),
{
    match sent {
        Ok(code) => Ok(code),
        Err(error) => Err(error_text(&error)),
    }
}

/// The numbers that are HTTP status codes.
pub open spec fn is_status(code: u16) -> bool {
    100 <= code <= 999
}

/// One decimal digit.
pub open spec fn digit(n: int) -> char {
    (48 + n) as char
}

/// A status code in decimal.
pub open spec fn status_digits(code: u16) -> Seq<char> {
    seq![digit(code as int / 100), digit(code as int / 10 % 10), digit(code as int % 10)]
}

/// The standard reason phrase of a status code, or what stands in for a missing one.
pub uninterp spec fn status_reason(code: u16) -> Seq<char>;

/// A status code as it is shown to people.
pub open spec fn status_line(code: u16) -> Seq<char> {
    status_digits(code) + " "@ + status_reason(code)
}

/// Calls `Display` on the `reqwest::StatusCode` of that number: the number in decimal, a
/// space, and the reason phrase, which depends on the number alone.
#[verifier::external_body]
pub(crate) fn status_text(code: u16) -> (text: String)
    requires
        is_status(code),
    ensures
        text@ == status_digits(code) + " "@ + status_reason(code),
{
    reqwest::StatusCode::from_u16(code).unwrap().to_string()
}

/// A status code is shown as three decimal digits, which read back as the code, then a space,
/// then its reason phrase.
pub proof fn a_status_line_begins_with_the_code_in_decimal(code: u16)
    requires
        is_status(code),
    ensures
        ({
            let line = status_line(code);
            &&& line.len() == 4 + status_reason(code).len()
            &&& forall|i: int| 0 <= i < 3 ==> '0' <= #[trigger] line[i] <= '9'
            &&& 100 * (line[0] as int - '0' as int) + 10 * (line[1] as int - '0' as int) + (
            line[2] as int - '0' as int) == code
            &&& line[3] == ' '
            &&& line.skip(4) == status_reason(code)
        }),
{
    reveal_strlit(" ");
    let line = status_line(code);
    assert(line[0] == digit(code as int / 100));
    assert(line[1] == digit(code as int / 10 % 10));
    assert(line[2] == digit(code as int % 10));
    assert(line.skip(4) =~= status_reason(code));
}

/// Two status codes are never shown alike.
pub proof fn status_lines_are_told_apart(code: u16, other: u16)
    requires
        is_status(code),
        is_status(other),
    ensures
        status_line(code) == status_line(other) <==> code == other,
{
    if status_line(code) == status_line(other) {
        let line = status_line(code);
        assert(line[0] == digit(code as int / 100) && line[0] == digit(other as int / 100));
        assert(line[1] == digit(code as int / 10 % 10) && line[1] == digit(other as int / 10 % 10));
        assert(line[2] == digit(code as int % 10) && line[2] == digit(other as int % 10));
    }
}

} // verus!
