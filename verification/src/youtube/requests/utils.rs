use vstd::prelude::*;

use crate::http_client::RawResponse;

verus! {

/// Transport/decode layer errors, distinguishing "resource absent" from
/// "malformed or unusable payload" and from "network/status failure".
#[derive(Debug)]
pub enum RequestError {
    /// The resource was absent from a well-formed response.
    NotFound,
    /// Some other failure, described by a message (an invalid request URL).
    Other(String),
    /// The body could not be decoded into the expected shape, or the decoded
    /// shape was present but unusable; carries a diagnostic message.
    ResponseNotParsed(String),
    /// The HTTP layer failed: the non-success status that arrived, or `None`
    /// when the transport failed before any response arrived, with the
    /// transport's failure message kept for diagnostics.
    Http(Option<u16>, String),
}

/// The error a transport failure maps to: the HTTP-layer variant with no
/// status, the transport's failure message kept for diagnostics.
pub fn transport_failure(message: String) -> (e: RequestError)
    ensures
        e matches RequestError::Http(s, m) && s is None && m@ == message@,
{
    RequestError::Http(None, message)
}

/// An HTTP status in the success range.
pub open spec fn status_is_success(status: u16) -> bool {
    200 <= status < 300
}

/// Decode-layer triage of a received response: a failing status becomes an
/// `Http` error carrying that status; with a success status, a body that did
/// not decode becomes `ResponseNotParsed`, and a decoded record is handed
/// through. Single attempt, no retries.
pub fn process_response<T>(response: RawResponse<T>) -> (r: Result<T, RequestError>)
    ensures
        !status_is_success(response.status) ==> (r matches Err(e)
            && e matches RequestError::Http(s, m) && s == Some(response.status)
            && m@ == Seq::<char>::empty()),
        status_is_success(response.status) && response.parsed is Ok ==> (r matches Ok(v) && v
            == response.parsed->Ok_0),
        status_is_success(response.status) && response.parsed is Err ==> (r matches Err(e)
            && e matches RequestError::ResponseNotParsed(pm) && pm@ == response.parsed->Err_0@),
{
    if response.status < 200 || response.status >= 300 {
        return Err(RequestError::Http(Some(response.status), String::new()));
    }
    match response.parsed {
        Ok(t) => Ok(t),
        Err(m) => Err(RequestError::ResponseNotParsed(m)),
    }
}

/// The views of a list of query parameters, key and value each as a sequence
/// of characters.
pub open spec fn params_view(ps: Seq<(String, String)>) -> Seq<(Seq<char>, Seq<char>)> {
    ps.map_values(|p: (String, String)| (p.0@, p.1@))
}

/// The URL obtained by parsing a base URL and appending the given pairs as
/// form-urlencoded query parameters. The encoding is involved, but the result
/// depends on the arguments alone, so it is only named here; `build_url`
/// states that it returns it.
pub uninterp spec fn url_with_params(base: Seq<char>, params: Seq<(Seq<char>, Seq<char>)>) -> Seq<char>;

/// Whether `url::Url::parse_with_params` accepts the base URL with the given
/// query parameters. Like the resulting URL itself, this depends on the
/// arguments alone, so it is only named; `build_url` returns `Ok` exactly
/// when it holds.
pub uninterp spec fn url_parse_ok(base: Seq<char>, params: Seq<(Seq<char>, Seq<char>)>) -> bool;

/// Relies on `url::Url::parse_with_params`: parses the base URL and appends
/// each pair as a form-urlencoded query parameter; both success and the
/// resulting URL are functions of base and parameters alone. A parse failure
/// is handed back as its message.
#[verifier::external_body]
pub(crate) fn build_url(base: &str, params: &Vec<(String, String)>) -> (r: Result<String, String>)
    ensures
        r matches Ok(u) ==> u@ == url_with_params(base@, params_view(params@)),
        r is Ok <==> url_parse_ok(base@, params_view(params@)),
{
    match url::Url::parse_with_params(base, params.iter().map(|p| (p.0.as_str(), p.1.as_str()))) {
        Ok(u) => Ok(u.as_str().to_owned()),
        Err(e) => Err(e.to_string()),
    }
}

/// The character for a single decimal digit.
pub open spec fn decimal_digit_char(d: nat) -> char {
    (('0' as u8) + (d as u8)) as char
}

/// The decimal digits of a natural number, most significant first.
pub open spec fn decimal_digits(n: nat) -> Seq<char>
    decreases n,
{
    if n < 10 {
        seq![decimal_digit_char(n)]
    } else {
        decimal_digits(n / 10) + seq![decimal_digit_char(n % 10)]
    }
}

/// The decimal representation of an integer: a minus sign when negative,
/// then the digits of its magnitude.
pub open spec fn decimal_of(n: int) -> Seq<char> {
    if n < 0 {
        seq!['-'] + decimal_digits((-n) as nat)
    } else {
        decimal_digits(n as nat)
    }
}

/// Relies on `i32`'s `Display` implementation: the decimal representation of
/// the number, with a minus sign when negative.
#[verifier::external_body]
pub(crate) fn count_to_string(n: i32) -> (r: String)
    ensures
        r@ == decimal_of(n as int),
{
    n.to_string()
}

} // verus!
