//! Bearer-token authorization: the header set attached to an
//! authenticated request.

use crate::error::Error;
use vstd::prelude::*;

verus! {

/// Whether a string can be carried as an HTTP header value: every
/// character of code 32 and above except DEL (127), or tab. (A
/// character above 127 is carried as bytes that are all acceptable.)
pub open spec fn header_value_valid(s: Seq<char>) -> bool {
    forall|i: int|
        0 <= i < s.len() ==> ((s[i] as int >= 32 && s[i] as int != 127) || s[i] == '\t')
}

/// Relies on `http::HeaderValue::from_str` (as reqwest re-exports it):
/// it accepts exactly the strings whose bytes are 32..=255 less DEL
/// (127), or tab — in terms of characters, those of
/// [`header_value_valid`].
#[verifier::external_body]
fn header_value_ok(s: &str) -> (r: bool)
    ensures
        r == header_value_valid(s@),
{
    reqwest::header::HeaderValue::from_str(s).is_ok()
}

/// The bearer header value for a token.
pub open spec fn bearer_value(token: Seq<char>) -> Seq<char> {
    "Bearer "@ + token
}

/// Authorization data: the header set sent with each authenticated
/// request. Immutable once constructed; it may be reused across calls.
#[derive(Debug)]
pub struct Auth {
    /// Request headers: a single `Authorization: Bearer <token>` entry.
    pub headers: Vec<(String, String)>,
}

impl Auth {
    /// Builds the header set for a bearer token. An empty token is
    /// accepted (the remote API will reject it); a token that cannot
    /// be carried in a header value (control characters) is a
    /// construction error, surfaced before any network activity.
    pub fn new(access_token: String) -> (r: Result<Auth, Error>)
        ensures
            (match r {
                Ok(a) => header_value_valid(bearer_value(access_token@)) && a.headers@.len() == 1
                    && a.headers@[0].0@ == "Authorization"@ && a.headers@[0].1@ == bearer_value(
                    access_token@,
                ),
                Err(e) => !header_value_valid(bearer_value(access_token@)) && e@ is Construction,
            }),
    {
        let mut value = "Bearer ".to_owned();
        value.append(access_token.as_str());
        if header_value_ok(value.as_str()) {
            let mut headers: Vec<(String, String)> = Vec::new();
            headers.push(("Authorization".to_owned(), value));
            Ok(Auth { headers })
        } else {
            Err(Error::Construction("bearer token is not a valid header value".to_owned()))
        }
    }
}

} // verus!
