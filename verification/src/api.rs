//! What the HTTP client needs to know of the platform: where requests go,
//! how they are authorized and which answers are failures.

use vstd::prelude::*;

use crate::text::{decimal, trim_end_slashes, trim_trailing_slashes, u64_to_decimal};

verus! {

/// The platform's address; requests go to paths below it.
#[derive(Debug)]
pub struct ApiClient {
    base_url: String,
}

impl View for ApiClient {
    type V = Seq<char>;

    /// The base address, without trailing `/`.
    closed spec fn view(&self) -> Seq<char> {
        self.base_url@
    }
}

impl ApiClient {
    /// A client for the server at `base_url`; trailing slashes are dropped.
    pub fn new(base_url: &str) -> (c: ApiClient)
        ensures
            c@ == trim_trailing_slashes(base_url@),
    {
        ApiClient { base_url: trim_end_slashes(base_url) }
    }

    /// The base address.
    pub fn base_url(&self) -> (s: &str)
        ensures
            s@ == self@,
    {
        self.base_url.as_str()
    }

    /// The full address of `path` (which starts with `/`).
    pub fn url(&self, path: &str) -> (u: String)
        ensures
            u@ == self@ + path@,
    {
        let mut u = self.base_url.clone();
        u.append(path);
        u
    }
}

/// The value of the `Authorization` header for a session token.
pub fn bearer(token: &str) -> (v: String)
    ensures
        v@ == "Bearer "@ + token@,
{
    let mut v = String::from_str("Bearer ");
    v.append(token);
    v
}

/// An HTTP status in the 2xx range, the only answers taken as success.
pub open spec fn success_status(code: u16) -> bool {
    200 <= code && code <= 299
}

/// Whether an answer with this status is a success.
pub fn is_success(code: u16) -> (ok: bool)
    ensures
        ok == success_status(code),
        ok <==> 200 <= code && code < 300,
{
    200 <= code && code <= 299
}

/// The error text for a failed request: `HTTP <code> <reason>: <body>`, where
/// the reason is the status' canonical reason phrase.
pub open spec fn http_error_text(code: u16, reason: Seq<char>, body: Seq<char>) -> Seq<char> {
    "HTTP "@ + decimal(code as nat) + " "@ + reason + ": "@ + body
}

/// Describes a failed request.
pub fn http_error_message(code: u16, reason: &str, body: &str) -> (m: String)
    ensures
        m@ == http_error_text(code, reason@, body@),
{
    let mut m = String::from_str("HTTP ");
    let digits = u64_to_decimal(code as u64);
    m.append(digits.as_str());
    m.append(" ");
    m.append(reason);
    m.append(": ");
    m.append(body);
    m
}

/// A new client adds no trailing slash to the address it is given, and
/// making a client from a client's address changes nothing.
pub proof fn lemma_base_url_normalized(base: Seq<char>)
    ensures
        trim_trailing_slashes(base).len() == 0 || trim_trailing_slashes(base).last() != '/',
        trim_trailing_slashes(trim_trailing_slashes(base)) == trim_trailing_slashes(base),
    decreases base.len(),
{
    if base.len() > 0 && base.last() == '/' {
        lemma_base_url_normalized(base.drop_last());
    }
}

/// Success means a 2xx status and nothing else: every status from 200 to
/// 299 is a success, and every other status (a redirect, 401 or 404, a server
/// error) is a failure.
pub proof fn lemma_success_is_2xx(code: u16)
    ensures
        success_status(code) ==> 200 <= code && code < 300,
        200 <= code && code < 300 ==> success_status(code),
        code < 200 || code >= 300 ==> !success_status(code),
{
}

} // verus!
