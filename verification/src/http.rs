//! HTTP client support: the response record and the client builder that
//! gathers custom headers. Sending requests is the caller's part.

use vstd::prelude::*;
use vstd::string::StringExecFns;

verus! {

/// Default request timeout in seconds.
pub const REQUEST_TIMEOUT_SECS: u64 = 30;

/// One HTTP response: its status code and its body text.
pub struct Response {
    /// The status code.
    pub status: u16,
    /// The body text.
    pub body: String,
}

impl Response {
    /// Builds a response from its status code and body.
    pub fn new(status: u16, body: String) -> (r: Self)
        ensures
            r.status == status,
            r.body@ == body@,
    {
        Self { status, body }
    }

    /// The body text.
    pub fn text(&self) -> (r: &str)
        ensures
            r@ == self.body@,
    {
        self.body.as_str()
    }

    /// Whether the status code reports success: 200 through 299.
    pub fn is_success(&self) -> (r: bool)
        ensures
            r == (200 <= self.status < 300),
    {
        self.status >= 200 && self.status < 300
    }
}

/// An HTTP client: the headers it adds to every request.
pub struct HttpClient {
    /// Header name/value pairs, in the order added.
    pub headers: Vec<(String, String)>,
}

impl HttpClient {
    /// A client with no custom headers.
    pub fn new() -> (r: Self)
        ensures
            r.headers@ == Seq::<(String, String)>::empty(),
    {
        let r = Self { headers: Vec::new() };
        proof {
            assert(r.headers@ =~= Seq::<(String, String)>::empty());
        }
        r
    }

    /// Adds one header.
    pub fn with_header(self, key: &str, value: &str) -> (r: Self)
        ensures
            r.headers@.len() == self.headers@.len() + 1,
            r.headers@.subrange(0, self.headers@.len() as int) == self.headers@,
            r.headers@.last().0@ == key@ && r.headers@.last().1@ == value@,
    {
        let mut headers = self.headers;
        headers.push((String::from_str(key), String::from_str(value)));
        let r = Self { headers };
        proof {
            assert(r.headers@.subrange(0, self.headers@.len() as int) =~= self.headers@);
        }
        r
    }

    /// Adds a bearer-token authorization header.
    pub fn with_bearer_token(self, token: &str) -> (r: Self)
        ensures
            r.headers@.len() == self.headers@.len() + 1,
            r.headers@.subrange(0, self.headers@.len() as int) == self.headers@,
            r.headers@.last().0@ == "Authorization"@,
            r.headers@.last().1@ == "Bearer "@ + token@,
    {
        let value = String::from_str("Bearer ").concat(token);
        let mut headers = self.headers;
        headers.push((String::from_str("Authorization"), value));
        let r = Self { headers };
        proof {
            assert(r.headers@.subrange(0, self.headers@.len() as int) =~= self.headers@);
        }
        r
    }
}

} // verus!
