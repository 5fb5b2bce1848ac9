//! A client that keeps an HTTP backend with a stack of middleware.

use vstd::prelude::*;

verus! {

/// A client that sends its requests through the HTTP backend `http`. The
/// paths of the endpoints that it executes are relative to `base`.
pub struct ClientWithMiddleware<H> {
    pub http: H,
    pub base: String,
}

impl<H> ClientWithMiddleware<H> {
    /// A client with the given base URL and backend.
    pub fn new(base: &str, http: H) -> (client: Self)
        ensures
            client.base@ == base@,
            client.http == http,
    {
        ClientWithMiddleware { base: base.to_owned(), http }
    }

    /// The base URL of the client.
    pub fn base(&self) -> (base: &str)
        ensures
            base@ == self.base@,
    {
        self.base.as_str()
    }
}

impl<H: Default> ClientWithMiddleware<H> {
    /// A client with the given base URL and the default backend.
    pub fn default(base: &str) -> (client: Self)
        ensures
            client.base@ == base@,
    {
        ClientWithMiddleware { base: base.to_owned(), http: H::default() }
    }
}

} // verus!
