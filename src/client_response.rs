use vstd::prelude::*;
use crate::http_status_code::HttpStatusCode;
use crate::json::decode_json;

verus! {

/// The reply to a [`ClientRequest`](crate::ClientRequest), as a transport
/// adapter exposes it.
pub trait ClientResponse {
    /// The body of the reply.
    fn body(&self) -> &[u8];

    /// The status code of the reply.
    fn status(&self) -> HttpStatusCode;

    /// The value of the header named `key`, if the reply has one. Where a
    /// name occurs more than once, the adapter decides which value is given.
    fn header(&self, key: &str) -> Option<String>;

    /// The body decoded as JSON.
    fn body_json<'a, T: serde::Deserialize<'a>>(&'a self) -> Result<T, serde_json::Error> where Self: Sized {
        decode_json(self.body())
    }
}

} // verus!
