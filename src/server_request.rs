use vstd::prelude::*;
use crate::json::decode_json;

verus! {

/// A request accepted by a server, as a transport adapter exposes it.
pub trait ServerRequest {
    /// The body of the request.
    fn body(&self) -> &[u8];

    /// The body decoded as JSON.
    fn body_json<'a, T: serde::Deserialize<'a>>(&'a self) -> Result<T, serde_json::Error> {
        decode_json(self.body())
    }

    /// The value of the header named `key`, if the request has one.
    fn header(&self, key: &str) -> Option<String>;
}

} // verus!
