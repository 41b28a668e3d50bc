use vstd::prelude::*;
use crate::client_response::ClientResponse;
use crate::headers::content_type_json_utf8;
use crate::http_method::HttpMethod;
use crate::json::decode_json;

verus! {

/// The description of one outbound call: where it goes, how, with what, and
/// the type its reply is read into.
pub trait ClientRequest {
    /// The type the reply is read into. The default [`ClientRequest::deserialize`]
    /// asks that it be decodable from JSON.
    type Response;

    /// The headers to send. By default the single header
    /// `Content-Type: application/json; charset=UTF-8`.
    fn headers(&self) -> Vec<(String, String)> {
        vec![content_type_json_utf8()]
    }

    /// The URL to call.
    fn url(&self) -> String;

    /// The body to send. By default none.
    fn body(&self) -> Option<String> {
        None
    }

    /// The method to call with.
    fn method(&self) -> HttpMethod;

    /// Read the reply. By default its body is decoded as JSON, and a failure
    /// is given as the decoder's message.
    fn deserialize(&self, response: &dyn ClientResponse) -> Result<Self::Response, String>
        where
            Self::Response: serde::de::DeserializeOwned,
    {
        match decode_json::<Self::Response>(response.body()) {
            Ok(v) => Ok(v),
            Err(e) => Err(e.to_string()),
        }
    }
}

} // verus!
