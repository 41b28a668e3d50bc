//! A small, transport-independent model of HTTP requests and responses.
//!
//! It holds the standard status codes with their numbers, the request methods,
//! the interfaces through which a client call is described and its reply read,
//! and the partial server responses that handlers build and compose.
pub use client_request::ClientRequest;
pub use client_response::ClientResponse;
pub use http_method::HttpMethod;
pub use http_status_code::{HttpStatusCode, HttpStatusCodeParseError};
pub use server_request::ServerRequest;
pub use server_response::{ServerResponse, ServerResponseBuilder, ServerResponseView};

pub mod client_request;
pub mod client_response;
pub mod headers;
pub mod http_method;
pub mod http_status_code;
pub mod json;
pub mod server_request;
pub mod server_response;
