use vstd::prelude::*;
use vstd::string::StringSliceAdditionalSpecFns;
use crate::headers::{content_type_json_utf8, is_json_content_type};
use crate::http_status_code::HttpStatusCode;
use crate::json::encode_json;

verus! {

/// What a response or a builder holds: an optional status, the headers in
/// order, and an optional body.
pub struct ServerResponseView {
    pub status: Option<HttpStatusCode>,
    pub headers: Seq<(String, String)>,
    pub body: Option<Seq<u8>>,
}

impl ServerResponseView {
    /// The response with no status, no headers and no body.
    pub open spec fn empty() -> ServerResponseView {
        ServerResponseView { status: None, headers: Seq::empty(), body: None }
    }

    /// `self` followed by `next`. A response with a body is final and ignores
    /// `next`. Otherwise the headers are concatenated, the status of `next`
    /// wins where it has one, and the body is that of `next`.
    pub open spec fn compose(self, next: ServerResponseView) -> ServerResponseView {
        if self.body is Some {
            self
        } else {
            ServerResponseView {
                status: if next.status is Some {
                    next.status
                } else {
                    self.status
                },
                headers: self.headers + next.headers,
                body: next.body,
            }
        }
    }
}

/// The view of an optional byte buffer.
pub open spec fn body_view(b: Option<Vec<u8>>) -> Option<Seq<u8>> {
    match b {
        Some(v) => Some(v@),
        None => None,
    }
}

/// The response made by a server. It may be partial: any of its parts may be
/// missing, to be supplied by a later response (see [`ServerResponse::then`]).
pub struct ServerResponse {
    /// The status code of the response.
    pub status: Option<HttpStatusCode>,
    /// The headers of the response, in the order they are written.
    pub headers: Vec<(String, String)>,
    /// The body of the response.
    pub body: Option<Vec<u8>>,
}

impl View for ServerResponse {
    type V = ServerResponseView;

    open spec fn view(&self) -> ServerResponseView {
        ServerResponseView { status: self.status, headers: self.headers@, body: body_view(self.body) }
    }
}

impl ServerResponse {
    /// The response with no status, no headers and no body.
    pub fn empty() -> (r: ServerResponse)
        ensures
            r@ == ServerResponseView::empty(),
    {
        ServerResponse { status: None, headers: Vec::new(), body: None }
    }

    /// Compose with the next response. When `self` has a body it is returned
    /// unchanged and `other` is dropped.
    pub fn then(self, other: ServerResponse) -> (r: ServerResponse)
        ensures
            r@ == self@.compose(other@),
            self.body is Some ==> r == self,
    {
        if self.body.is_some() {
            self
        } else {
            let mut headers = self.headers;
            let mut rest = other.headers;
            headers.append(&mut rest);
            let status = match other.status {
                Some(s) => Some(s),
                None => self.status,
            };
            ServerResponse { status, headers, body: other.body }
        }
    }
}

/// Appending an empty response changes nothing.
pub proof fn lemma_compose_empty(a: ServerResponseView)
    ensures
        a.compose(ServerResponseView::empty()) == a,
{
    assert(a.headers + Seq::<(String, String)>::empty() =~= a.headers);
}

/// A response that has a body ignores whatever follows it.
pub proof fn lemma_compose_after_body(a: ServerResponseView, b: ServerResponseView)
    requires
        a.body is Some,
    ensures
        a.compose(b) == a,
{
}

/// Composition is associative, so a chain of handlers may be folded from the
/// left or from the right with the same outcome.
pub proof fn lemma_compose_associative(a: ServerResponseView, b: ServerResponseView, c: ServerResponseView)
    ensures
        a.compose(b).compose(c) == a.compose(b.compose(c)),
{
    assert(a.headers + b.headers + c.headers =~= a.headers + (b.headers + c.headers));
}

/// A builder of [`ServerResponse`]s.
pub struct ServerResponseBuilder {
    status: Option<HttpStatusCode>,
    headers: Vec<(String, String)>,
    body: Option<Vec<u8>>,
}

impl View for ServerResponseBuilder {
    type V = ServerResponseView;

    closed spec fn view(&self) -> ServerResponseView {
        ServerResponseView { status: self.status, headers: self.headers@, body: body_view(self.body) }
    }
}

impl Default for ServerResponseBuilder {
    fn default() -> (r: ServerResponseBuilder)
        ensures
            r@ == ServerResponseView::empty(),
    {
        ServerResponseBuilder { status: None, headers: Vec::new(), body: None }
    }
}

/// `v` with `h` appended to its headers.
pub open spec fn with_header_view(v: ServerResponseView, h: (String, String)) -> ServerResponseView {
    ServerResponseView { status: v.status, headers: v.headers.push(h), body: v.body }
}

/// `v` with its body set to `b`.
pub open spec fn with_body_view(v: ServerResponseView, b: Seq<u8>) -> ServerResponseView {
    ServerResponseView { status: v.status, headers: v.headers, body: Some(b) }
}

impl ServerResponseBuilder {
    /// A builder with no status, no headers and no body.
    pub fn new() -> (r: ServerResponseBuilder)
        ensures
            r@ == ServerResponseView::empty(),
    {
        Self::default()
    }

    /// Append a header; earlier headers of the same name stay.
    pub fn with_header(self, name: String, value: String) -> (r: ServerResponseBuilder)
        ensures
            r@ == with_header_view(self@, (name, value)),
    {
        let mut b = self;
        b.headers.push((name, value));
        b
    }

    /// Set the status, replacing any status set before.
    pub fn with_status(self, status: HttpStatusCode) -> (r: ServerResponseBuilder)
        ensures
            r@ == (ServerResponseView { status: Some(status), ..self@ }),
    {
        let mut b = self;
        b.status = Some(status);
        b
    }

    /// Set the body and build the response.
    pub fn body(self, body: Vec<u8>) -> (r: ServerResponse)
        ensures
            r@ == with_body_view(self@, body@),
    {
        let mut b = self;
        b.body = Some(body);
        b.end()
    }

    /// Set the body to the UTF-8 bytes of `body` and build the response.
    pub fn body_str(self, body: &str) -> (r: ServerResponse)
        ensures
            r@ == with_body_view(self@, body.spec_bytes()),
    {
        self.body(vstd::slice::slice_to_vec(body.as_bytes()))
    }

    /// Set the body to the JSON encoding of `body`, after appending the JSON
    /// content-type header, and build the response. Fails where the value
    /// cannot be encoded.
    pub fn body_json<T: serde::Serialize>(self, body: &T) -> (r: Result<ServerResponse, serde_json::Error>)
        ensures
            r matches Ok(resp) ==> exists|h: (String, String), b: Seq<u8>|
                is_json_content_type(h) && resp@ == with_body_view(with_header_view(self@, h), b),
    {
        let encoded = encode_json(body);
        self.body_json_encoded(encoded)
    }

    /// Finish [`ServerResponseBuilder::body_json`] from the outcome of encoding:
    /// on success the JSON content-type header is appended and the bytes become
    /// the body; an encoding error is handed back as it is.
    pub fn body_json_encoded(self, encoded: Result<Vec<u8>, serde_json::Error>) -> (r: Result<ServerResponse, serde_json::Error>)
        ensures
            match encoded {
                Ok(bytes) => r matches Ok(resp) && exists|h: (String, String)|
                    is_json_content_type(h) && resp@ == with_body_view(with_header_view(self@, h), bytes@),
                Err(e) => r == Err::<ServerResponse, serde_json::Error>(e),
            },
    {
        match encoded {
            Ok(bytes) => {
                let (name, value) = content_type_json_utf8();
                Ok(self.with_header(name, value).body(bytes))
            },
            Err(e) => Err(e),
        }
    }

    /// Build the response with the body set so far, if any.
    pub fn end(self) -> (r: ServerResponse)
        ensures
            r@ == self@,
    {
        ServerResponse { status: self.status, headers: self.headers, body: self.body }
    }
}

} // verus!
