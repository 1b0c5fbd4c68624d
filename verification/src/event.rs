//! The request and response envelopes as the handler sees them.

use vstd::prelude::*;

verus! {

/// The part of an API Gateway proxy request that the handler reads: the
/// request path. The surrounding metadata (headers, query parameters, body)
/// is ignored by the handler and therefore not modelled here. The path is
/// `None` when the invocation payload carried no path field at all.
pub struct ProxyRequest {
    pub path: Option<String>,
}

/// An API Gateway proxy response: a status code, the two header maps as
/// lists of name/value pairs, an optional text body, and the flag that says
/// whether the body is base64-encoded.
pub struct ProxyResponse {
    pub status_code: i64,
    pub headers: Vec<(String, String)>,
    pub multi_value_headers: Vec<(String, String)>,
    pub body: Option<String>,
    pub is_base64_encoded: bool,
}

/// The one failure mode: the request carried no path field.
#[derive(Clone, Copy, Debug, PartialEq, Eq, Structural)]
pub enum HandlerError {
    MissingPath,
}

/// The observable content of a response: everything the hosting runtime
/// serializes into the invocation's result payload. Two responses with equal
/// views serialize to byte-identical payloads.
#[verifier::ext_equal]
pub struct ResponseView {
    pub status_code: int,
    pub headers: Seq<(Seq<char>, Seq<char>)>,
    pub multi_value_headers: Seq<(Seq<char>, Seq<char>)>,
    pub body: Option<Seq<char>>,
    pub is_base64_encoded: bool,
}

/// The name/value pairs of a header map, by their character sequences.
pub open spec fn header_views(headers: Seq<(String, String)>) -> Seq<(Seq<char>, Seq<char>)> {
    headers.map_values(|p: (String, String)| (p.0@, p.1@))
}

impl View for ProxyRequest {
    type V = Option<Seq<char>>;

    open spec fn view(&self) -> Option<Seq<char>> {
        match self.path {
            Some(p) => Some(p@),
            None => None,
        }
    }
}

impl View for ProxyResponse {
    type V = ResponseView;

    open spec fn view(&self) -> ResponseView {
        ResponseView {
            status_code: self.status_code as int,
            headers: header_views(self.headers@),
            multi_value_headers: header_views(self.multi_value_headers@),
            body: match self.body {
                Some(b) => Some(b@),
                None => None,
            },
            is_base64_encoded: self.is_base64_encoded,
        }
    }
}

} // verus!
