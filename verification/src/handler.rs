//! The request handler and its contract.

use vstd::prelude::*;
use vstd::string::StringExecFns;
use crate::event::{HandlerError, ProxyRequest, ProxyResponse};

verus! {

/// The greeting that a response's body carries: a fixed prefix, the request
/// path verbatim, and a closing quote.
pub open spec fn greeting_of(path: Seq<char>) -> Seq<char> {
    "Hello World! From Rust: '"@ + path + "'"@
}

/// Builds the greeting string around `path`.
pub fn greeting(path: &str) -> (r: String)
    ensures
        r@ == greeting_of(path@),
{
    let mut s: String = String::from_str("Hello World! From Rust: '");
    s.append(path);
    s.append("'");
    s
}

/// What a successful response holds for the request path `path`: status 200,
/// both header maps empty, the greeting around the path as its text body,
/// and the base64 flag off.
pub open spec fn response_for(resp: ProxyResponse, path: Seq<char>) -> bool {
    &&& resp.status_code == 200
    &&& resp.headers@.len() == 0
    &&& resp.multi_value_headers@.len() == 0
    &&& resp.body matches Some(b) && b@ == greeting_of(path)
    &&& resp.is_base64_encoded == false
}

/// Handles one invocation. The request must carry a path: a caller that
/// cannot guarantee that uses `handle`, which reports the absence as an
/// error instead.
pub fn my_handler(event: &ProxyRequest) -> (resp: ProxyResponse)
    requires
        event@ is Some,
    ensures
        response_for(resp, event@->Some_0),
{
    let path: &String = event.path.as_ref().unwrap();
    ProxyResponse {
        status_code: 200,
        headers: Vec::new(),
        multi_value_headers: Vec::new(),
        body: Some(greeting(path.as_str())),
        is_base64_encoded: false,
    }
}

/// What `handle` returns for a given request: a well-formed response exactly
/// when the request carries a path, and the missing-path error otherwise.
pub open spec fn handle_post(event: ProxyRequest, r: Result<ProxyResponse, HandlerError>) -> bool {
    match event@ {
        Some(p) => r matches Ok(resp) && response_for(resp, p),
        None => r matches Err(e) && e == HandlerError::MissingPath,
    }
}

/// Handles one invocation, reporting an absent path as a structured error
/// instead of aborting the invocation.
pub fn handle(event: &ProxyRequest) -> (r: Result<ProxyResponse, HandlerError>)
    ensures
        handle_post(*event, r),
        r is Ok <==> event@ is Some,
{
    match &event.path {
        Some(_) => Ok(my_handler(event)),
        None => Err(HandlerError::MissingPath),
    }
}

/// Handling is idempotent: the handler holds no state between invocations,
/// so any two responses that meet the handler's contract for one and the
/// same request have equal views, and the runtime serializes them to
/// byte-identical payloads.
pub proof fn lemma_handler_idempotent(event: ProxyRequest, r1: ProxyResponse, r2: ProxyResponse)
    requires
        event@ is Some,
        response_for(r1, event@->Some_0),
        response_for(r2, event@->Some_0),
    ensures
        r1@ == r2@,
{
    assert(r1@ =~~= r2@);
}

/// The same, lifted to `handle`: two results that meet its contract for one
/// and the same request are both the same error, or responses with equal
/// views.
pub proof fn lemma_handle_idempotent(
    event: ProxyRequest,
    r1: Result<ProxyResponse, HandlerError>,
    r2: Result<ProxyResponse, HandlerError>,
)
    requires
        handle_post(event, r1),
        handle_post(event, r2),
    ensures
        r1 is Ok <==> r2 is Ok,
        r1 matches Ok(a) ==> r2 matches Ok(b) && a@ == b@,
        r1 matches Err(e1) ==> r2 matches Err(e2) && e1 == e2,
{
    if event@ is Some {
        lemma_handler_idempotent(event, r1->Ok_0, r2->Ok_0);
    }
}

} // verus!
