//! The interface of whatever answers requests.

use crate::http_request::HttpRequest;
use crate::http_response::HttpResponse;
use vstd::prelude::*;

verus! {

/// A fault of a responder: it could not come to a response at all.
#[derive(Debug, Clone, PartialEq, Eq)]
pub struct Fault {
    pub reason: String,
}

/// Answers requests.
pub trait Responder {
    /// The response to `request`, or the fault that kept it from one.
    fn handle_request(&self, request: &HttpRequest) -> Result<HttpResponse, Fault>;
}

} // verus!
