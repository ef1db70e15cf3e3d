//! What a registration call carries in and what it reports back.
use vstd::prelude::*;
use serde_json::Value;
use crate::method::HttpMethod;
use crate::route::Registration;

verus! {

/// A request to serve `response` at `(method, path)` on `port`.
pub struct RegistrationRequest {
    pub port: String,
    pub path: String,
    pub method: HttpMethod,
    pub response: Value,
}

impl RegistrationRequest {
    pub fn new(port: String, method: HttpMethod, path: String, response: Value) -> (r: Self)
        ensures
            r.port == port,
            r.method == method,
            r.path == path,
            r.response == response,
    {
        Self { port, path, method, response }
    }
}

/// The outcome of a successful registration: the route now served, and the
/// route it replaced, if one was served at the same (port, method, path).
pub struct RegistrationResponse {
    pub added: Registration,
    pub removed: Option<Registration>,
}

impl RegistrationResponse {
    pub fn new(registration_request: RegistrationRequest, removed_registration: Option<
        Registration,
    >) -> (r: Self)
        ensures
            r.added@ == (
                (registration_request.method, registration_request.path@),
                registration_request.response,
            ),
            r.removed == removed_registration,
    {
        let RegistrationRequest { port: _, path, method, response } = registration_request;
        Self { added: Registration::new(method, path, response), removed: removed_registration }
    }
}

} // verus!
