use vstd::prelude::*;

verus! {

/// An HTTP status code with a response body, the shape in which every
/// handler and the middleware report their outcome.
#[derive(Debug)]
pub struct ApiResponse {
    pub status_code: u16,
    pub body: String,
}

impl ApiResponse {
    /// Build a response; the code must lie in the registrable range of
    /// HTTP status codes.
    pub fn new(status_code: u16, body: String) -> (r: ApiResponse)
        requires
            100 <= status_code < 1000,
        ensures
            r.status_code == status_code,
            r.body == body,
    {
        ApiResponse { status_code, body }
    }
}

} // verus!
