//! The values that the front end exchanges with its callers.

use vstd::prelude::*;

verus! {

/// A request to answer `input`, within a session if one is named.
#[derive(Debug, Clone)]
pub struct InferenceRequest {
    pub session_id: Option<String>,
    pub input: String,
}

#[derive(Debug, Clone)]
pub struct InferenceResponse {
    pub session_id: String,
    pub output: String,
}

#[derive(Debug, Clone)]
pub struct ErrorResponse {
    pub error: String,
}

} // verus!
