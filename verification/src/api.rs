//! Shared request/response shapes of the API surface around the core.

use vstd::prelude::*;

verus! {

/// Standard API response wrapper.
#[derive(Debug)]
pub struct ApiResponse<T> {
    pub success: bool,
    pub data: Option<T>,
    pub error: Option<String>,
}

impl<T> ApiResponse<T> {
    /// A successful response carrying `data` and no error.
    pub fn success(data: T) -> (r: Self)
        ensures
            r.success,
            r.data == Some(data),
            r.error is None,
    {
        ApiResponse { success: true, data: Some(data), error: None }
    }

    /// A failed response carrying the message and no data.
    pub fn error(message: String) -> (r: Self)
        ensures
            !r.success,
            r.data is None,
            r.error == Some(message),
    {
        ApiResponse { success: false, data: None, error: Some(message) }
    }
}

/// Query request payload.
#[derive(Debug)]
pub struct QueryRequest {
    pub query: String,
    pub session_id: Option<String>,
}

/// Query response payload.
#[derive(Debug)]
pub struct QueryResponse {
    pub response: String,
    pub session_id: String,
    pub agents_used: Vec<String>,
}

/// Ingest request payload.
#[derive(Debug)]
pub struct IngestRequest {
    pub content: String,
    pub visibility_tier: Option<i16>,
}

} // verus!
