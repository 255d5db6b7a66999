//! The envelope in which every command answers.

use crate::trusted::{is_hyphenated_id, random_uuid};
use vstd::prelude::*;

verus! {

/// What went wrong, as a code and a message.
#[derive(Debug, Clone)]
pub struct ApiError {
    pub code: String,
    pub message: String,
}

/// The answer to a command: either data or an error, under a fresh request
/// id.
#[derive(Debug)]
pub struct ApiResponse<T> {
    pub ok: bool,
    pub request_id: String,
    pub data: Option<T>,
    pub error: Option<ApiError>,
}

impl<T> ApiResponse<T> {
    /// An answer that carries data.
    pub fn success(data: T) -> (r: Self)
        ensures
            r.ok,
            r.data == Some(data),
            r.error is None,
            is_hyphenated_id(r.request_id@),
    {
        ApiResponse { ok: true, request_id: random_uuid(), data: Some(data), error: None }
    }

    /// An answer that carries an error.
    pub fn error(code: &str, message: &str) -> (r: Self)
        ensures
            !r.ok,
            r.data is None,
            r.error matches Some(e) && e.code@ == code@ && e.message@ == message@,
            is_hyphenated_id(r.request_id@),
    {
        ApiResponse {
            ok: false,
            request_id: random_uuid(),
            data: None,
            error: Some(ApiError { code: String::from_str(code), message: String::from_str(message) }),
        }
    }
}

} // verus!
