//! Response envelopes handed to the UI layer: a generic success/error
//! wrapper and a plain HTTP response record.

use vstd::prelude::*;

verus! {

/// A plain HTTP response: status code and body text.
#[derive(Debug)]
pub struct HttpResponse {
    pub status: u16,
    pub body: String,
}

/// The envelope every UI-facing command answers with: either data or an
/// error message.
#[derive(Debug)]
pub struct ApiResponse<T> {
    pub success: bool,
    pub data: Option<T>,
    pub message: String,
    pub error: Option<String>,
}

impl<T> ApiResponse<T> {
    /// A successful response carrying data and no message.
    pub fn success(data: T) -> (r: ApiResponse<T>)
        ensures
            r.success,
            r.data == Some(data),
            r.message@.len() == 0,
            r.error is None,
    {
        ApiResponse { success: true, data: Some(data), message: String::new(), error: None }
    }

    /// A failed response carrying the message both as the message and as the
    /// error text.
    pub fn error(message: String) -> (r: ApiResponse<T>)
        ensures
            !r.success,
            r.data is None,
            r.message == message,
            r.error is Some,
            r.error->0 == message,
    {
        let copy = message.clone();
        ApiResponse { success: false, data: None, message, error: Some(copy) }
    }

    /// A successful response carrying only a message.
    pub fn with_message(message: String) -> (r: ApiResponse<T>)
        ensures
            r.success,
            r.data is None,
            r.message == message,
            r.error is None,
    {
        ApiResponse { success: true, data: None, message, error: None }
    }

    /// Wraps a plain result: data on success, the error text on failure.
    pub fn from_result(result: Result<T, String>) -> (r: ApiResponse<T>)
        ensures
            match result {
                Ok(data) => r.success && r.data == Some(data) && r.message@.len() == 0 && r.error
                    is None,
                Err(e) => !r.success && r.data is None && r.message == e && r.error == Some(e),
            },
    {
        match result {
            Ok(data) => ApiResponse::success(data),
            Err(e) => ApiResponse::error(e),
        }
    }
}

} // verus!
