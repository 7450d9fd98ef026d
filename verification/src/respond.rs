//! Response mapping.
//!
//! The HTTP status code decides how a response body is read: a success
//! status makes the body a success envelope, any other status makes it an
//! error envelope, and a body that does not fit the expected envelope is a
//! decoding failure — never a silently substituted value.

use vstd::prelude::*;

use crate::envelope::abs_api_error;
use crate::envelope::abs_api_response;
use crate::envelope::abs_upload;
use crate::envelope::api_error_doc;
use crate::envelope::api_response_doc;
use crate::envelope::parse_api_error_body;
use crate::envelope::parse_api_response_body;
use crate::envelope::parse_upload_body;
use crate::envelope::upload_doc;
use crate::models::ApiResponse;
use crate::models::FileUploadResponse;
use crate::models::ZeptoMailError;

verus! {

/// An HTTP status that reports success.
pub open spec fn is_success_status(status: u16) -> bool {
    200 <= status < 300
}

/// The success test, executably.
pub fn status_is_success(status: u16) -> (r: bool)
    ensures
        r == is_success_status(status),
{
    200 <= status && status < 300
}

/// Maps one email-operation exchange to its typed outcome.
///
/// On a success status, a syntactically valid success body yields exactly
/// the typed envelope it denotes, and never an error; on any other status,
/// a syntactically valid error body yields exactly the typed error it
/// denotes, and never a success envelope; in both cases a malformed body
/// yields a decoding failure rather than a substituted value.
pub fn interpret_email_response(status: u16, body: &str) -> (r: Result<
    ApiResponse,
    ZeptoMailError,
>)
    ensures
        is_success_status(status) ==> (match api_response_doc(body@) {
            Some(v) => r matches Ok(a) && abs_api_response(a) == v,
            None => r matches Err(e) && e matches ZeptoMailError::SerializationError(_),
        }),
        !is_success_status(status) ==> (match api_error_doc(body@) {
            Some(v) => r matches Err(e) && e matches ZeptoMailError::ApiError(a) && abs_api_error(
                a,
            ) == v,
            None => r matches Err(e) && e matches ZeptoMailError::SerializationError(_),
        }),
{
    if status_is_success(status) {
        match parse_api_response_body(body) {
            Some(v) => Ok(v),
            None => Err(
                ZeptoMailError::SerializationError(
                    String::from_str("the response body is not a valid success envelope"),
                ),
            ),
        }
    } else {
        match parse_api_error_body(body) {
            Some(e) => Err(ZeptoMailError::ApiError(e)),
            None => Err(
                ZeptoMailError::SerializationError(
                    String::from_str("the response body is not a valid error envelope"),
                ),
            ),
        }
    }
}

/// Maps one upload exchange to its typed outcome, as
/// `interpret_email_response` does, with the upload success envelope.
pub fn interpret_upload_response(status: u16, body: &str) -> (r: Result<
    FileUploadResponse,
    ZeptoMailError,
>)
    ensures
        is_success_status(status) ==> (match upload_doc(body@) {
            Some(v) => r matches Ok(a) && abs_upload(a) == v,
            None => r matches Err(e) && e matches ZeptoMailError::SerializationError(_),
        }),
        !is_success_status(status) ==> (match api_error_doc(body@) {
            Some(v) => r matches Err(e) && e matches ZeptoMailError::ApiError(a) && abs_api_error(
                a,
            ) == v,
            None => r matches Err(e) && e matches ZeptoMailError::SerializationError(_),
        }),
{
    if status_is_success(status) {
        match parse_upload_body(body) {
            Some(v) => Ok(v),
            None => Err(
                ZeptoMailError::SerializationError(
                    String::from_str("the response body is not a valid success envelope"),
                ),
            ),
        }
    } else {
        match parse_api_error_body(body) {
            Some(e) => Err(ZeptoMailError::ApiError(e)),
            None => Err(
                ZeptoMailError::SerializationError(
                    String::from_str("the response body is not a valid error envelope"),
                ),
            ),
        }
    }
}

} // verus!
