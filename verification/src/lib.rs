//! Typed client library for the ZeptoMail transactional email HTTP API.
//!
//! The library builds the JSON bodies for the five API operations, and maps
//! an HTTP status code together with a response body to either a typed
//! success envelope or a typed error.  The network call itself is left to
//! the caller; everything that can be stated as a function from plain values
//! to plain values is verified here.

pub mod client;
pub mod encode;
pub mod envelope;
pub mod json;
pub mod laws;
pub mod models;
pub mod parse;
pub mod respond;

pub use client::ClientConfig;
pub use client::REQUEST_TIMEOUT_SECS;
pub use respond::interpret_email_response;
pub use respond::interpret_upload_response;
pub use respond::status_is_success;

pub use encode::encode_batch_email_request;
pub use encode::encode_batch_template_email_request;
pub use encode::encode_email_request;
pub use encode::encode_template_email_request;

pub use models::ApiError;
pub use models::ApiErrorDetail;
pub use models::ApiResponse;
pub use models::Attachment;
pub use models::BatchEmailRequest;
pub use models::BatchTemplateEmailRequest;
pub use models::EmailAddress;
pub use models::EmailRequest;
pub use models::FileUploadRequest;
pub use models::FileUploadResponse;
pub use models::InlineImage;
pub use models::MimeHeaders;
pub use models::Recipient;
pub use models::SuccessData;
pub use models::TemplateEmailRequest;
pub use models::ZeptoMailError;
