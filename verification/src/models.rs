//! Request and response value types of the API.
//!
//! These are plain value objects: a caller builds a request, hands it to an
//! operation, and receives either a typed success envelope or a typed error.
//! None of them carries behaviour beyond well-formedness predicates.

use vstd::prelude::*;

verus! {

/// An email address with an optional display name.
#[derive(Debug, Clone, PartialEq, Eq)]
pub struct EmailAddress {
    pub address: String,
    pub name: Option<String>,
}

/// A recipient: an address plus optional per-recipient template
/// substitutions.  The substitutions are held as a key/value list in the
/// order they will appear on the wire.
#[derive(Debug, Clone, PartialEq, Eq)]
pub struct Recipient {
    pub email_address: EmailAddress,
    pub merge_info: Option<Vec<(String, String)>>,
}

/// An attachment: either inline base64 content with a mime type, or a
/// reference to a previously uploaded file by its cache key.
#[derive(Debug, Clone, PartialEq, Eq)]
pub struct Attachment {
    pub name: String,
    pub content: Option<String>,
    pub mime_type: Option<String>,
    pub file_cache_key: Option<String>,
}

/// Additional custom headers merged into the outgoing email, as a key/value
/// list in wire order.
#[derive(Debug, Clone, PartialEq, Eq)]
pub struct MimeHeaders {
    pub headers: Vec<(String, String)>,
}

/// An image referenced from the HTML body through its content id.
#[derive(Debug, Clone, PartialEq, Eq)]
pub struct InlineImage {
    pub mime_type: String,
    pub content: String,
    pub content_id: String,
}

/// A single transactional email.
#[derive(Debug, Clone, PartialEq, Eq)]
pub struct EmailRequest {
    pub bounce_address: Option<String>,
    pub sender: EmailAddress,
    pub recipients: Vec<Recipient>,
    pub reply_to: Option<Vec<EmailAddress>>,
    pub subject: String,
    pub htmlbody: Option<String>,
    pub textbody: Option<String>,
    pub carbon_copy: Option<Vec<Recipient>>,
    pub blind_carbon_copy: Option<Vec<Recipient>>,
    pub track_clicks: Option<bool>,
    pub track_opens: Option<bool>,
    pub client_reference: Option<String>,
    pub mime_headers: Option<MimeHeaders>,
    pub attachments: Option<Vec<Attachment>>,
    pub inline_images: Option<Vec<InlineImage>>,
}

/// One email delivered separately to each recipient.
#[derive(Debug, Clone, PartialEq, Eq)]
pub struct BatchEmailRequest {
    pub sender: EmailAddress,
    pub recipients: Vec<Recipient>,
    pub subject: String,
    pub htmlbody: Option<String>,
    pub textbody: Option<String>,
    pub carbon_copy: Option<Vec<Recipient>>,
    pub blind_carbon_copy: Option<Vec<Recipient>>,
    pub track_clicks: Option<bool>,
    pub track_opens: Option<bool>,
    pub client_reference: Option<String>,
    pub mime_headers: Option<MimeHeaders>,
    pub attachments: Option<Vec<Attachment>>,
    pub inline_images: Option<Vec<InlineImage>>,
}

/// An email rendered from a remote template.
#[derive(Debug, Clone, PartialEq, Eq)]
pub struct TemplateEmailRequest {
    pub template_key: String,
    pub bounce_address: Option<String>,
    pub sender: EmailAddress,
    pub recipients: Vec<Recipient>,
    pub reply_to: Option<Vec<EmailAddress>>,
    pub track_clicks: Option<bool>,
    pub track_opens: Option<bool>,
    pub client_reference: Option<String>,
    pub mime_headers: Option<MimeHeaders>,
    pub attachments: Option<Vec<Attachment>>,
    pub merge_info: Option<Vec<(String, String)>>,
}

/// A templated email delivered separately to each recipient.
#[derive(Debug, Clone, PartialEq, Eq)]
pub struct BatchTemplateEmailRequest {
    pub template_key: String,
    pub bounce_address: Option<String>,
    pub sender: EmailAddress,
    pub recipients: Vec<Recipient>,
    pub reply_to: Option<Vec<EmailAddress>>,
    pub track_clicks: Option<bool>,
    pub track_opens: Option<bool>,
    pub client_reference: Option<String>,
    pub mime_headers: Option<MimeHeaders>,
    pub attachments: Option<Vec<Attachment>>,
}

/// A file to be uploaded to the remote file cache.
#[derive(Debug, Clone, PartialEq, Eq)]
pub struct FileUploadRequest {
    pub name: String,
    pub content_type: String,
    pub data: Vec<u8>,
}

/// The success envelope of the upload operation; the cache key can later be
/// handed back in `Attachment::file_cache_key`.
#[derive(Debug, Clone, PartialEq, Eq)]
pub struct FileUploadResponse {
    pub file_cache_key: String,
    pub message: String,
    pub code: String,
}

/// One entry of the success envelope's `data` list.
#[derive(Debug, Clone, PartialEq, Eq)]
pub struct SuccessData {
    pub code: String,
    pub additional_info: Option<Vec<String>>,
    pub message: String,
}

/// The success envelope of the four email operations.
#[derive(Debug, Clone, PartialEq, Eq)]
pub struct ApiResponse {
    pub data: Vec<SuccessData>,
    pub message: String,
    pub request_id: String,
    pub object: Option<String>,
}

/// One per-field entry of an error envelope.
#[derive(Debug, Clone, PartialEq, Eq)]
pub struct ApiErrorDetail {
    pub code: String,
    pub message: String,
    pub target: Option<String>,
}

/// The error envelope: the service accepted the HTTP request but rejected
/// its semantics.
#[derive(Debug, Clone, PartialEq, Eq)]
pub struct ApiError {
    pub code: String,
    pub message: String,
    pub details: Option<Vec<ApiErrorDetail>>,
    pub request_id: Option<String>,
}

/// Everything an operation can fail with.  Transport and decoding failures
/// carry a human-readable description.
#[derive(Debug, Clone, PartialEq, Eq)]
pub enum ZeptoMailError {
    ApiError(ApiError),
    NetworkError(String),
    SerializationError(String),
    UnexpectedResponse(String),
}

/// An address is well formed when it is non-empty.
pub open spec fn wf_email_address(a: EmailAddress) -> bool {
    a.address@.len() > 0
}

/// A recipient is well formed when its address is.
pub open spec fn wf_recipient(r: Recipient) -> bool {
    wf_email_address(r.email_address)
}

/// A request is well formed when its sender and every recipient list entry
/// carry a well-formed address.  No further local validation exists: field
/// semantics are checked by the remote service.
pub open spec fn wf_email_request(r: EmailRequest) -> bool {
    &&& wf_email_address(r.sender)
    &&& forall|i: int| 0 <= i < r.recipients@.len() ==> wf_recipient(#[trigger] r.recipients@[i])
}

impl ZeptoMailError {
    /// The textual rendering surfaced to a user, one line per error kind.
    pub fn describe(&self) -> (out: String)
        ensures
            out@ == match self {
                ZeptoMailError::ApiError(e) => "API Error: "@ + e.message@,
                ZeptoMailError::NetworkError(m) => "Network Error: "@ + m@,
                ZeptoMailError::SerializationError(m) => "Serialization Error: "@ + m@,
                ZeptoMailError::UnexpectedResponse(m) => "Unexpected Response: "@ + m@,
            },
    {
        match self {
            ZeptoMailError::ApiError(e) => {
                let mut out = String::from_str("API Error: ");
                out.append(e.message.as_str());
                out
            },
            ZeptoMailError::NetworkError(m) => {
                let mut out = String::from_str("Network Error: ");
                out.append(m.as_str());
                out
            },
            ZeptoMailError::SerializationError(m) => {
                let mut out = String::from_str("Serialization Error: ");
                out.append(m.as_str());
                out
            },
            ZeptoMailError::UnexpectedResponse(m) => {
                let mut out = String::from_str("Unexpected Response: ");
                out.append(m.as_str());
                out
            },
        }
    }
}

} // verus!
