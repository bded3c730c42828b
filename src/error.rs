//! The errors that the client reports.

use crate::json::{json_error_description, json_error_text};
use crate::text::{decimal, push_decimal};
use reqwest::Error as TransportError;
use serde_json::Error as JsonError;
use std::io::Error as IoError;
use vstd::prelude::*;
use vstd::string::*;

verus! {

#[verifier::external_type_specification]
#[verifier::external_body]
pub struct ExTransportError(TransportError);

#[verifier::external_type_specification]
#[verifier::external_body]
pub struct ExIoError(IoError);

/// Errors that can occur when using the API client.
#[derive(Debug)]
pub enum Error {
    /// The API key is missing, invalid or unauthorized.
    InvalidCredentials,
    /// An email was to be sent without a template id.
    MissingTemplateId,
    /// A recipient address was required and empty.
    MissingRecipientAddress,
    /// The service does not know the endpoint.
    InvalidEndpoint(String),
    /// No connection to the service could be made.
    ConnectionFailed,
    /// The service rejected the request; holds the response body.
    InvalidRequest(String),
    /// The service answered with another unsuccessful status.
    ApiError { status: u16, message: String },
    /// The HTTP exchange failed otherwise.
    RequestFailed(TransportError),
    /// A payload could not be encoded, or a response body decoded.
    SerializationFailed(JsonError),
    /// An attachment file could not be read.
    FileAccessFailed(IoError),
    /// The configured base URL cannot take path segments.
    InvalidApiUrl,
    /// Anything else.
    Unexpected(String),
}

/// The description that reqwest gives of a failure.
pub uninterp spec fn transport_error_description(e: TransportError) -> Seq<char>;

/// The description that std gives of an I/O failure.
pub uninterp spec fn io_error_description(e: IoError) -> Seq<char>;

/// Relies on reqwest::Error's Display: a description of the failure, read
/// from the error itself.
#[verifier::external_body]
fn request_error_text(e: &TransportError) -> (r: String)
    ensures
        r@ == transport_error_description(*e),
{
    e.to_string()
}

/// Relies on std::io::Error's Display: a description of the failure, read
/// from the error itself.
#[verifier::external_body]
fn io_error_text(e: &IoError) -> (r: String)
    ensures
        r@ == io_error_description(*e),
{
    e.to_string()
}

fn prefixed(prefix: &str, rest: &str) -> (r: String)
    ensures
        r@ == prefix@ + rest@,
{
    let mut s = String::from_str(prefix);
    s.append(rest);
    s
}

impl Error {
    /// The human-readable message of the error.
    pub fn message(&self) -> (r: String)
        ensures
            match self {
                Error::InvalidCredentials => r@ == "Invalid or missing API key"@,
                Error::MissingTemplateId => r@ == "Email template ID is required"@,
                Error::MissingRecipientAddress => r@ == "Recipient email address is required"@,
                Error::InvalidEndpoint(e) => r@ == "Invalid API endpoint: "@ + e@,
                Error::ConnectionFailed => r@ == "Connection to SendWithUs API failed"@,
                Error::InvalidRequest(b) => r@ == "SendWithUs API rejected request: "@ + b@,
                Error::ApiError { status, message } => r@ == "SendWithUs API error: "@ + decimal(
                    *status as nat,
                ) + " - "@ + message@,
                Error::RequestFailed(e) => r@ == "API communication error: "@
                    + transport_error_description(*e),
                Error::SerializationFailed(e) => r@ == "Data serialization error: "@
                    + json_error_description(*e),
                Error::FileAccessFailed(e) => r@ == "File access error: "@ + io_error_description(
                    *e,
                ),
                Error::InvalidApiUrl => r@ == "Invalid SendWithUs API URL"@,
                Error::Unexpected(m) => r@ == "Unexpected error: "@ + m@,
            },
    {
        match self {
            Error::InvalidCredentials => String::from_str("Invalid or missing API key"),
            Error::MissingTemplateId => String::from_str("Email template ID is required"),
            Error::MissingRecipientAddress => String::from_str(
                "Recipient email address is required",
            ),
            Error::InvalidEndpoint(e) => prefixed("Invalid API endpoint: ", e.as_str()),
            Error::ConnectionFailed => String::from_str("Connection to SendWithUs API failed"),
            Error::InvalidRequest(b) => prefixed("SendWithUs API rejected request: ", b.as_str()),
            Error::ApiError { status, message } => {
                let mut s = String::from_str("SendWithUs API error: ");
                push_decimal(&mut s, *status as u32);
                s.append(" - ");
                s.append(message.as_str());
                s
            },
            Error::RequestFailed(e) => {
                let d = request_error_text(e);
                prefixed("API communication error: ", d.as_str())
            },
            Error::SerializationFailed(e) => {
                let d = json_error_text(e);
                prefixed("Data serialization error: ", d.as_str())
            },
            Error::FileAccessFailed(e) => {
                let d = io_error_text(e);
                prefixed("File access error: ", d.as_str())
            },
            Error::InvalidApiUrl => String::from_str("Invalid SendWithUs API URL"),
            Error::Unexpected(m) => prefixed("Unexpected error: ", m.as_str()),
        }
    }
}

} // verus!
