//! Errors and the responses they become.
//!
//! Every failure of a request is caught at the request's boundary and
//! answered with a status and a message. A message says nothing that the
//! caller did not supply itself.

use vstd::prelude::*;
use vstd::string::StringExecFns;
use crate::auth::AuthError;
use crate::cert::ValidationError;

verus! {

/// Why the certificate service did not hand out a certificate.
#[derive(Clone, Copy, Debug, PartialEq, Eq, Structural)]
pub enum IssuanceError {
    /// The service turned the request down or failed to sign.
    SigningFailed,
    /// The service could not be reached.
    Unavailable,
}

/// Why a request failed.
#[derive(Clone, Copy, Debug, PartialEq, Eq, Structural)]
pub enum RequestError {
    /// The transport attached no process identity to the request.
    Unauthenticated,
    /// The route did not capture a parameter that the handler needs.
    MissingParameter,
    /// The caller may not act as the module.
    Auth(AuthError),
    /// The request body was turned down.
    Validation(ValidationError),
    /// The certificate service gave no certificate.
    Issuance(IssuanceError),
    /// The transport closed the request before it was answered.
    Cancelled,
    /// The request was driven in a way that its state does not allow.
    Internal,
}

/// The kinds of failure that a response tells apart.
#[derive(Clone, Copy, Debug, PartialEq, Eq, Structural)]
pub enum ErrorKind {
    Unauthenticated,
    Forbidden,
    NotFound,
    MalformedRequest,
    ExternalUnavailable,
    ExternalRejected,
    Internal,
}

/// The kind of a failure.
pub open spec fn kind_of(error: RequestError) -> ErrorKind {
    match error {
        RequestError::Unauthenticated => ErrorKind::Unauthenticated,
        RequestError::MissingParameter => ErrorKind::MalformedRequest,
        RequestError::Auth(AuthError::NotFound) => ErrorKind::NotFound,
        RequestError::Auth(AuthError::Forbidden) => ErrorKind::Forbidden,
        RequestError::Auth(AuthError::Internal) => ErrorKind::Internal,
        RequestError::Validation(_) => ErrorKind::MalformedRequest,
        RequestError::Issuance(IssuanceError::SigningFailed) => ErrorKind::ExternalRejected,
        RequestError::Issuance(IssuanceError::Unavailable) => ErrorKind::ExternalUnavailable,
        RequestError::Cancelled => ErrorKind::Internal,
        RequestError::Internal => ErrorKind::Internal,
    }
}

/// The HTTP status that answers a failure of the given kind. A caller that
/// is not entitled and one that names no module get the same status, and a
/// request without identity is answered as a path that does not exist.
pub open spec fn status_of(kind: ErrorKind) -> u16 {
    match kind {
        ErrorKind::Unauthenticated => 404,
        ErrorKind::Forbidden => 403,
        ErrorKind::NotFound => 403,
        ErrorKind::MalformedRequest => 400,
        ErrorKind::ExternalUnavailable => 500,
        ErrorKind::ExternalRejected => 500,
        ErrorKind::Internal => 500,
    }
}

/// The message that answers a failure.
pub open spec fn message_of(error: RequestError) -> Seq<char> {
    match error {
        RequestError::Unauthenticated => "not found"@,
        RequestError::MissingParameter => "missing required parameter"@,
        RequestError::Auth(AuthError::NotFound) => "forbidden"@,
        RequestError::Auth(AuthError::Forbidden) => "forbidden"@,
        RequestError::Auth(AuthError::Internal) => "could not authorize caller"@,
        RequestError::Validation(ValidationError::MissingBody) => "missing request body"@,
        RequestError::Validation(ValidationError::EmptyCommonName) => "common name is empty"@,
        RequestError::Issuance(IssuanceError::SigningFailed) => "could not issue server certificate"@,
        RequestError::Issuance(IssuanceError::Unavailable) => "certificate service is unavailable"@,
        RequestError::Cancelled => "request was cancelled"@,
        RequestError::Internal => "internal error"@,
    }
}

/// The answer to a failed request, as plain values.
pub struct ErrorResponseView {
    pub status: u16,
    pub message: Seq<char>,
}

/// The answer to a failed request: a status, and the message of its body.
#[derive(Debug)]
pub struct ErrorResponse {
    pub status: u16,
    pub message: String,
}

impl View for ErrorResponse {
    type V = ErrorResponseView;

    open spec fn view(&self) -> ErrorResponseView {
        ErrorResponseView { status: self.status, message: self.message@ }
    }
}

/// The answer to a failure.
pub open spec fn response_to(error: RequestError) -> ErrorResponseView {
    ErrorResponseView { status: status_of(kind_of(error)), message: message_of(error) }
}

/// The kind of a failure.
pub fn classify(error: RequestError) -> (kind: ErrorKind)
    ensures
        kind == kind_of(error),
{
    match error {
        RequestError::Unauthenticated => ErrorKind::Unauthenticated,
        RequestError::MissingParameter => ErrorKind::MalformedRequest,
        RequestError::Auth(AuthError::NotFound) => ErrorKind::NotFound,
        RequestError::Auth(AuthError::Forbidden) => ErrorKind::Forbidden,
        RequestError::Auth(AuthError::Internal) => ErrorKind::Internal,
        RequestError::Validation(_) => ErrorKind::MalformedRequest,
        RequestError::Issuance(IssuanceError::SigningFailed) => ErrorKind::ExternalRejected,
        RequestError::Issuance(IssuanceError::Unavailable) => ErrorKind::ExternalUnavailable,
        RequestError::Cancelled => ErrorKind::Internal,
        RequestError::Internal => ErrorKind::Internal,
    }
}

/// The HTTP status that answers a failure of the given kind.
pub fn status_code(kind: ErrorKind) -> (status: u16)
    ensures
        status == status_of(kind),
{
    match kind {
        ErrorKind::Unauthenticated => 404,
        ErrorKind::Forbidden => 403,
        ErrorKind::NotFound => 403,
        ErrorKind::MalformedRequest => 400,
        ErrorKind::ExternalUnavailable => 500,
        ErrorKind::ExternalRejected => 500,
        ErrorKind::Internal => 500,
    }
}

/// The message that answers a failure.
pub fn message_for(error: RequestError) -> (message: &'static str)
    ensures
        message@ == message_of(error),
{
    match error {
        RequestError::Unauthenticated => "not found",
        RequestError::MissingParameter => "missing required parameter",
        RequestError::Auth(AuthError::NotFound) => "forbidden",
        RequestError::Auth(AuthError::Forbidden) => "forbidden",
        RequestError::Auth(AuthError::Internal) => "could not authorize caller",
        RequestError::Validation(ValidationError::MissingBody) => "missing request body",
        RequestError::Validation(ValidationError::EmptyCommonName) => "common name is empty",
        RequestError::Issuance(IssuanceError::SigningFailed) => "could not issue server certificate",
        RequestError::Issuance(IssuanceError::Unavailable) => "certificate service is unavailable",
        RequestError::Cancelled => "request was cancelled",
        RequestError::Internal => "internal error",
    }
}

/// Turns a failure into the response that answers it.
pub fn error_response(error: RequestError) -> (response: ErrorResponse)
    ensures
        response@ == response_to(error),
{
    ErrorResponse {
        status: status_code(classify(error)),
        message: String::from_str(message_for(error)),
    }
}

/// A caller that claims a module that does not exist and a caller that
/// claims a module that another process runs get the same answer, so the
/// answer does not tell which modules exist.
pub proof fn lemma_denials_look_alike()
    ensures
        response_to(RequestError::Auth(AuthError::NotFound)) == response_to(
            RequestError::Auth(AuthError::Forbidden),
        ),
{
}

/// A request that is at fault is answered with 400, one that may not be
/// served with 403 or 404, and every other failure with 500.
pub proof fn lemma_status_by_kind(error: RequestError)
    ensures
        kind_of(error) == ErrorKind::MalformedRequest <==> response_to(error).status == 400,
        kind_of(error) == ErrorKind::Forbidden || kind_of(error) == ErrorKind::NotFound
            <==> response_to(error).status == 403,
        kind_of(error) == ErrorKind::Unauthenticated <==> response_to(error).status == 404,
        kind_of(error) == ErrorKind::ExternalUnavailable || kind_of(error)
            == ErrorKind::ExternalRejected || kind_of(error) == ErrorKind::Internal
            <==> response_to(error).status == 500,
{
}

} // verus!
