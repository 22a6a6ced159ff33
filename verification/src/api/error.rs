//! The error that a handler answers with.

use vstd::prelude::*;
use crate::base::error::DocumentError;

verus! {

/// An error with the HTTP status that reports it.
#[derive(Debug)]
pub struct ApiError {
    message: String,
    status_code: u16,
}

impl ApiError {
    /// The message of the error.
    pub closed spec fn message_text(self) -> Seq<char> {
        self.message@
    }

    /// The HTTP status of the error.
    pub closed spec fn code(self) -> u16 {
        self.status_code
    }

    /// An error with the given message and status.
    pub fn new(message: String, status_code: u16) -> (error: ApiError)
        ensures
            error.message_text() == message@,
            error.code() == status_code,
    {
        ApiError { message, status_code }
    }

    /// An error of the server, status 500.
    pub fn internal_server_error(message: String) -> (error: ApiError)
        ensures
            error.message_text() == message@,
            error.code() == 500,
    {
        ApiError::new(message, 500)
    }

    /// An error of the request, status 400.
    pub fn bad_request(message: String) -> (error: ApiError)
        ensures
            error.message_text() == message@,
            error.code() == 400,
    {
        ApiError::new(message, 400)
    }

    /// Something that does not exist, status 404.
    pub fn not_found(message: String) -> (error: ApiError)
        ensures
            error.message_text() == message@,
            error.code() == 404,
    {
        ApiError::new(message, 404)
    }

    /// The HTTP status of the error.
    pub fn status_code(&self) -> (code: u16)
        ensures
            code == self.code(),
    {
        self.status_code
    }

    /// The message of the error.
    pub fn to_text(&self) -> (text: String)
        ensures
            text@ == self.message_text(),
    {
        self.message.clone()
    }

    /// The error that reports a failed generation: a validation error is the
    /// request's fault, every other error the server's. The message is the
    /// text of the error.
    pub fn from_document_error(error: &DocumentError) -> (reported: ApiError)
        ensures
            reported.message_text() == error.prefix() + error.message(),
            reported.code() == if *error is ValidationError {
                400u16
            } else {
                500u16
            },
    {
        let text = error.to_text();
        match error {
            DocumentError::ValidationError(_) => ApiError::bad_request(text),
            _ => ApiError::internal_server_error(text),
        }
    }
}

} // verus!
