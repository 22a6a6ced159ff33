//! Errors of document generation.

use vstd::prelude::*;
use crate::text::push_text;

verus! {

/// What went wrong while a document was generated, with a message.
#[derive(Debug)]
pub enum DocumentError {
    IoError(String),
    GenerationError(String),
    TemplateError(String),
    ValidationError(String),
    ConfigError(String),
}

/// The result of an operation that may fail with a [`DocumentError`].
pub type DocumentResult<T> = Result<T, DocumentError>;

impl DocumentError {
    /// The message that the error carries.
    pub open spec fn message(self) -> Seq<char> {
        match self {
            DocumentError::IoError(msg) => msg@,
            DocumentError::GenerationError(msg) => msg@,
            DocumentError::TemplateError(msg) => msg@,
            DocumentError::ValidationError(msg) => msg@,
            DocumentError::ConfigError(msg) => msg@,
        }
    }

    /// The words that introduce the message of each kind of error.
    pub open spec fn prefix(self) -> Seq<char> {
        match self {
            DocumentError::IoError(_) => "Error de E/S: "@,
            DocumentError::GenerationError(_) => "Error de generación: "@,
            DocumentError::TemplateError(_) => "Error de plantilla: "@,
            DocumentError::ValidationError(_) => "Error de validación: "@,
            DocumentError::ConfigError(_) => "Error de configuración: "@,
        }
    }

    /// The text shown for the error: the words for its kind, then its message.
    pub fn to_text(&self) -> (text: String)
        ensures
            text@ == self.prefix() + self.message(),
    {
        let mut out = String::new();
        match self {
            DocumentError::IoError(msg) => {
                push_text(&mut out, "Error de E/S: ");
                push_text(&mut out, msg.as_str());
            },
            DocumentError::GenerationError(msg) => {
                push_text(&mut out, "Error de generación: ");
                push_text(&mut out, msg.as_str());
            },
            DocumentError::TemplateError(msg) => {
                push_text(&mut out, "Error de plantilla: ");
                push_text(&mut out, msg.as_str());
            },
            DocumentError::ValidationError(msg) => {
                push_text(&mut out, "Error de validación: ");
                push_text(&mut out, msg.as_str());
            },
            DocumentError::ConfigError(msg) => {
                push_text(&mut out, "Error de configuración: ");
                push_text(&mut out, msg.as_str());
            },
        }
        assert(out@ =~= self.prefix() + self.message());
        out
    }
}

} // verus!
