//! The requests that the service accepts and the records that it keeps.

pub mod common;
pub mod document;
pub mod invoice;
pub mod report;
