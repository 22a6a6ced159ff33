//! Admission, queueing and rendering decisions of a document generation
//! service, with the template cache and the status store that it relies on.

pub mod api;
pub mod base;
pub mod excel;
pub mod json;
pub mod models;
pub mod pdf;
pub mod queue;
pub mod status;
pub mod storage;
pub mod templates;
pub mod text;
pub mod worker;
