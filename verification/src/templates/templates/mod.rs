//! The built-in templates.

pub mod fiscal_invoice;
pub mod receipt;
pub mod report;
pub mod simple_invoice;
