//! Building blocks of printed documents: page settings, tabular data and the
//! errors of document generation.

pub mod config;
pub mod data;
pub mod error;
