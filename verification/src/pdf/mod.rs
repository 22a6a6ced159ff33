//! Markup documents: the builder that collects their sections and the steps
//! before the external compiler.

pub mod builder;
pub mod generator;
