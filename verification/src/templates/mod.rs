//! Templates: the cache in front of template resolution, the registry of
//! built-in templates and the data that they are filled with.

pub mod cache;
pub mod engine;
pub mod helpers;
pub mod manager;
pub mod qr;
pub mod template_engine;
pub mod template_models;
pub mod template_trait;
pub mod templates;
