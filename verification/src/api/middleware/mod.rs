//! What is checked of a request before it reaches a handler.

pub mod auth;
