//! The request router: admission, classification and the replies of the
//! service.

pub mod error;
pub mod handlers;
pub mod middleware;
pub mod routes;
pub mod state;
