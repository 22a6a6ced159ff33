//! The checks behind the health endpoints and the rule for cross-origin
//! requests.

use vstd::prelude::*;
use crate::text::{chars_of, has_prefix, starts_with};

verus! {

/// The seconds for which a browser may remember the cross-origin rule.
pub const CORS_MAX_AGE_SECONDS: usize = 3600;

/// Whether requests from `origin` are allowed: those from the local machine
/// and those from any origin that is served over TLS.
pub fn is_allowed_origin(origin: &str) -> (allowed: bool)
    ensures
        allowed == (has_prefix(origin@, "http://localhost"@) || has_prefix(origin@, "https://"@)),
{
    let chars = chars_of(origin);
    let local = chars_of("http://localhost");
    let secure = chars_of("https://");
    starts_with(&chars, &local) || starts_with(&chars, &secure)
}

/// What the readiness endpoint reports.
#[derive(Debug, Clone, Copy, PartialEq, Eq, Structural)]
pub struct Readiness {
    pub ready: bool,
    /// The HTTP status of the report.
    pub status: u16,
    pub storage_ok: bool,
    pub templates_ok: bool,
}

/// The readiness of the service: it is ready when object storage answers and
/// at least one template is loaded, and reports 503 until then.
pub fn readiness_check(storage_healthy: bool, templates_loaded: usize) -> (report: Readiness)
    ensures
        report.ready == (storage_healthy && templates_loaded > 0),
        report.status == if report.ready {
            200u16
        } else {
            503u16
        },
        report.storage_ok == storage_healthy,
        report.templates_ok == (templates_loaded > 0),
{
    let templates_ok = templates_loaded > 0;
    let ready = storage_healthy && templates_ok;
    Readiness {
        ready,
        status: if ready {
            200
        } else {
            503
        },
        storage_ok: storage_healthy,
        templates_ok,
    }
}

} // verus!
