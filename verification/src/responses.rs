//! Bodies of the simple replies.
use vstd::prelude::*;

verus! {

/// The reply of the health check.
pub struct HealthResponse {
    pub status: String,
}

/// The reply of a healthy server: status `ok`.
pub fn health_check() -> (r: HealthResponse)
    ensures
        r.status@ == "ok"@,
{
    HealthResponse { status: String::from_str("ok") }
}

} // verus!
