//! The health endpoints: one open, one behind authorization.

use vstd::prelude::*;
use crate::api::utils::{response_handler, success, Envelope, Payload, PayloadView, Status};
use crate::models::claim::Claims;

verus! {

/// Calls `chrono::Utc::now().to_rfc3339()`.
///
/// Trusted: nothing. The text is the time of the call and differs from call
/// to call.
#[verifier::external_body]
fn server_time() -> (text: String) {
    chrono::Utc::now().to_rfc3339()
}

/// The answer of the open health endpoint.
pub fn public_health() -> (envelope: Envelope)
    ensures
        envelope@ == success(
            Status::Success,
            "success"@,
            Some(PayloadView::Health { health: "ok"@ }),
        ),
{
    response_handler(
        Status::Success,
        "success".to_string(),
        Some(Payload::Health { health: "ok".to_string() }),
        None,
    )
}

/// The answer of the protected health endpoint for an admitted caller,
/// given the server's time as text.
pub fn private_health_at(claims: &Claims, server_time: String) -> (envelope: Envelope)
    ensures
        envelope@ == success(
            Status::Success,
            "success"@,
            Some(PayloadView::HealthAt { health: "ok"@, server_time: server_time@ }),
        ),
{
    response_handler(
        Status::Success,
        "success".to_string(),
        Some(Payload::HealthAt { health: "ok".to_string(), server_time }),
        None,
    )
}

/// The answer of the protected health endpoint for an admitted caller, with
/// the time of the call.
pub fn private_health(claims: &Claims) -> (envelope: Envelope)
    ensures
        exists|time: Seq<char>|
            envelope@ == #[trigger] success(
                Status::Success,
                "success"@,
                Some(PayloadView::HealthAt { health: "ok"@, server_time: time }),
            ),
{
    private_health_at(claims, server_time())
}

} // verus!
