//! Payloads of the remaining push events to the presentation layer.

use vstd::prelude::*;

verus! {

/// What onboarding still has to obtain before the pipeline can work.
pub struct OnboardingStatus {
    /// Some catalog model is fully on disk.
    pub model_ready: bool,
    /// The microphone permission is granted.
    pub mic_granted: bool,
    /// The accessibility permission is granted.
    pub accessibility_granted: bool,
}

/// Payload of an `update-status` event.
pub struct UpdateStatusPayload {
    pub status: String,
    pub version: Option<String>,
    pub body: Option<String>,
    pub error: Option<String>,
}

/// Onboarding is needed until the user completes it once.
pub fn onboarding_needed(completed: bool) -> (r: bool)
    ensures
        r == !completed,
{
    !completed
}

} // verus!
