//! The escape-key watcher that cancels a recording.  The platform key
//! polling runs outside on its own thread; the single-flight flag
//! that guards it and the decision each poll tick takes are here.

use vstd::prelude::*;
use crate::state::Status;

verus! {

/// Whether the watcher thread is (supposed to be) running.
pub struct MonitorFlag {
    pub active: bool,
}

impl MonitorFlag {
    /// Not running.
    pub fn new() -> (r: MonitorFlag)
        ensures
            !r.active,
    {
        MonitorFlag { active: false }
    }
}

/// Start monitoring for the Escape key (when recording starts).  The
/// caller spawns the polling thread only when this returns true: a
/// watcher that is already running is left alone.
pub fn start(flag: &mut MonitorFlag) -> (began: bool)
    ensures
        final(flag).active,
        began == !old(flag).active,
{
    let began = !flag.active;
    flag.active = true;
    began
}

/// Stop the watcher (when recording stops or is cancelled).
pub fn stop(flag: &mut MonitorFlag)
    ensures
        !final(flag).active,
{
    flag.active = false;
}

/// What one poll tick does.
#[derive(Clone, Copy, PartialEq, Eq, Structural, Debug)]
pub enum PollAction {
    /// Keep polling.
    Continue,
    /// Emit the cancel toggle and stop polling.
    Cancel,
    /// Stop polling without emitting anything.
    Stop,
}

/// Decide one poll tick: polling ends when the watcher was stopped or
/// the session left Recording; a pressed Escape cancels.
pub fn poll_action(active: bool, status: Status, escape_pressed: bool) -> (r: PollAction)
    ensures
        r == (if !active || status != Status::Recording {
            PollAction::Stop
        } else if escape_pressed {
            PollAction::Cancel
        } else {
            PollAction::Continue
        }),
{
    if !active {
        PollAction::Stop
    } else if status != Status::Recording {
        PollAction::Stop
    } else if escape_pressed {
        PollAction::Cancel
    } else {
        PollAction::Continue
    }
}

} // verus!
