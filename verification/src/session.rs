//! Events of the desktop session and of the system that LG Buddy reacts to.

use vstd::prelude::*;

verus! {

/// An event that the session or the system reports.
#[derive(Debug, Clone, Copy, PartialEq, Eq, Structural)]
pub enum SessionEvent {
    /// The system is about to sleep.
    BeforeSleep,
    /// The system has resumed from sleep.
    AfterResume,
}

} // verus!
