//! Navigation capability and load-phase state reported by a renderer.
use vstd::prelude::*;

verus! {

/// Whether the renderer can currently move back or forward in its history.
#[derive(Clone, Copy, Debug, PartialEq, Eq, Structural)]
pub struct NavigationState {
    pub can_go_back: bool,
    pub can_go_forward: bool,
}

impl NavigationState {
    /// The state of a renderer that has no history yet.
    pub fn initial() -> (r: NavigationState)
        ensures
            !r.can_go_back,
            !r.can_go_forward,
    {
        NavigationState { can_go_back: false, can_go_forward: false }
    }
}

/// The phase of a page load.
#[derive(Clone, Copy, Debug, PartialEq, Eq, Structural)]
pub enum LoadPhase {
    Started,
    Committed,
    Redirected,
    Finished,
    Failed,
}

/// A load is in progress exactly while it has neither finished nor failed.
pub open spec fn progress_shown(phase: LoadPhase) -> bool {
    !(phase is Finished || phase is Failed)
}

/// Whether the progress indicator is shown during the given load phase.
pub fn is_progress_visible(phase: LoadPhase) -> (r: bool)
    ensures
        r == progress_shown(phase),
{
    match phase {
        LoadPhase::Started => true,
        LoadPhase::Committed => true,
        LoadPhase::Redirected => true,
        LoadPhase::Finished => false,
        LoadPhase::Failed => false,
    }
}

/// Load progress is kept in thousandths; this is the value of a finished load.
pub const PROGRESS_FULL: u16 = 1000;

/// Brings a reported progress value into the range `0..=PROGRESS_FULL`.
pub fn clamp_progress(p: u16) -> (r: u16)
    ensures
        r == if p <= PROGRESS_FULL { p } else { PROGRESS_FULL },
{
    if p <= PROGRESS_FULL {
        p
    } else {
        PROGRESS_FULL
    }
}

} // verus!
