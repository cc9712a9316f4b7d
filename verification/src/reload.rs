//! Script reload lifecycle.
//!
//! A two-state machine: `Stable` and `Reloading`. The transition to
//! `Reloading` occurs when an external reload request is observed; the
//! controller hands the new script source to the bridge and settles back to
//! `Stable` within the same logic pass, so `Reloading` is a single-tick
//! pulse used purely to render a transient indicator. No telemetry or
//! settings state is reset on reload; only the script program is replaced.

use vstd::prelude::*;

verus! {

/// The two lifecycle states of the script program.
#[derive(Clone, Copy, PartialEq, Eq, Debug, Structural)]
pub enum ReloadState {
    Stable,
    Reloading,
}

/// Tracks whether a reload is in flight during the current logic pass.
pub struct ReloadController {
    state: ReloadState,
}

impl View for ReloadController {
    type V = ReloadState;

    closed spec fn view(&self) -> ReloadState {
        self.state
    }
}

impl ReloadController {
    /// A controller in the stable state.
    pub fn new() -> (c: ReloadController)
        ensures
            c@ == ReloadState::Stable,
    {
        ReloadController { state: ReloadState::Stable }
    }

    /// An external reload request was observed: enter the single-pass
    /// reloading pulse.
    pub fn begin(&mut self)
        ensures
            final(self)@ == ReloadState::Reloading,
    {
        self.state = ReloadState::Reloading;
    }

    /// The pass that performed the reload is over: settle back to stable.
    pub fn settle(&mut self)
        ensures
            final(self)@ == ReloadState::Stable,
    {
        self.state = ReloadState::Stable;
    }

    /// Whether the current pass is the reload pulse.
    pub fn is_reloading(&self) -> (r: bool)
        ensures
            r == (self@ == ReloadState::Reloading),
    {
        match self.state {
            ReloadState::Reloading => true,
            ReloadState::Stable => false,
        }
    }
}

} // verus!
