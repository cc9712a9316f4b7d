//! The logic-pass driver: one object owning the bridge, the settings
//! store, the scheduler, the reload controller and the current snapshot,
//! with one method per step of a logic pass.
//!
//! A single logical thread drives passes sequentially. Within a pass the
//! order is fixed: the tick begins (advancing the logic counter and
//! settling a previous pass's reload pulse), input is handled, telemetry
//! is resampled where the cadence says so, and the script pass runs last,
//! so the script-pull step is the last writer of the settings each pass.
//! The host performs what the core cannot: it acquires snapshots, reads
//! script files and renders, exchanging plain values with these methods.

use vstd::prelude::*;
use crate::reload::{ReloadController, ReloadState};
use crate::sched::{Scheduler, spec_should_refresh, spec_wrapping_next};
use crate::script_bridge::{ScriptBridge, ScriptError};
use crate::settings::{SettingsStore, SettingsV, spec_default_settings};
use crate::snapshot::TelemetrySnapshot;
use crate::style::{Word, max_line_width, spec_line_views, spec_max_width};

verus! {

/// The box holding the script-declared telemetry lines and their widest
/// width, used by the host for layout.
pub struct InfoBox {
    pub lines: Vec<Vec<Word>>,
    pub max_len: usize,
}

/// The box holding the secondary (ascii/status) region's line grid.
pub struct AsciBox {
    pub lines: Vec<Vec<Word>>,
    pub max_len: usize,
}

/// A key event's kind: only presses are actionable.
#[derive(Clone, Copy, PartialEq, Eq, Debug, Structural)]
pub enum KeyEventKind {
    Press,
    Repeat,
    Release,
}

/// The decoded key of an input event, as the host hands it in.
#[derive(Clone, Copy, PartialEq, Eq, Debug, Structural)]
pub enum KeyCode {
    Char(char),
    Up,
    Down,
    Left,
    Right,
    Other,
}

/// What a key event asks of the host, beyond the toggles the core applies
/// itself.
#[derive(Clone, Copy, PartialEq, Eq, Debug, Structural)]
pub enum Action {
    Exit,
    ToggleDebug,
    Reload,
    LayoutToggled,
    OrderToggled,
    Ignored,
}

/// The fixed key map: a press of `q` exits, `d` toggles the debug overlay,
/// `r` requests a reload, the vertical arrows toggle the layout axis and
/// the horizontal arrows the order axis; everything else, and any repeat
/// or release event, is ignored.
pub open spec fn spec_key_action(kind: KeyEventKind, code: KeyCode) -> Action {
    if kind != KeyEventKind::Press {
        Action::Ignored
    } else {
        match code {
            KeyCode::Char(c) => if c == 'q' {
                Action::Exit
            } else if c == 'd' {
                Action::ToggleDebug
            } else if c == 'r' {
                Action::Reload
            } else {
                Action::Ignored
            },
            KeyCode::Up => Action::LayoutToggled,
            KeyCode::Down => Action::LayoutToggled,
            KeyCode::Left => Action::OrderToggled,
            KeyCode::Right => Action::OrderToggled,
            KeyCode::Other => Action::Ignored,
        }
    }
}

/// The dashboard core: everything a logic pass reads or writes.
pub struct LoopFetch {
    pub bridge: ScriptBridge,
    pub settings: SettingsStore,
    pub sched: Scheduler,
    pub reload: ReloadController,
    pub snapshot: TelemetrySnapshot,
    pub info_box: InfoBox,
    pub asci_box: AsciBox,
}

impl LoopFetch {
    /// Well-formedness: the refresh divisor in force is usable. The
    /// constructor establishes it and every method preserves it, since
    /// settings only ever change through the clamping parser or the
    /// toggles.
    pub open spec fn wf(self) -> bool {
        self.settings@.rps >= 1
    }

    /// A core over a fresh script environment: default settings, counters
    /// at zero, a stable reload state, a sentinel snapshot and empty boxes.
    pub fn init(initial_source: &str) -> (app: LoopFetch)
        ensures
            app.wf(),
            app.bridge@ == initial_source@,
            app.settings@ == spec_default_settings(),
            app.sched@.logic_count == 0,
            app.sched@.frame_count == 0,
            app.reload@ == ReloadState::Stable,
            app.snapshot.comp@ == "unknown"@,
            app.info_box.lines@.len() == 0,
            app.info_box.max_len == 0,
            app.asci_box.lines@.len() == 0,
            app.asci_box.max_len == 0,
    {
        LoopFetch {
            bridge: ScriptBridge::new(initial_source),
            settings: SettingsStore::new(),
            sched: Scheduler::new(),
            reload: ReloadController::new(),
            snapshot: TelemetrySnapshot::default(),
            info_box: InfoBox { lines: Vec::new(), max_len: 0 },
            asci_box: AsciBox { lines: Vec::new(), max_len: 0 },
        }
    }

    /// Begin a logic pass: advance the logic counter, settle a previous
    /// pass's reload pulse, and say whether this pass resamples telemetry
    /// — true exactly when the new logic count is a multiple of the
    /// refresh divisor.
    pub fn begin_tick(&mut self) -> (refresh: bool)
        requires
            old(self).wf(),
        ensures
            final(self).wf(),
            final(self).sched@.logic_count == spec_wrapping_next(old(self).sched@.logic_count),
            final(self).sched@.frame_count == old(self).sched@.frame_count,
            final(self).reload@ == ReloadState::Stable,
            refresh == spec_should_refresh(
                final(self).sched@.logic_count,
                old(self).settings@.rps as u64,
            ),
            final(self).settings@ == old(self).settings@,
            final(self).bridge@ == old(self).bridge@,
            final(self).snapshot == old(self).snapshot,
    {
        self.sched.tick_logic();
        self.reload.settle();
        self.sched.should_refresh_telemetry(self.settings.rps())
    }

    /// Handle one input event: apply a toggle directly, and tell the host
    /// what else the key asks for. Exactly the layout-toggle keys change
    /// the layout axis, exactly the order-toggle keys the order axis;
    /// nothing else in the core changes.
    pub fn handle_key(&mut self, kind: KeyEventKind, code: KeyCode) -> (a: Action)
        requires
            old(self).wf(),
        ensures
            final(self).wf(),
            a == spec_key_action(kind, code),
            final(self).settings@ == if a == Action::LayoutToggled {
                SettingsV { layout: old(self).settings@.layout.spec_toggle(), ..old(self).settings@ }
            } else if a == Action::OrderToggled {
                SettingsV { order: old(self).settings@.order.spec_toggle(), ..old(self).settings@ }
            } else {
                old(self).settings@
            },
            final(self).bridge@ == old(self).bridge@,
            final(self).sched@ == old(self).sched@,
            final(self).reload@ == old(self).reload@,
            final(self).snapshot == old(self).snapshot,
    {
        match kind {
            KeyEventKind::Press => {
                match code {
                    KeyCode::Char(c) => {
                        if c == 'q' {
                            Action::Exit
                        } else if c == 'd' {
                            Action::ToggleDebug
                        } else if c == 'r' {
                            Action::Reload
                        } else {
                            Action::Ignored
                        }
                    },
                    KeyCode::Up => {
                        self.settings.toggle_layout();
                        Action::LayoutToggled
                    },
                    KeyCode::Down => {
                        self.settings.toggle_layout();
                        Action::LayoutToggled
                    },
                    KeyCode::Left => {
                        self.settings.toggle_order();
                        Action::OrderToggled
                    },
                    KeyCode::Right => {
                        self.settings.toggle_order();
                        Action::OrderToggled
                    },
                    KeyCode::Other => Action::Ignored,
                }
            },
            _ => Action::Ignored,
        }
    }

    /// Install a freshly acquired snapshot, replacing the previous one
    /// wholesale; the free-form compositor slot is re-sourced from the
    /// settings' variable bag, round-tripping it unchanged each cycle.
    pub fn set_snapshot(&mut self, snap: TelemetrySnapshot)
        requires
            old(self).wf(),
        ensures
            final(self).wf(),
            final(self).snapshot == (TelemetrySnapshot {
                comp: final(self).snapshot.comp,
                ..snap
            }),
            final(self).snapshot.comp@ == old(self).settings@.comp,
            final(self).settings@ == old(self).settings@,
            final(self).bridge@ == old(self).bridge@,
            final(self).sched@ == old(self).sched@,
            final(self).reload@ == old(self).reload@,
    {
        self.snapshot = snap;
        self.snapshot.comp = self.settings.vars().comp.clone();
    }

    /// An external reload request: enter the reload pulse and hand the new
    /// source to the bridge, which discards the old script environment.
    /// Settings, counters and telemetry are untouched.
    pub fn request_reload(&mut self, new_source: &str)
        requires
            old(self).wf(),
        ensures
            final(self).wf(),
            final(self).bridge@ == new_source@,
            final(self).reload@ == ReloadState::Reloading,
            final(self).settings@ == old(self).settings@,
            final(self).sched@ == old(self).sched@,
            final(self).snapshot == old(self).snapshot,
    {
        self.reload.begin();
        self.bridge.reload(new_source);
    }

    /// Run the script stage of a pass: push the snapshot and settings,
    /// re-evaluate the script, and — unless evaluation failed — pull the
    /// settings and line set and install them.
    ///
    /// A load or runtime failure aborts the pull: the previous settings
    /// and boxes stay in force and the error is returned. A marshalling
    /// failure is returned too, but only after the rest of the pass ran;
    /// on success the result counts the fields the engine refused. The
    /// stored source, counters, reload state and snapshot never change.
    pub fn run_script_pass(&mut self) -> (r: Result<usize, ScriptError>)
        requires
            old(self).wf(),
        ensures
            final(self).wf(),
            final(self).bridge@ == old(self).bridge@,
            final(self).sched@ == old(self).sched@,
            final(self).reload@ == old(self).reload@,
            final(self).snapshot == old(self).snapshot,
            (r matches Result::Err(e) && (e is Load || e is Runtime)) ==> {
                &&& final(self).settings@ == old(self).settings@
                &&& final(self).info_box.lines == old(self).info_box.lines
                &&& final(self).info_box.max_len == old(self).info_box.max_len
                &&& final(self).asci_box.lines == old(self).asci_box.lines
                &&& final(self).asci_box.max_len == old(self).asci_box.max_len
            },
            !(r matches Result::Err(e) && (e is Load || e is Runtime)) ==> {
                &&& final(self).settings@.rps >= 1
                &&& final(self).info_box.max_len == vstd::math::min(
                    spec_max_width(spec_line_views(final(self).info_box.lines@)),
                    usize::MAX as int,
                )
                &&& final(self).asci_box.lines@.len() == 10
                &&& (forall|i: int|
                    0 <= i < 10 ==> (#[trigger] final(self).asci_box.lines@[i])@.len() == 0)
                &&& final(self).asci_box.max_len == 30
            },
    {
        let marshal = self.bridge.push(&self.snapshot, self.settings.get());
        match self.bridge.evaluate() {
            Result::Err(e) => {
                return Result::Err(e);
            },
            Result::Ok(u) => {},
        }
        let (pulled, lines) = self.bridge.pull();
        self.settings.apply(pulled);
        let width = max_line_width(&lines);
        self.info_box = InfoBox { lines, max_len: width };
        let mut blank: Vec<Vec<Word>> = Vec::new();
        let mut i: usize = 0;
        while i < 10
            invariant
                i <= 10,
                blank@.len() == i,
                forall|k: int| 0 <= k < i ==> (#[trigger] blank@[k])@.len() == 0,
            decreases 10 - i,
        {
            blank.push(Vec::new());
            i = i + 1;
        }
        self.asci_box = AsciBox { lines: blank, max_len: 30 };
        match marshal {
            Result::Err(e) => Result::Err(e),
            Result::Ok(skipped) => Result::Ok(skipped),
        }
    }
}

} // verus!
