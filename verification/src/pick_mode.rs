//! The pick-mode controller: a two-state machine (idle or picking) driven by
//! serialized external events, deciding which window, cursor and
//! notification actions the dispatcher must perform.

use vstd::prelude::*;

verus! {

/// Controller state: is pick mode active.
#[derive(Debug, Clone, Copy, PartialEq, Eq, Structural)]
pub struct PickMode {
    pub active: bool,
}

/// An external event funneled through the serialized dispatcher. For events
/// that commit a pick, `sample_ok` reports whether the pixel sample the
/// dispatcher took came back successfully; a failed sample must not be
/// interpreted as a commit.
#[derive(Debug, Clone, Copy, PartialEq, Eq, Structural)]
pub enum PickModeEvent {
    /// A UI button or the tray menu asked to start pick mode.
    StartRequested,
    /// A UI button asked to stop pick mode without picking.
    StopRequested,
    /// A UI button asked to commit a pick right now.
    PickRequested { sample_ok: bool },
    /// The global pick shortcut was pressed: starts pick mode when idle,
    /// commits a pick when already picking.
    HotkeyPressed { sample_ok: bool },
    /// Escape was pressed: cancels pick mode if it is active.
    EscapePressed,
}

/// An action the dispatcher performs on the collaborators outside the core:
/// window visibility, cursor synthesis and restoration, event notification.
#[derive(Debug, Clone, Copy, PartialEq, Eq, Structural)]
pub enum PickModeAction {
    HideWindow,
    ShowWindow,
    InstallCursor,
    RestoreCursor,
    EmitStarted,
    EmitStopped,
    EmitPicked,
}

/// The actions that enter pick mode.
pub open spec fn start_actions() -> Seq<PickModeAction> {
    seq![
        PickModeAction::HideWindow,
        PickModeAction::InstallCursor,
        PickModeAction::EmitStarted,
    ]
}

/// The actions that commit a pick and leave pick mode.
pub open spec fn pick_actions() -> Seq<PickModeAction> {
    seq![PickModeAction::RestoreCursor, PickModeAction::ShowWindow, PickModeAction::EmitPicked]
}

/// The actions that leave pick mode without a pick.
pub open spec fn stop_actions() -> Seq<PickModeAction> {
    seq![PickModeAction::RestoreCursor, PickModeAction::ShowWindow, PickModeAction::EmitStopped]
}

impl PickMode {
    /// The controller starts idle.
    pub fn new() -> (m: Self)
        ensures
            !m.active,
    {
        PickMode { active: false }
    }
}

/// A global-shortcut candidate for entering pick mode: its modifier keys,
/// its letter key, and the label shown to the user.
#[derive(Debug, Clone)]
pub struct ShortcutCandidate {
    pub super_key: bool,
    pub ctrl: bool,
    pub shift: bool,
    pub alt: bool,
    pub key: char,
    pub label: String,
}

impl ShortcutCandidate {
    /// The candidate's modifier flags and key, as one tuple.
    pub open spec fn keys(self) -> (bool, bool, bool, bool, char) {
        (self.super_key, self.ctrl, self.shift, self.alt, self.key)
    }
}

/// The pick shortcuts to try registering, in order of preference; the
/// dispatcher keeps the first one the OS accepts.
pub fn pick_shortcut_candidates() -> (cands: Vec<ShortcutCandidate>)
    ensures
        cands@.len() == 5,
        cands@[0].keys() == (true, false, true, false, 'C') && cands@[0].label@ == "Win+Shift+C"@,
        cands@[1].keys() == (false, true, true, false, 'C') && cands@[1].label@ == "Ctrl+Shift+C"@,
        cands@[2].keys() == (true, false, true, false, 'P') && cands@[2].label@ == "Win+Shift+P"@,
        cands@[3].keys() == (false, true, false, true, 'C') && cands@[3].label@ == "Ctrl+Alt+C"@,
        cands@[4].keys() == (true, false, false, true, 'C') && cands@[4].label@ == "Win+Alt+C"@,
{
    let mut cands: Vec<ShortcutCandidate> = Vec::new();
    cands.push(
        ShortcutCandidate {
            super_key: true,
            ctrl: false,
            shift: true,
            alt: false,
            key: 'C',
            label: "Win+Shift+C".to_owned(),
        },
    );
    cands.push(
        ShortcutCandidate {
            super_key: false,
            ctrl: true,
            shift: true,
            alt: false,
            key: 'C',
            label: "Ctrl+Shift+C".to_owned(),
        },
    );
    cands.push(
        ShortcutCandidate {
            super_key: true,
            ctrl: false,
            shift: true,
            alt: false,
            key: 'P',
            label: "Win+Shift+P".to_owned(),
        },
    );
    cands.push(
        ShortcutCandidate {
            super_key: false,
            ctrl: true,
            shift: false,
            alt: true,
            key: 'C',
            label: "Ctrl+Alt+C".to_owned(),
        },
    );
    cands.push(
        ShortcutCandidate {
            super_key: true,
            ctrl: false,
            shift: false,
            alt: true,
            key: 'C',
            label: "Win+Alt+C".to_owned(),
        },
    );
    cands
}

/// Report whether pick mode is active.
pub fn is_pick_mode_active(mode: &PickMode) -> (b: bool)
    ensures
        b == mode.active,
{
    mode.active
}

/// Advance the controller by one event and return the actions the
/// dispatcher must perform, in order. The transition table:
/// start requests always enter pick mode; stop requests always leave it;
/// a pick commits (and leaves) only when its sample succeeded; the hotkey
/// starts when idle and otherwise behaves as a pick; Escape cancels only
/// when picking. Everything else changes nothing and asks for nothing.
pub fn pick_mode_step(mode: &mut PickMode, event: PickModeEvent) -> (acts: Vec<PickModeAction>)
    ensures
        match event {
            PickModeEvent::StartRequested => final(mode).active && acts@ == start_actions(),
            PickModeEvent::StopRequested => !final(mode).active && acts@ == stop_actions(),
            PickModeEvent::PickRequested { sample_ok } => if sample_ok {
                !final(mode).active && acts@ == pick_actions()
            } else {
                *final(mode) == *old(mode) && acts@ == Seq::<PickModeAction>::empty()
            },
            PickModeEvent::HotkeyPressed { sample_ok } => if !old(mode).active {
                final(mode).active && acts@ == start_actions()
            } else if sample_ok {
                !final(mode).active && acts@ == pick_actions()
            } else {
                *final(mode) == *old(mode) && acts@ == Seq::<PickModeAction>::empty()
            },
            PickModeEvent::EscapePressed => if old(mode).active {
                !final(mode).active && acts@ == stop_actions()
            } else {
                *final(mode) == *old(mode) && acts@ == Seq::<PickModeAction>::empty()
            },
        },
{
    match event {
        PickModeEvent::StartRequested => start_transition(mode),
        PickModeEvent::StopRequested => stop_transition(mode),
        PickModeEvent::PickRequested { sample_ok } => {
            if sample_ok {
                pick_transition(mode)
            } else {
                Vec::new()
            }
        },
        PickModeEvent::HotkeyPressed { sample_ok } => {
            if !mode.active {
                start_transition(mode)
            } else if sample_ok {
                pick_transition(mode)
            } else {
                Vec::new()
            }
        },
        PickModeEvent::EscapePressed => {
            if mode.active {
                stop_transition(mode)
            } else {
                Vec::new()
            }
        },
    }
}

/// Enter pick mode: hide the window, install the pick cursor, notify.
fn start_transition(mode: &mut PickMode) -> (acts: Vec<PickModeAction>)
    ensures
        final(mode).active,
        acts@ == start_actions(),
{
    mode.active = true;
    let mut acts: Vec<PickModeAction> = Vec::new();
    acts.push(PickModeAction::HideWindow);
    acts.push(PickModeAction::InstallCursor);
    acts.push(PickModeAction::EmitStarted);
    proof {
        assert(acts@ =~= start_actions());
    }
    acts
}

/// Commit a pick: restore the cursor, show the window, emit the color.
fn pick_transition(mode: &mut PickMode) -> (acts: Vec<PickModeAction>)
    ensures
        !final(mode).active,
        acts@ == pick_actions(),
{
    mode.active = false;
    let mut acts: Vec<PickModeAction> = Vec::new();
    acts.push(PickModeAction::RestoreCursor);
    acts.push(PickModeAction::ShowWindow);
    acts.push(PickModeAction::EmitPicked);
    proof {
        assert(acts@ =~= pick_actions());
    }
    acts
}

/// Leave pick mode without a pick: restore the cursor, show the window,
/// notify.
fn stop_transition(mode: &mut PickMode) -> (acts: Vec<PickModeAction>)
    ensures
        !final(mode).active,
        acts@ == stop_actions(),
{
    mode.active = false;
    let mut acts: Vec<PickModeAction> = Vec::new();
    acts.push(PickModeAction::RestoreCursor);
    acts.push(PickModeAction::ShowWindow);
    acts.push(PickModeAction::EmitStopped);
    proof {
        assert(acts@ =~= stop_actions());
    }
    acts
}

} // verus!
