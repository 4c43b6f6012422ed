use colorsnap::pick_mode::{
    is_pick_mode_active, pick_mode_step, pick_shortcut_candidates, PickMode, PickModeAction,
    PickModeEvent,
};

#[test]
fn shortcut_candidates_in_order_of_preference() {
    let cands = pick_shortcut_candidates();
    let labels: Vec<&str> = cands.iter().map(|c| c.label.as_str()).collect();
    assert_eq!(
        labels,
        vec!["Win+Shift+C", "Ctrl+Shift+C", "Win+Shift+P", "Ctrl+Alt+C", "Win+Alt+C"]
    );
    assert!(cands[0].super_key && cands[0].shift && !cands[0].ctrl && !cands[0].alt);
    assert_eq!(cands[0].key, 'C');
    assert_eq!(cands[2].key, 'P');
    assert!(cands[3].ctrl && cands[3].alt);
}

#[test]
fn controller_starts_idle() {
    let m = PickMode::new();
    assert!(!is_pick_mode_active(&m));
}

#[test]
fn start_enters_pick_mode_with_cursor_and_window_actions() {
    let mut m = PickMode::new();
    let acts = pick_mode_step(&mut m, PickModeEvent::StartRequested);
    assert!(m.active);
    assert_eq!(
        acts,
        vec![
            PickModeAction::HideWindow,
            PickModeAction::InstallCursor,
            PickModeAction::EmitStarted,
        ]
    );
}

#[test]
fn stop_leaves_pick_mode_and_restores() {
    let mut m = PickMode { active: true };
    let acts = pick_mode_step(&mut m, PickModeEvent::StopRequested);
    assert!(!m.active);
    assert_eq!(
        acts,
        vec![
            PickModeAction::RestoreCursor,
            PickModeAction::ShowWindow,
            PickModeAction::EmitStopped,
        ]
    );
}

#[test]
fn successful_pick_commits_and_leaves() {
    let mut m = PickMode { active: true };
    let acts = pick_mode_step(&mut m, PickModeEvent::PickRequested { sample_ok: true });
    assert!(!m.active);
    assert_eq!(
        acts,
        vec![
            PickModeAction::RestoreCursor,
            PickModeAction::ShowWindow,
            PickModeAction::EmitPicked,
        ]
    );
}

#[test]
fn failed_sample_is_not_a_commit() {
    let mut m = PickMode { active: true };
    let acts = pick_mode_step(&mut m, PickModeEvent::PickRequested { sample_ok: false });
    assert!(m.active);
    assert!(acts.is_empty());
}

#[test]
fn hotkey_starts_when_idle() {
    let mut m = PickMode::new();
    let acts = pick_mode_step(&mut m, PickModeEvent::HotkeyPressed { sample_ok: true });
    assert!(m.active);
    assert_eq!(acts[2], PickModeAction::EmitStarted);
}

#[test]
fn hotkey_picks_when_active() {
    let mut m = PickMode { active: true };
    let acts = pick_mode_step(&mut m, PickModeEvent::HotkeyPressed { sample_ok: true });
    assert!(!m.active);
    assert_eq!(acts[2], PickModeAction::EmitPicked);
}

#[test]
fn hotkey_with_failed_sample_keeps_picking() {
    let mut m = PickMode { active: true };
    let acts = pick_mode_step(&mut m, PickModeEvent::HotkeyPressed { sample_ok: false });
    assert!(m.active);
    assert!(acts.is_empty());
}

#[test]
fn escape_cancels_only_when_picking() {
    let mut m = PickMode { active: true };
    let acts = pick_mode_step(&mut m, PickModeEvent::EscapePressed);
    assert!(!m.active);
    assert_eq!(
        acts,
        vec![
            PickModeAction::RestoreCursor,
            PickModeAction::ShowWindow,
            PickModeAction::EmitStopped,
        ]
    );

    let mut idle = PickMode::new();
    let none = pick_mode_step(&mut idle, PickModeEvent::EscapePressed);
    assert!(!idle.active);
    assert!(none.is_empty());
}
