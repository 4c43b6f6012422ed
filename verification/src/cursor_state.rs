//! System-cursor state: has the default OS pointer been replaced by a
//! synthesized one. Restoration is idempotent on this flag, and a forced
//! restoration at process start recovers from an earlier unclean exit.

use vstd::prelude::*;

verus! {

/// Process-wide record of whether the OS pointer glyph has been replaced.
#[derive(Debug, Clone, Copy, PartialEq, Eq, Structural)]
pub struct SystemCursorState {
    pub changed: bool,
}

/// What a restoration does: the flag is cleared unconditionally, and the OS
/// call is issued exactly when the flag was set.
pub open spec fn spec_restore(s: SystemCursorState) -> (SystemCursorState, bool) {
    (SystemCursorState { changed: false }, s.changed)
}

/// Two restorations in a row: after the first clears the flag, the second
/// issues no OS call.
pub proof fn lemma_second_restore_is_noop(s: SystemCursorState)
    ensures
        !spec_restore(spec_restore(s).0).1,
{
}

impl SystemCursorState {
    /// At process start nothing has been changed yet.
    pub fn new() -> (s: Self)
        ensures
            !s.changed,
    {
        SystemCursorState { changed: false }
    }

    /// Record the outcome of an attempt to install a synthesized cursor: the
    /// flag is set only by a successful installation and is never cleared
    /// here.
    pub fn note_install_result(&mut self, installed: bool)
        ensures
            final(self).changed == (old(self).changed || installed),
    {
        if installed {
            self.changed = true;
        }
    }
}

/// Decide a restoration of the default cursor: report whether the OS
/// "reload default cursors" call must be issued, and clear the flag
/// unconditionally so a failed OS call cannot leave a customization
/// believed active forever.
pub fn restore_default_cursor(state: &mut SystemCursorState) -> (issue_os_call: bool)
    ensures
        (*final(state), issue_os_call) == spec_restore(*old(state)),
        issue_os_call == old(state).changed,
        !final(state).changed,
{
    let issue = state.changed;
    state.changed = false;
    issue
}

/// Decide the crash-recovery restoration run once at process start: the OS
/// call is issued unconditionally, whatever the in-memory flag says, since a
/// previous process instance may have died with the cursor replaced.
pub fn force_restore_default_cursor(state: &mut SystemCursorState) -> (issue_os_call: bool)
    ensures
        issue_os_call == true,
        !final(state).changed,
{
    state.changed = false;
    true
}

} // verus!
