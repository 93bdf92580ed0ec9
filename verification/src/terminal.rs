//! Terminal (TTY) state restoration.
//!
//! The line reader switches the terminal into raw mode while it reads a line
//! and restores the previous state through a guard once the read returns. When
//! the process exits while the reader is still blocked, that guard never runs
//! and the terminal is left in raw mode. So the terminal attributes are
//! snapshotted before the reader ever enters raw mode and restored explicitly
//! on every exit path.
//!
//! This module keeps the snapshot and decides what to save and what to
//! restore; the caller queries and sets the attributes of standard input.

use vstd::prelude::*;

verus! {

/// The snapshot of the terminal attributes `A`: empty until the first
/// successful save, and never replaced afterwards.
pub struct TerminalSnapshot<A> {
    original: Option<A>,
}

impl<A> View for TerminalSnapshot<A> {
    type V = Option<A>;

    closed spec fn view(&self) -> Option<A> {
        self.original
    }
}

/// The snapshot after a save: only the first successful query of a terminal
/// is kept.
pub open spec fn spec_save<A>(snapshot: Option<A>, is_tty: bool, queried: Option<A>) -> Option<A> {
    if is_tty && snapshot is None {
        queried
    } else {
        snapshot
    }
}

impl<A> TerminalSnapshot<A> {
    /// No snapshot taken yet.
    pub fn new() -> (snapshot: Self)
        ensures
            snapshot@ is None,
    {
        TerminalSnapshot { original: None }
    }
}

/// Record the attributes of standard input. `is_tty` says whether standard
/// input is a terminal; `queried` is what reading its attributes gave (`None`
/// when that failed or was not attempted). Does nothing when standard input is
/// not a terminal or when a snapshot has already been taken.
pub fn save<A>(snapshot: &mut TerminalSnapshot<A>, is_tty: bool, queried: Option<A>)
    ensures
        final(snapshot)@ == spec_save(old(snapshot)@, is_tty, queried),
        old(snapshot)@ is Some ==> final(snapshot)@ == old(snapshot)@,
        !is_tty ==> final(snapshot)@ == old(snapshot)@,
        is_tty && old(snapshot)@ is None ==> final(snapshot)@ == queried,
{
    if is_tty && snapshot.original.is_none() {
        snapshot.original = queried;
    }
}

/// The attributes to put back on standard input, if a snapshot was taken.
/// Safe to call any number of times; it does nothing when no snapshot exists.
pub fn restore<A>(snapshot: &TerminalSnapshot<A>) -> (attributes: Option<&A>)
    ensures
        match attributes {
            Some(a) => snapshot@ == Some(*a),
            None => snapshot@ is None,
        },
{
    snapshot.original.as_ref()
}

/// Snapshot the terminal state before the interactive console enters raw mode.
pub fn save_terminal_state<A>(snapshot: &mut TerminalSnapshot<A>, is_tty: bool, queried: Option<A>)
    ensures
        final(snapshot)@ == spec_save(old(snapshot)@, is_tty, queried),
        old(snapshot)@ is Some ==> final(snapshot)@ == old(snapshot)@,
        !is_tty ==> final(snapshot)@ == old(snapshot)@,
        is_tty && old(snapshot)@ is None ==> final(snapshot)@ == queried,
{
    save(snapshot, is_tty, queried);
}

/// The attributes that restore the terminal to the state captured by
/// `save_terminal_state`. To be called on every path that terminates the
/// process while the console reader may hold the terminal in raw mode.
pub fn restore_terminal<A>(snapshot: &TerminalSnapshot<A>) -> (attributes: Option<&A>)
    ensures
        match attributes {
            Some(a) => snapshot@ == Some(*a),
            None => snapshot@ is None,
        },
{
    restore(snapshot)
}

/// Restoring after a successful save of a terminal gives back the saved
/// attributes, whatever was saved or attempted later.
pub proof fn lemma_restore_gives_first_saved<A>(
    first: A,
    later_is_tty: bool,
    later_queried: Option<A>,
)
    ensures
        spec_save(None, true, Some(first)) == Some(first),
        spec_save(Some(first), later_is_tty, later_queried) == Some(first),
{
}

/// Without a terminal nothing is saved.
pub proof fn lemma_no_tty_saves_nothing<A>(snapshot: Option<A>, queried: Option<A>)
    ensures
        spec_save(snapshot, false, queried) == snapshot,
{
}

/// Saving twice with the same outcome is the same as saving once.
pub proof fn lemma_save_is_idempotent<A>(snapshot: Option<A>, is_tty: bool, queried: Option<A>)
    ensures
        spec_save(spec_save(snapshot, is_tty, queried), is_tty, queried) == spec_save(
            snapshot,
            is_tty,
            queried,
        ),
{
}

} // verus!
