use pumpkin::terminal::{restore, restore_terminal, save, save_terminal_state, TerminalSnapshot};

#[test]
fn save_and_restore_are_safe_without_a_tty() {
    // Without a terminal `save` records nothing and `restore` becomes a
    // no-op. Both are safe to call, restore several times.
    let mut snapshot: TerminalSnapshot<u32> = TerminalSnapshot::new();
    save_terminal_state(&mut snapshot, false, None);
    assert_eq!(restore_terminal(&snapshot), None);
    assert_eq!(restore_terminal(&snapshot), None);
}

#[test]
fn restore_gives_back_what_was_saved() {
    let mut snapshot: TerminalSnapshot<u32> = TerminalSnapshot::new();
    save_terminal_state(&mut snapshot, true, Some(42));
    assert_eq!(restore_terminal(&snapshot), Some(&42));
    assert_eq!(restore_terminal(&snapshot), Some(&42));
}

#[test]
fn first_snapshot_wins() {
    let mut snapshot: TerminalSnapshot<u32> = TerminalSnapshot::new();
    save(&mut snapshot, true, Some(1));
    save(&mut snapshot, true, Some(2));
    save(&mut snapshot, false, Some(3));
    assert_eq!(restore(&snapshot), Some(&1));
}

#[test]
fn failed_query_saves_nothing() {
    let mut snapshot: TerminalSnapshot<u32> = TerminalSnapshot::new();
    save(&mut snapshot, true, None);
    assert_eq!(restore(&snapshot), None);
    save(&mut snapshot, true, Some(7));
    assert_eq!(restore(&snapshot), Some(&7));
}

#[test]
fn no_tty_ignores_query() {
    let mut snapshot: TerminalSnapshot<u32> = TerminalSnapshot::new();
    save(&mut snapshot, false, Some(7));
    assert_eq!(restore(&snapshot), None);
}
