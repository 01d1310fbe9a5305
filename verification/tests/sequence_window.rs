use caushell::sequence::{CommandSequenceNo, SequenceWindow};

#[test]
fn empty_sequence_window_accepts_all_sequence_numbers() {
    let window = SequenceWindow::new();

    assert!(window.contains(CommandSequenceNo::new(1)));
    assert!(window.contains(CommandSequenceNo::new(99)));
}

#[test]
fn sequence_window_applies_strict_after_bound() {
    let window = SequenceWindow::new().after_sequence(CommandSequenceNo::new(3));

    assert!(!window.contains(CommandSequenceNo::new(3)));
    assert!(window.contains(CommandSequenceNo::new(4)));
}

#[test]
fn sequence_window_applies_strict_before_bound() {
    let window = SequenceWindow::new().before_sequence(CommandSequenceNo::new(8));

    assert!(window.contains(CommandSequenceNo::new(7)));
    assert!(!window.contains(CommandSequenceNo::new(8)));
}

#[test]
fn sequence_window_combines_after_and_before_bounds() {
    let window = SequenceWindow::new()
        .after_sequence(CommandSequenceNo::new(3))
        .before_sequence(CommandSequenceNo::new(8));

    assert!(!window.contains(CommandSequenceNo::new(3)));
    assert!(window.contains(CommandSequenceNo::new(4)));
    assert!(window.contains(CommandSequenceNo::new(7)));
    assert!(!window.contains(CommandSequenceNo::new(8)));
}

#[test]
fn sequence_window_bounds_are_reported() {
    let window = SequenceWindow::new()
        .after_sequence(CommandSequenceNo::new(3))
        .before_sequence(CommandSequenceNo::new(8));

    assert_eq!(window.after_bound(), Some(CommandSequenceNo::new(3)));
    assert_eq!(window.before_bound(), Some(CommandSequenceNo::new(8)));
    assert_eq!(SequenceWindow::new().after_bound(), None);
}
