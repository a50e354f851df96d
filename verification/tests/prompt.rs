use vex_term::prompt::{History, MAX_ENTRY_BYTES, MAX_HISTORY_BYTES, MAX_HISTORY_ENTRIES};

#[test]
fn history_is_partitioned_clamped_deduplicated_and_bounded() {
    let mut history = History::default();
    history.push(':', "write");
    history.push('/', "needle");
    history.push(':', "help");
    history.push(':', "help");
    let mut position = None;
    for expected in ["help", "write", "write"] {
        assert_eq!(
            history.step(':', &mut position, true).as_deref(),
            Some(expected)
        );
    }
    assert_eq!(
        history.step(':', &mut position, false).as_deref(),
        Some("help")
    );
    assert_eq!(history.last('/').as_deref(), Some("needle"));
    for n in 0..200 {
        history.push(':', &n.to_string());
    }
    assert_eq!(history.entries.len(), MAX_HISTORY_ENTRIES);
    for n in 0..10 {
        history.push(':', &format!("{n}{}", "x".repeat(MAX_ENTRY_BYTES - 1)));
    }
    assert!(history.bytes <= MAX_HISTORY_BYTES);
    assert_eq!(history.entries.len(), 4);
    history.push(':', &"x".repeat(MAX_ENTRY_BYTES + 1));
    assert_eq!(history.entries.len(), 4);
}

#[test]
fn steps_stay_between_the_oldest_and_the_newest_text() {
    let mut history = History::default();
    history.push('/', "one");
    history.push('/', "two");
    history.push('/', "");
    let mut position = None;
    assert_eq!(history.step('/', &mut position, true).as_deref(), Some("two"));
    assert_eq!(history.step('/', &mut position, false).as_deref(), Some("two"));
    assert_eq!(history.step('/', &mut position, true).as_deref(), Some("one"));
    assert_eq!(history.step('/', &mut position, true).as_deref(), Some("one"));
    let mut position = None;
    assert_eq!(history.step('/', &mut position, false).as_deref(), Some("one"));
    assert_eq!(history.step('x', &mut None, true), None);
    assert_eq!(history.last('x'), None);
}
