use locaray::diagnostics::DiagnosticBuffer;

#[test]
fn evicts_old_entries_at_the_byte_limit() {
    let mut buffer = DiagnosticBuffer::new(6);
    buffer.push("first");
    buffer.push("two");
    buffer.push("last");

    assert_eq!(buffer.entries(), vec!["last"]);
}

#[test]
fn retains_only_the_bounded_tail_of_a_large_entry() {
    let mut buffer = DiagnosticBuffer::new(4);
    buffer.push("123456");

    assert_eq!(buffer.entries(), vec!["3456"]);
}

#[test]
fn a_zero_limit_retains_nothing() {
    let mut buffer = DiagnosticBuffer::new(0);
    buffer.push("discarded");

    assert_eq!(buffer.entries().len(), 0);
}

#[test]
fn keeps_every_entry_that_fits() {
    let mut buffer = DiagnosticBuffer::new(10);
    buffer.push("ab");
    buffer.push("cd");
    buffer.push("ef");
    assert_eq!(buffer.snapshot(), vec!["ab", "cd", "ef"]);
    buffer.push("ghijk");
    assert_eq!(buffer.snapshot(), vec!["cd", "ef", "ghijk"]);
}

#[test]
fn a_cut_entry_is_decoded_leniently() {
    let mut buffer = DiagnosticBuffer::new(2);
    buffer.push("a\u{e9}");
    assert_eq!(buffer.entries(), vec!["\u{e9}"]);

    let mut narrow = DiagnosticBuffer::new(1);
    narrow.push("\u{e9}");
    assert!(narrow.entries().is_empty());
}

#[test]
fn clear_empties_the_buffer() {
    let mut buffer = DiagnosticBuffer::new(8);
    buffer.push("one");
    buffer.clear();
    assert!(buffer.snapshot().is_empty());
    buffer.push("two");
    assert_eq!(buffer.snapshot(), vec!["two"]);
}

#[test]
fn any_limit_is_accepted() {
    let mut buffer = DiagnosticBuffer::new(usize::MAX);
    buffer.push("first");
    buffer.push("second");
    assert_eq!(buffer.entries(), vec!["first", "second"]);
}
