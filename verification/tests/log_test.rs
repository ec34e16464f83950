use cerke_bot::logbuf::LogBuffer;

#[test]
fn empty_log_renders_empty() {
    let log = LogBuffer::new();
    assert_eq!(log.render_log(), "");
}

#[test]
fn single_entry_has_no_newline() {
    let mut log = LogBuffer::new();
    log.append("a".to_string());
    assert_eq!(log.render_log(), "a");
}

#[test]
fn entries_join_in_insertion_order() {
    let mut log = LogBuffer::new();
    log.append("a".to_string());
    log.append("b".to_string());
    log.append("c".to_string());
    assert_eq!(log.render_log(), "a\nb\nc");
}

#[test]
fn log_only_grows() {
    let mut log = LogBuffer::new();
    log.append("first message".to_string());
    assert_eq!(log.render_log(), "first message");
    log.append("second message".to_string());
    assert_eq!(log.render_log(), "first message\nsecond message");
}
