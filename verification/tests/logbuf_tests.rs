use nodepass_gui::logbuf::LogBuffer;

#[test]
fn append_keeps_order() {
    let mut b = LogBuffer::new();
    b.append("one".to_string());
    b.append("two".to_string());
    assert_eq!(b.snapshot(), vec!["one".to_string(), "two".to_string()]);
}

#[test]
fn capacity_is_never_exceeded_and_last_line_is_newest() {
    let mut b = LogBuffer::new();
    for i in 0..1700 {
        b.append(format!("line {}", i));
        assert!(b.len() <= 500);
        let snap = b.snapshot();
        assert_eq!(snap.last().unwrap(), &format!("line {}", i));
    }
}

#[test]
fn eviction_drops_oldest_block() {
    let mut b = LogBuffer::new();
    for i in 0..501 {
        b.append(format!("{}", i));
    }
    // 501 appends exceed the capacity once: the oldest 100 lines leave.
    assert_eq!(b.len(), 401);
    let snap = b.snapshot();
    assert_eq!(snap[0], "100");
    assert_eq!(snap[400], "500");
}

#[test]
fn empty_buffer_snapshot_is_empty() {
    let b = LogBuffer::new();
    assert_eq!(b.len(), 0);
    assert!(b.snapshot().is_empty());
}
