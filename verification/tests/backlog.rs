use sigma_racer_vehicle::fanout::{
    with_newline, Backlog, FlushStep, WriteOutcome, MAX_CLIENT_BACKLOG,
};

#[test]
fn with_newline_appends_one_delimiter() {
    assert_eq!(with_newline("{\"seq\":1}".to_string()), "{\"seq\":1}\n");
    assert_eq!(with_newline(String::new()), "\n");
    assert_eq!(with_newline("a\n".to_string()), "a\n\n");
}

#[test]
fn new_backlog_is_empty_and_keeps_client() {
    let b = Backlog::new();
    assert_eq!(b.len(), 0);
    assert_eq!(b.next_step(), FlushStep::Keep);
    assert!(b.head().is_empty());
}

#[test]
fn enqueue_then_head_is_prefix() {
    let mut b = Backlog::new();
    b.enqueue(b"hello ");
    b.enqueue(b"world");
    assert_eq!(b.len(), 11);
    assert_eq!(b.next_step(), FlushStep::Write);
    let head = b.head().to_vec();
    assert!(!head.is_empty());
    assert_eq!(&b"hello world"[..head.len()], &head[..]);
}

#[test]
fn partial_write_drops_front_bytes_in_order() {
    let mut b = Backlog::new();
    b.enqueue(b"abcdef");
    assert_eq!(b.on_write(WriteOutcome::Wrote(4)), FlushStep::Write);
    assert_eq!(b.len(), 2);
    assert_eq!(b.head(), b"ef");
    assert_eq!(b.on_write(WriteOutcome::Wrote(2)), FlushStep::Keep);
    assert_eq!(b.len(), 0);
}

#[test]
fn zero_byte_write_drops_client() {
    let mut b = Backlog::new();
    b.enqueue(b"x");
    assert_eq!(b.on_write(WriteOutcome::Wrote(0)), FlushStep::Drop);
    assert_eq!(b.len(), 1);
}

#[test]
fn hard_error_drops_client() {
    let mut b = Backlog::new();
    b.enqueue(b"x");
    assert_eq!(b.on_write(WriteOutcome::Failed), FlushStep::Drop);
    assert_eq!(b.len(), 1);
}

#[test]
fn interrupted_write_is_retried() {
    let mut b = Backlog::new();
    b.enqueue(b"xy");
    assert_eq!(b.on_write(WriteOutcome::Interrupted), FlushStep::Write);
    assert_eq!(b.len(), 2);
}

#[test]
fn would_block_keeps_client_up_to_cap() {
    let mut b = Backlog::new();
    b.enqueue(&vec![7u8; MAX_CLIENT_BACKLOG]);
    assert_eq!(b.on_write(WriteOutcome::WouldBlock), FlushStep::Keep);
    assert_eq!(b.len(), MAX_CLIENT_BACKLOG);
}

#[test]
fn would_block_past_cap_drops_client() {
    let mut b = Backlog::new();
    b.enqueue(&vec![7u8; MAX_CLIENT_BACKLOG + 1]);
    assert_eq!(b.on_write(WriteOutcome::WouldBlock), FlushStep::Drop);
}

#[test]
fn cap_is_256_kib() {
    assert_eq!(MAX_CLIENT_BACKLOG, 256 * 1024);
}

#[test]
fn later_bytes_stay_behind_pending_ones() {
    let mut b = Backlog::new();
    b.enqueue(b"first\n");
    assert_eq!(b.on_write(WriteOutcome::Wrote(3)), FlushStep::Write);
    b.enqueue(b"second\n");
    let mut sent = Vec::new();
    while b.next_step() == FlushStep::Write {
        let head = b.head().to_vec();
        let n = head.len().min(2);
        sent.extend_from_slice(&head[..n]);
        b.on_write(WriteOutcome::Wrote(n));
    }
    assert_eq!(sent, b"st\nsecond\n");
}

#[test]
fn head_is_non_empty_whenever_bytes_wait() {
    let mut b = Backlog::new();
    for round in 0..50usize {
        b.enqueue(&vec![round as u8; 7 + round]);
        let n = b.head().len();
        assert!(n > 0);
        let take = n.min(5);
        b.on_write(WriteOutcome::Wrote(take));
        if b.len() > 0 {
            assert!(!b.head().is_empty());
        }
    }
}
