use sr::write_plan::WriteProgress;

#[test]
fn request_completes_only_when_every_byte_is_sent() {
    let mut progress = WriteProgress::new(10);
    assert!(!progress.is_complete());
    assert_eq!(progress.offset(), 0);
    assert_eq!(progress.remaining(), 10);

    progress.advance(4);
    assert!(!progress.is_complete());
    assert_eq!(progress.offset(), 4);
    assert_eq!(progress.remaining(), 6);

    progress.advance(3);
    assert!(!progress.is_complete());
    assert_eq!(progress.offset(), 7);
    assert_eq!(progress.remaining(), 3);

    progress.advance(3);
    assert!(progress.is_complete());
    assert_eq!(progress.remaining(), 0);
}

#[test]
fn empty_request_is_complete_at_once() {
    let progress = WriteProgress::new(0);
    assert!(progress.is_complete());
}

#[test]
fn single_full_write_completes() {
    let mut progress = WriteProgress::new(6);
    progress.advance(6);
    assert!(progress.is_complete());
}

#[test]
fn driving_a_buffer_through_partial_writes() {
    // The test plays the surrounding binary's write loop: each simulated
    // call transmits at most three bytes starting at the reported offset.
    let buf: &[u8] = b"hello, world";
    let mut sent: Vec<u8> = Vec::new();
    let mut progress = WriteProgress::new(buf.len());
    while !progress.is_complete() {
        let start = progress.offset();
        let count = progress.remaining().min(3);
        sent.extend_from_slice(&buf[start..start + count]);
        progress.advance(count);
    }
    assert_eq!(sent.as_slice(), buf);
}
