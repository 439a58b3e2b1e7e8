use sr::error::SrError;
use sr::relay::{Directive, Endpoint, PollEvent, ReadOutcome, Relay, SLAVE_GONE_ERRNO};

fn readable(endpoint: Endpoint) -> PollEvent {
    PollEvent { endpoint, readable: true, closed_or_error: false }
}

#[test]
fn classify_directives() {
    let r = Relay::new();
    assert_eq!(r.classify(&readable(Endpoint::Master)), Directive::ReadMaster);
    assert_eq!(r.classify(&readable(Endpoint::StdinTerminal)), Directive::ReadStdin);
    let closed = PollEvent { endpoint: Endpoint::Master, readable: true, closed_or_error: true };
    assert_eq!(r.classify(&closed), Directive::MarkEnd);
    let idle = PollEvent { endpoint: Endpoint::StdinTerminal, readable: false, closed_or_error: false };
    assert_eq!(r.classify(&idle), Directive::Skip);
}

#[test]
fn byte_fidelity_both_sinks_get_the_same_bytes() {
    // The test plays the surrounding binary: it performs the writes the
    // relay directs, into two growing buffers.
    let mut relay = Relay::new();
    let mut terminal: Vec<u8> = Vec::new();
    let mut capture: Vec<u8> = Vec::new();
    for chunk in [b"hel".to_vec(), b"lo\n".to_vec(), b"\x1b[1mbold\x1b[0m".to_vec()] {
        let out = relay
            .absorb_master_read(ReadOutcome::Data(chunk.clone()))
            .expect("data is not an error");
        let bytes = out.expect("data yields bytes to write");
        assert_eq!(bytes, chunk);
        terminal.extend_from_slice(&bytes);
        capture.extend_from_slice(&bytes);
    }
    assert_eq!(terminal, capture);
    assert_eq!(capture, b"hello\n\x1b[1mbold\x1b[0m".to_vec());
    assert!(!relay.should_stop());
}

#[test]
fn master_eof_terminates_alone() {
    let mut relay = Relay::new();
    let out = relay.absorb_master_read(ReadOutcome::Eof).expect("eof is not an error");
    assert!(out.is_none());
    assert!(relay.should_stop());
}

#[test]
fn stdin_eof_terminates_alone() {
    let mut relay = Relay::new();
    let out = relay.absorb_stdin_read(ReadOutcome::Eof).expect("eof is not an error");
    assert!(out.is_none());
    assert!(relay.should_stop());
}

#[test]
fn closed_event_marks_end() {
    let mut relay = Relay::new();
    relay.mark_end();
    assert!(relay.should_stop());
}

#[test]
fn stdin_bytes_go_to_master() {
    let mut relay = Relay::new();
    let out = relay
        .absorb_stdin_read(ReadOutcome::Data(b"ls\r".to_vec()))
        .expect("data is not an error");
    assert_eq!(out.expect("data yields bytes to write"), b"ls\r".to_vec());
    assert!(!relay.should_stop());
}

#[test]
fn slave_gone_is_clean_termination() {
    // Scenario: a write to the pty master fails with the slave-gone errno.
    // The loop ends cleanly; no fatal error is reported.
    let mut relay = Relay::new();
    let sent = relay
        .absorb_stdin_read(ReadOutcome::Data(b"q\r".to_vec()))
        .expect("data is not an error");
    assert!(sent.is_some());
    let verdict = relay.absorb_master_write(Err(SLAVE_GONE_ERRNO));
    assert_eq!(verdict, Ok(()));
    assert!(relay.should_stop());
}

#[test]
fn other_master_write_failure_is_fatal() {
    let mut relay = Relay::new();
    let verdict = relay.absorb_master_write(Err(32));
    assert_eq!(verdict, Err(SrError::RelayIO(32)));
    assert!(relay.should_stop());
}

#[test]
fn successful_master_write_continues() {
    let mut relay = Relay::new();
    assert_eq!(relay.absorb_master_write(Ok(())), Ok(()));
    assert!(!relay.should_stop());
}

#[test]
fn output_write_failure_is_fatal() {
    let mut relay = Relay::new();
    assert_eq!(relay.absorb_output_write(Ok(())), Ok(()));
    assert!(!relay.should_stop());
    let verdict = relay.absorb_output_write(Err(9));
    assert_eq!(verdict, Err(SrError::RelayIO(9)));
    assert!(relay.should_stop());
}

#[test]
fn failed_read_is_fatal() {
    let mut relay = Relay::new();
    let verdict = relay.absorb_master_read(ReadOutcome::Failed(11));
    assert_eq!(verdict.expect_err("a failed read is fatal"), SrError::RelayIO(11));
    assert!(relay.should_stop());
}
