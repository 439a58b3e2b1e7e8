use sr::error::SrError;
use sr::footer::{footer_line, make_footer};
use sr::relay::{ReadOutcome, Relay};
use sr::session::{
    finish_notice, resolve_shell, session_verdict, start_notice, SpawnOutcome, NO_SHELL_ERRNO,
};
use sr::term::{TermAttrs, TerminalLifecycle, WinSize};

const FOOTER_PREFIX: &str = "\nsr recording done on ";

fn plain_attrs() -> TermAttrs {
    TermAttrs {
        input_flags: 0x500,
        output_flags: 0x1,
        control_flags: 0xbf,
        local_flags: 0x8a3b,
        cc_min: 1,
        cc_time: 0,
    }
}

#[test]
fn footer_line_has_the_exact_form() {
    let line = footer_line("Thu, 1 Jan 1970 00:00:00 +0000");
    assert_eq!(line, "\nsr recording done on Thu, 1 Jan 1970 00:00:00 +0000");
}

#[test]
fn footer_carries_a_valid_rfc2822_timestamp() {
    let footer = make_footer();
    let ts = footer
        .strip_prefix(FOOTER_PREFIX)
        .expect("footer starts with the tool identifier");
    assert!(chrono::DateTime::parse_from_rfc2822(ts).is_ok());
}

#[test]
fn footer_timestamp_has_the_rfc2822_shape() {
    let footer = make_footer();
    assert!(footer.len() == 52 || footer.len() == 53);
    let ts = footer
        .strip_prefix(FOOTER_PREFIX)
        .expect("footer starts with the tool identifier");
    assert!(ts.len() == 30 || ts.len() == 31);
    let d = ts.len() - 30;
    let b = ts.as_bytes();
    assert!(b[0].is_ascii_alphabetic() && b[1].is_ascii_alphabetic() && b[2].is_ascii_alphabetic());
    assert_eq!(b[3], b',');
    assert_eq!(b[4], b' ');
    assert!(b[5].is_ascii_digit());
    assert_eq!(b[6 + d], b' ');
    assert!(b[7 + d].is_ascii_alphabetic());
    assert_eq!(b[10 + d], b' ');
    assert!(b[11 + d].is_ascii_digit() && b[14 + d].is_ascii_digit());
    assert_eq!(b[15 + d], b' ');
    assert_eq!(b[18 + d], b':');
    assert_eq!(b[21 + d], b':');
    assert_eq!(b[24 + d], b' ');
    assert!(b[25 + d] == b'+' || b[25 + d] == b'-');
    assert!(b[26 + d].is_ascii_digit() && b[29 + d].is_ascii_digit());
}

#[test]
fn shell_resolution_needs_a_value() {
    assert_eq!(
        resolve_shell(Some("/bin/sh".to_string())),
        Ok("/bin/sh".to_string())
    );
    assert_eq!(resolve_shell(None), Err(SrError::Spawn(NO_SHELL_ERRNO)));
}

#[test]
fn verdict_on_spawn_failure() {
    // Scenario: pty allocation fails. A spawn error reaches the caller and
    // the terminal mode is unchanged from its pristine state.
    let pristine = plain_attrs();
    let mut lifecycle = TerminalLifecycle::capture(
        pristine,
        WinSize { rows: 24, cols: 80, xpixel: 0, ypixel: 0 },
    );
    lifecycle.enter_raw();
    let verdict = session_verdict(SpawnOutcome::SpawnFailed(12), Ok(()));
    assert_eq!(verdict, Err(SrError::Spawn(12)));
    lifecycle.restore();
    assert_eq!(lifecycle.live, pristine);
}

#[test]
fn verdict_passes_the_relay_result_through() {
    assert_eq!(session_verdict(SpawnOutcome::Spawned, Ok(())), Ok(()));
    assert_eq!(
        session_verdict(SpawnOutcome::Spawned, Err(SrError::RelayIO(5))),
        Err(SrError::RelayIO(5))
    );
}

#[test]
fn notices_name_the_output_file() {
    assert_eq!(
        start_notice("typescript"),
        "sr recording started, output file is typescript\r\n"
    );
    assert_eq!(
        finish_notice("typescript"),
        "sr recording done, output file is typescript\r\n"
    );
}

#[test]
fn session_prints_hello_and_exits() {
    // Scenario: the child shell prints "hello\n" and exits. The capture
    // file holds exactly those bytes followed by the footer line.
    let mut relay = Relay::new();
    let mut terminal: Vec<u8> = Vec::new();
    let mut capture: Vec<u8> = Vec::new();
    let out = relay
        .absorb_master_read(ReadOutcome::Data(b"hello\n".to_vec()))
        .expect("data is not an error");
    let bytes = out.expect("data yields bytes to write");
    terminal.extend_from_slice(&bytes);
    capture.extend_from_slice(&bytes);
    assert!(!relay.should_stop());
    relay
        .absorb_master_read(ReadOutcome::Eof)
        .expect("eof is not an error");
    assert!(relay.should_stop());

    let footer = make_footer();
    capture.extend_from_slice(footer.as_bytes());

    assert!(capture.starts_with(b"hello\n"));
    assert_eq!(&capture[..terminal.len()], terminal.as_slice());
    let tail = &capture[terminal.len()..];
    let tail = std::str::from_utf8(tail).expect("footer is text");
    let ts = tail
        .strip_prefix(FOOTER_PREFIX)
        .expect("footer starts with the tool identifier");
    assert!(chrono::DateTime::parse_from_rfc2822(ts).is_ok());
}

#[test]
fn input_closes_before_any_output() {
    // Scenario: the controlling input closes immediately after session
    // start. The loop terminates, the capture file holds only the footer,
    // and the terminal mode is restored.
    let pristine = plain_attrs();
    let mut lifecycle = TerminalLifecycle::capture(
        pristine,
        WinSize { rows: 24, cols: 80, xpixel: 0, ypixel: 0 },
    );
    lifecycle.enter_raw();

    let mut relay = Relay::new();
    let mut capture: Vec<u8> = Vec::new();
    let out = relay.absorb_stdin_read(ReadOutcome::Eof).expect("eof is not an error");
    assert!(out.is_none());
    assert!(relay.should_stop());

    let footer = make_footer();
    capture.extend_from_slice(footer.as_bytes());
    let text = std::str::from_utf8(&capture).expect("footer is text");
    assert!(text.starts_with(FOOTER_PREFIX));

    lifecycle.restore();
    assert_eq!(lifecycle.live, pristine);
}
