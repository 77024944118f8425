use pypr_client::response::{interpret_response, outcome_exit_code, stdout_bytes, Outcome};

#[test]
fn bare_ok_is_empty_success() {
    let o = interpret_response(&b"OK\n".to_vec());
    assert_eq!(o, Outcome::SuccessEmpty);
    assert_eq!(outcome_exit_code(&o), 0);
    assert_eq!(stdout_bytes(&o), Vec::<u8>::new());
}

#[test]
fn ok_with_payload_prints_payload_verbatim() {
    let o = interpret_response(&b"OK\nreloaded\n".to_vec());
    assert_eq!(o, Outcome::SuccessWithOutput(b"reloaded\n".to_vec()));
    assert_eq!(outcome_exit_code(&o), 0);
    assert_eq!(stdout_bytes(&o), b"reloaded\n".to_vec());
}

#[test]
fn error_reply_carries_the_daemon_message() {
    let o = interpret_response(&b"ERROR: plugin not found\n".to_vec());
    assert_eq!(o, Outcome::CommandError(b"plugin not found".to_vec()));
    assert_eq!(outcome_exit_code(&o), 4);
    assert_eq!(stdout_bytes(&o), Vec::<u8>::new());
}

#[test]
fn legacy_reply_is_printed_with_one_newline() {
    let o = interpret_response(&b"0.1.0\n".to_vec());
    assert_eq!(o, Outcome::LegacyOutput(b"0.1.0".to_vec()));
    assert_eq!(outcome_exit_code(&o), 0);
    assert_eq!(stdout_bytes(&o), b"0.1.0\n".to_vec());
}

#[test]
fn empty_reply_is_empty_success() {
    let o = interpret_response(&Vec::new());
    assert_eq!(o, Outcome::SuccessEmpty);
    assert_eq!(outcome_exit_code(&o), 0);
    assert_eq!(stdout_bytes(&o), Vec::<u8>::new());
}

#[test]
fn ok_without_newline_is_empty_success() {
    let o = interpret_response(&b"OK".to_vec());
    assert_eq!(o, Outcome::SuccessEmpty);
}

#[test]
fn ok_payload_keeps_inner_whitespace() {
    // Only the whitespace between the prefix and the payload is stripped.
    let o = interpret_response(&b"OK\n  line one\nline two\n".to_vec());
    assert_eq!(o, Outcome::SuccessWithOutput(b"line one\nline two\n".to_vec()));
}

#[test]
fn error_message_trims_every_trailing_newline() {
    let o = interpret_response(&b"ERROR: broken\n\n\n".to_vec());
    assert_eq!(o, Outcome::CommandError(b"broken".to_vec()));
}

#[test]
fn error_prefix_takes_precedence_over_ok() {
    let o = interpret_response(&b"ERROR: OK\n".to_vec());
    assert_eq!(o, Outcome::CommandError(b"OK".to_vec()));
}

#[test]
fn legacy_reply_normalizes_many_trailing_newlines() {
    let o = interpret_response(&b"hello\n\n\n".to_vec());
    assert_eq!(o, Outcome::LegacyOutput(b"hello".to_vec()));
    assert_eq!(stdout_bytes(&o), b"hello\n".to_vec());
}

#[test]
fn legacy_reply_without_newline_gains_one() {
    let o = interpret_response(&b"pong".to_vec());
    assert_eq!(o, Outcome::LegacyOutput(b"pong".to_vec()));
    assert_eq!(stdout_bytes(&o), b"pong\n".to_vec());
}

#[test]
fn bare_error_prefix_has_empty_message() {
    let o = interpret_response(&b"ERROR: \n".to_vec());
    assert_eq!(o, Outcome::CommandError(Vec::new()));
    assert_eq!(outcome_exit_code(&o), 4);
}

#[test]
fn partial_error_prefix_is_legacy() {
    // Without the trailing space the reply has no structural prefix.
    let o = interpret_response(&b"ERROR:\n".to_vec());
    assert_eq!(o, Outcome::LegacyOutput(b"ERROR:".to_vec()));
    assert_eq!(outcome_exit_code(&o), 0);
}
