use passgui::retrieve::DecryptOutcome;
use passgui::retrieve::RetrieveError;
use passgui::retrieve::retrieve_secret;
use passgui::retrieve::secret_from_text;

fn ran(exit_ok: bool, stdout: &[u8], stderr: &[u8]) -> DecryptOutcome {
    DecryptOutcome::Ran {
        exit_ok,
        stdout: stdout.to_vec(),
        stderr: stderr.to_vec(),
    }
}

#[test]
fn secret_is_first_line_of_successful_output() {
    let r = retrieve_secret(ran(true, b"s3cr3t\nuser: me\n", b""));
    assert_eq!(r, Ok("s3cr3t".to_string()));
}

#[test]
fn carriage_return_before_newline_is_not_part_of_the_secret() {
    let r = retrieve_secret(ran(true, b"s3cr3t\r\nuser: me\n", b""));
    assert_eq!(r, Ok("s3cr3t".to_string()));
}

#[test]
fn output_without_newline_is_the_whole_secret() {
    let r = retrieve_secret(ran(true, b"s3cr3t", b""));
    assert_eq!(r, Ok("s3cr3t".to_string()));
}

#[test]
fn multibyte_output_is_decoded_not_copied() {
    let r = retrieve_secret(ran(true, "p\u{00e4}ss\n".as_bytes(), b""));
    assert_eq!(r, Ok("p\u{00e4}ss".to_string()));
}

#[test]
fn nonzero_exit_reports_tool_failure_with_both_streams() {
    let r = retrieve_secret(ran(false, b"partial", b"gpg: decryption failed"));
    assert_eq!(
        r,
        Err(RetrieveError::ToolFailure {
            stdout: b"partial".to_vec(),
            stderr: b"gpg: decryption failed".to_vec(),
        })
    );
}

#[test]
fn nonzero_exit_never_returns_a_secret_even_with_output() {
    let r = retrieve_secret(ran(false, b"s3cr3t\n", b""));
    assert!(r.is_err());
}

#[test]
fn empty_output_is_reported_as_empty() {
    let r = retrieve_secret(ran(true, b"", b""));
    assert_eq!(r, Err(RetrieveError::EmptyOutput));
}

#[test]
fn all_whitespace_output_is_reported_as_empty() {
    let r = retrieve_secret(ran(true, b" \t\r\n \n", b""));
    assert_eq!(r, Err(RetrieveError::EmptyOutput));
}

#[test]
fn invalid_text_is_reported_as_decode_failure() {
    let r = retrieve_secret(ran(true, &[0xff, 0xfe, 0x0a], b""));
    assert_eq!(r, Err(RetrieveError::Decode));
}

#[test]
fn launch_failure_is_kept_apart() {
    let r = retrieve_secret(DecryptOutcome::LaunchFailed {
        message: "no such tool".to_string(),
    });
    assert_eq!(
        r,
        Err(RetrieveError::Launch {
            message: "no such tool".to_string(),
        })
    );
}

#[test]
fn first_line_of_plain_text() {
    assert_eq!(
        secret_from_text("one\ntwo\nthree"),
        Ok("one".to_string())
    );
    assert_eq!(secret_from_text("   x"), Ok("   x".to_string()));
    assert_eq!(secret_from_text("\n\t"), Err(RetrieveError::EmptyOutput));
}
