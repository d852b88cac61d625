use passgui::retrieve::DecryptOutcome;
use passgui::retrieve::RetrieveError;
use passgui::session::Action;
use passgui::session::Event;
use passgui::session::Failure;
use passgui::session::RunOutcome;
use passgui::session::Session;
use passgui::session::State;
use passgui::choices::choices_to_model;

fn fresh_session() -> Session {
    Session::new(
        vec!["email/work".to_string(), "bank/main".to_string()],
        "Terminal".to_string(),
    )
}

fn confirm(text: &str) -> Event {
    Event::Confirm {
        typed: text.to_string(),
    }
}

fn decrypt_ran(exit_ok: bool, stdout: &[u8], stderr: &[u8]) -> Event {
    Event::DecryptFinished {
        outcome: DecryptOutcome::Ran {
            exit_ok,
            stdout: stdout.to_vec(),
            stderr: stderr.to_vec(),
        },
    }
}

#[test]
fn adapter_preserves_names_count_and_order() {
    let names = vec!["b".to_string(), "a".to_string(), "a/c".to_string()];
    let model = choices_to_model(names.clone());
    assert_eq!(model.rows, names);
}

#[test]
fn cancel_key_while_idle_terminates() {
    let mut s = fresh_session();
    let action = s.step(Event::CancelKey);
    assert_eq!(action, Action::Quit);
    assert_eq!(s.state, State::Done);
}

#[test]
fn unknown_text_is_silently_ignored() {
    let mut s = fresh_session();
    let action = s.step(confirm("email/wor"));
    assert_eq!(action, Action::Stay);
    assert_eq!(s.state, State::Idle);
    let action = s.step(confirm("email/work "));
    assert_eq!(action, Action::Stay);
    assert_eq!(s.state, State::Idle);
}

#[test]
fn known_text_starts_the_decrypt_call() {
    let mut s = fresh_session();
    let action = s.step(confirm("email/work"));
    assert_eq!(
        action,
        Action::RunDecrypt {
            entry: "email/work".to_string()
        }
    );
    assert_eq!(s.state, State::Decrypting);
}

#[test]
fn successful_run_orders_decrypt_refocus_type() {
    let mut s = fresh_session();
    let mut calls: Vec<&str> = Vec::new();

    let a1 = s.step(confirm("email/work"));
    assert!(matches!(a1, Action::RunDecrypt { .. }));
    calls.push("decrypt");

    let a2 = s.step(decrypt_ran(true, b"s3cr3t\nuser: me\n", b""));
    assert_eq!(
        a2,
        Action::RunRefocus {
            app: "Terminal".to_string()
        }
    );
    calls.push("refocus");

    let a3 = s.step(Event::RefocusFinished {
        outcome: RunOutcome::Exited { exit_ok: true },
    });
    assert_eq!(
        a3,
        Action::RunType {
            secret: "s3cr3t".to_string()
        }
    );
    calls.push("type");

    let a4 = s.step(Event::TypeFinished {
        outcome: RunOutcome::Exited { exit_ok: true },
    });
    assert_eq!(a4, Action::Quit);
    assert_eq!(s.state, State::Done);
    assert_eq!(calls, vec!["decrypt", "refocus", "type"]);
}

#[test]
fn decrypt_failure_shows_dialog_and_reenables_input() {
    let mut s = fresh_session();
    s.step(confirm("email/work"));
    let action = s.step(decrypt_ran(false, b"", b"gpg: decryption failed"));
    assert_eq!(
        action,
        Action::ShowError {
            failure: Failure::Retrieve {
                error: RetrieveError::ToolFailure {
                    stdout: b"".to_vec(),
                    stderr: b"gpg: decryption failed".to_vec(),
                },
            },
        }
    );
    assert_eq!(s.state, State::Idle);
    let retry = s.step(confirm("email/work"));
    assert!(matches!(retry, Action::RunDecrypt { .. }));
}

#[test]
fn refocus_failure_prevents_typing() {
    let mut s = fresh_session();
    s.step(confirm("email/work"));
    let a = s.step(decrypt_ran(true, b"s3cr3t\n", b""));
    assert!(matches!(a, Action::RunRefocus { .. }));
    let action = s.step(Event::RefocusFinished {
        outcome: RunOutcome::Exited { exit_ok: false },
    });
    assert_eq!(
        action,
        Action::ShowError {
            failure: Failure::RefocusFailed
        }
    );
    assert_eq!(s.state, State::Idle);
}

#[test]
fn refocus_launch_failure_is_kept_apart() {
    let mut s = fresh_session();
    s.step(confirm("email/work"));
    s.step(decrypt_ran(true, b"s3cr3t\n", b""));
    let action = s.step(Event::RefocusFinished {
        outcome: RunOutcome::LaunchFailed {
            message: "no osascript".to_string(),
        },
    });
    assert_eq!(
        action,
        Action::ShowError {
            failure: Failure::RefocusLaunch {
                message: "no osascript".to_string()
            }
        }
    );
    assert_eq!(s.state, State::Idle);
}

#[test]
fn type_failure_returns_to_idle() {
    let mut s = fresh_session();
    s.step(confirm("email/work"));
    s.step(decrypt_ran(true, b"s3cr3t\n", b""));
    s.step(Event::RefocusFinished {
        outcome: RunOutcome::Exited { exit_ok: true },
    });
    let action = s.step(Event::TypeFinished {
        outcome: RunOutcome::Exited { exit_ok: false },
    });
    assert_eq!(
        action,
        Action::ShowError {
            failure: Failure::TypeFailed
        }
    );
    assert_eq!(s.state, State::Idle);
}

#[test]
fn empty_decrypt_output_is_a_distinct_failure() {
    let mut s = fresh_session();
    s.step(confirm("bank/main"));
    let action = s.step(decrypt_ran(true, b"  \n", b""));
    assert_eq!(
        action,
        Action::ShowError {
            failure: Failure::Retrieve {
                error: RetrieveError::EmptyOutput,
            },
        }
    );
    assert_eq!(s.state, State::Idle);
}

#[test]
fn stray_events_cause_no_transition() {
    let mut s = fresh_session();
    let a = s.step(Event::TypeFinished {
        outcome: RunOutcome::Exited { exit_ok: true },
    });
    assert_eq!(a, Action::Stay);
    assert_eq!(s.state, State::Idle);
    s.step(confirm("bank/main"));
    let a = s.step(Event::CancelKey);
    assert_eq!(a, Action::Stay);
    assert_eq!(s.state, State::Decrypting);
}
