use qz_playground::endpoint::health_body;
use qz_playground::endpoint::temp_file_path;
use qz_playground::endpoint::tool_command;
use qz_playground::invoker::respond;
use qz_playground::model::RunOutcome;

#[test]
fn health_body_is_ok() {
    assert_eq!(health_body(), "OK");
}

#[test]
fn fixed_names_of_the_service() {
    assert_eq!(temp_file_path(), "temp.qz");
    assert_eq!(tool_command(), "quetzal");
}

#[test]
fn write_failure_reports_internal_error() {
    let r = respond(RunOutcome::WriteFailed(String::from("disk full")));
    assert!(!r.success);
    assert_eq!(r.stdout, "");
    assert_eq!(r.stderr, "Error interno del servidor: disk full");
}

#[test]
fn spawn_failure_reports_spawn_error() {
    let detail = "No such file or directory (os error 2)";
    let r = respond(RunOutcome::SpawnFailed(String::from(detail)));
    assert!(!r.success);
    assert_eq!(r.stdout, "");
    assert_eq!(
        r.stderr,
        "Error ejecutando código: No such file or directory (os error 2)"
    );
    assert!(!r.stderr.is_empty());
}

#[test]
fn clean_exit_passes_stdout_through() {
    let r = respond(RunOutcome::Completed {
        exit_ok: true,
        stdout: vec![b'1'],
        stderr: Vec::new(),
    });
    assert!(r.success);
    assert_eq!(r.stdout, "1");
    assert_eq!(r.stderr, "");
}

#[test]
fn failed_exit_passes_stderr_through() {
    let r = respond(RunOutcome::Completed {
        exit_ok: false,
        stdout: b"partial output".to_vec(),
        stderr: b"syntax error at line 1".to_vec(),
    });
    assert!(!r.success);
    assert_eq!(r.stdout, "partial output");
    assert_eq!(r.stderr, "syntax error at line 1");
}

#[test]
fn empty_streams_decode_to_empty_strings() {
    let r = respond(RunOutcome::Completed {
        exit_ok: true,
        stdout: Vec::new(),
        stderr: Vec::new(),
    });
    assert!(r.success);
    assert_eq!(r.stdout, "");
    assert_eq!(r.stderr, "");
}

#[test]
fn invalid_utf8_is_replaced_not_rejected() {
    let r = respond(RunOutcome::Completed {
        exit_ok: true,
        stdout: vec![0xff, b'1'],
        stderr: vec![0xc3],
    });
    assert!(r.success);
    assert_eq!(r.stdout, "\u{fffd}1");
    assert_eq!(r.stderr, "\u{fffd}");
}

#[test]
fn same_outcome_answered_the_same_twice() {
    let make = || RunOutcome::Completed {
        exit_ok: false,
        stdout: b"out".to_vec(),
        stderr: b"err".to_vec(),
    };
    let first = respond(make());
    let second = respond(make());
    assert_eq!(first.success, second.success);
    assert_eq!(first.stdout, second.stdout);
    assert_eq!(first.stderr, second.stderr);
}

#[test]
fn response_has_the_three_fields() {
    let r = respond(RunOutcome::Completed {
        exit_ok: true,
        stdout: b"print(1)".to_vec(),
        stderr: Vec::new(),
    });
    let qz_playground::model::CodeResponse {
        success,
        stdout,
        stderr,
    } = r;
    assert!(success);
    assert_eq!(stdout, "print(1)");
    assert_eq!(stderr, "");
}

#[test]
fn request_carries_code_verbatim() {
    let request = qz_playground::model::CodeRequest {
        code: String::from("print(1)\n"),
    };
    assert_eq!(request.code, "print(1)\n");
}
