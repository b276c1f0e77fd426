use vcsq_lib::cmd::{
    CmdResult, DecodeError, ExitStatus, LaunchError, Output, Utf8CmdOutput, Utf8CmdOutputLossy,
};
use vcsq_lib::repo::{
    DriverError, ERROR_REPO_NONEMPTY_OUTPUT, ERROR_REPO_NOT_CLEAN, ERROR_REPO_NOT_DIRTY,
};

fn ran(code: i32, stdout: &[u8], stderr: &[u8]) -> CmdResult {
    Ok(Output { status: ExitStatus { code: Some(code) }, stdout: stdout.to_vec(), stderr: stderr.to_vec() })
}

fn not_started(detail: &str) -> CmdResult {
    Err(LaunchError { detail: detail.to_string() })
}

fn lossy(stdout: &str) -> Utf8CmdOutputLossy {
    Utf8CmdOutputLossy {
        status: ExitStatus { code: Some(0) },
        stdout: stdout.to_string(),
        stderr: String::new(),
    }
}

fn strings(items: &[&str]) -> Vec<String> {
    items.iter().map(|s| s.to_string()).collect()
}

const NOT_FOUND: &str = "Os { code: 2, kind: NotFound, message: \"No such file or directory\" }";

#[test]
fn unwrap_cmd_fails_only_if_the_command_did_not_start() {
    assert_eq!(
        DriverError::unwrap_cmd("git cli".to_string(), not_started(NOT_FOUND)),
        Err(DriverError::Command {
            context: "git cli".to_string(),
            source: LaunchError { detail: NOT_FOUND.to_string() },
        })
    );
    let output = DriverError::unwrap_cmd("git cli".to_string(), ran(7, b"out", b"err")).unwrap();
    assert_eq!(
        output,
        Utf8CmdOutput {
            status: ExitStatus { code: Some(7) },
            stdout: Ok("out".to_string()),
            stdout_lossy: "out".to_string(),
            stderr: Ok("err".to_string()),
            stderr_lossy: "err".to_string(),
        }
    );
}

#[test]
fn unwrap_cmd_lossy_fails_only_if_the_command_did_not_start() {
    assert_eq!(
        DriverError::unwrap_cmd_lossy("hg cli".to_string(), not_started("denied")),
        Err(DriverError::Command {
            context: "hg cli".to_string(),
            source: LaunchError { detail: "denied".to_string() },
        })
    );
    assert_eq!(
        DriverError::unwrap_cmd_lossy("hg cli".to_string(), ran(255, b"", b"abort\n")),
        Ok(Utf8CmdOutputLossy {
            status: ExitStatus { code: Some(255) },
            stdout: String::new(),
            stderr: "abort\n".to_string(),
        })
    );
}

#[test]
fn expect_cmd_lossy_turns_a_failed_command_into_its_stderr() {
    assert_eq!(
        DriverError::expect_cmd_lossy("jj cli".to_string(), ran(1, b"partial", b"Error: no repo\n")),
        Err(DriverError::Stderr {
            context: "jj cli".to_string(),
            stderr: "Error: no repo\n".to_string(),
        })
    );
    assert_eq!(
        DriverError::expect_cmd_lossy("jj cli".to_string(), ran(0, b"fine\n", b"note\n")),
        Ok(Utf8CmdOutputLossy {
            status: ExitStatus { code: Some(0) },
            stdout: "fine\n".to_string(),
            stderr: "note\n".to_string(),
        })
    );
    assert_eq!(
        DriverError::expect_cmd_lossy("jj cli".to_string(), not_started("gone")),
        Err(DriverError::Command {
            context: "jj cli".to_string(),
            source: LaunchError { detail: "gone".to_string() },
        })
    );
}

#[test]
fn expect_cmd_lossy_counts_a_signal_as_failure() {
    let killed: CmdResult = Ok(Output {
        status: ExitStatus { code: None },
        stdout: b"half".to_vec(),
        stderr: b"".to_vec(),
    });
    assert_eq!(
        DriverError::expect_cmd_lossy("git cli".to_string(), killed),
        Err(DriverError::Stderr { context: "git cli".to_string(), stderr: String::new() })
    );
}

#[test]
fn expect_cmd_lossy_carries_stderr_that_is_not_text_with_placeholders() {
    assert_eq!(
        DriverError::expect_cmd_lossy("git cli".to_string(), ran(1, b"", b"bad \xff byte")),
        Err(DriverError::Stderr {
            context: "git cli".to_string(),
            stderr: "bad \u{fffd} byte".to_string(),
        })
    );
}

#[test]
fn expect_cmd_turns_a_failed_command_into_its_stderr() {
    assert_eq!(
        DriverError::expect_cmd("git cli".to_string(), ran(128, b"", b"fatal: not a repo\n")),
        Err(DriverError::Stderr {
            context: "git cli".to_string(),
            stderr: "fatal: not a repo\n".to_string(),
        })
    );
    assert_eq!(
        DriverError::expect_cmd("git cli".to_string(), not_started("gone")),
        Err(DriverError::Command {
            context: "git cli".to_string(),
            source: LaunchError { detail: "gone".to_string() },
        })
    );
    let ok = DriverError::expect_cmd("git cli".to_string(), ran(0, b"\xff", b"")).unwrap();
    assert!(ok.stdout.is_err());
    assert_eq!(ok.stdout_lossy, "\u{fffd}");
}

#[test]
fn expect_cmd_reports_a_failed_tool_as_stderr_even_where_that_is_not_text() {
    assert_eq!(
        DriverError::expect_cmd("git cli".to_string(), ran(1, b"", b"a\xffb")),
        Err(DriverError::Stderr { context: "git cli".to_string(), stderr: "a\u{fffd}b".to_string() })
    );
    assert_eq!(
        DriverError::expect_cmd("git cli".to_string(), ran(2, b"\xff", b"\xe2\x82")),
        Err(DriverError::Stderr { context: "git cli".to_string(), stderr: "\u{fffd}".to_string() })
    );
}

#[test]
fn expect_cmd_fails_as_expect_cmd_lossy_does() {
    let outcomes: Vec<fn() -> CmdResult> = vec![
        || ran(1, b"", b"plain"),
        || ran(1, b"out", b""),
        || ran(255, b"", b"bad \xff byte"),
        || ran(3, b"\xff", b"\xc3"),
        || not_started("gone"),
        || Ok(Output { status: ExitStatus { code: None }, stdout: vec![], stderr: b"killed".to_vec() }),
    ];
    for outcome in outcomes {
        let strict = DriverError::expect_cmd("ctx".to_string(), outcome());
        let lossy = DriverError::expect_cmd_lossy("ctx".to_string(), outcome());
        assert!(strict.is_err());
        assert_eq!(strict.unwrap_err(), lossy.unwrap_err());
    }
}

#[test]
fn expect_cmd_line_gives_the_only_line() {
    assert_eq!(DriverError::expect_cmd_line("ctx", &lossy("/tmp/repo\n")), Ok("/tmp/repo".to_string()));
    assert_eq!(DriverError::expect_cmd_line("ctx", &lossy("/tmp/repo")), Ok("/tmp/repo".to_string()));
    assert_eq!(DriverError::expect_cmd_line("ctx", &lossy("  padded  \n")), Ok("  padded  ".to_string()));
}

#[test]
fn expect_cmd_line_refuses_empty_output() {
    assert_eq!(
        DriverError::expect_cmd_line("git cli", &lossy("")),
        Err(DriverError::Unknown("unexpectedly returned empty output: git cli".to_string()))
    );
}

#[test]
fn expect_cmd_line_refuses_a_single_empty_line() {
    let empty = Err(DriverError::Unknown("unexpectedly returned empty output: ctx".to_string()));
    assert_eq!(DriverError::expect_cmd_line("ctx", &lossy("\n")), empty);
    assert_eq!(DriverError::expect_cmd_line("ctx", &lossy("\r\n")), empty);
    assert_eq!(DriverError::expect_cmd_line("ctx", &lossy(" \n")), Ok(" ".to_string()));
    assert_eq!(DriverError::expect_cmd_line("ctx", &lossy("\r")), Ok("\r".to_string()));
}

#[test]
fn expect_cmd_line_refuses_two_lines() {
    let result = DriverError::expect_cmd_line("git cli", &lossy("first\nsecond\n"));
    assert_eq!(
        result,
        Err(DriverError::Unknown(
            "unexpectedly got multiple (2) lines: git cli: [\"first\", \"second\"]".to_string()
        ))
    );
    assert_ne!(result, Ok("first".to_string()));
    assert_ne!(result, Ok("second".to_string()));
}

#[test]
fn expect_cmd_line_counts_all_the_lines_it_refuses() {
    let mut stdout = String::new();
    for i in 0..12 {
        stdout.push_str(&format!("line {}\n", i));
    }
    match DriverError::expect_cmd_line("hg cli", &lossy(&stdout)) {
        Err(DriverError::Unknown(msg)) => {
            assert!(msg.starts_with("unexpectedly got multiple (12) lines: hg cli: ["), "{}", msg);
            assert!(msg.contains("\"line 0\", \"line 1\""), "{}", msg);
            assert!(msg.ends_with("\"line 11\"]"), "{}", msg);
            assert!(!msg.contains('\n'), "{}", msg);
        }
        other => panic!("expected Unknown, got {:?}", other),
    }
}

#[test]
fn expect_cmd_line_counts_an_empty_line_as_a_line() {
    match DriverError::expect_cmd_line("ctx", &lossy("a\n\n")) {
        Err(DriverError::Unknown(msg)) => assert!(msg.contains("multiple (2) lines"), "{}", msg),
        other => panic!("expected Unknown, got {:?}", other),
    }
}

#[test]
fn expect_cmd_lines_takes_any_number_of_lines_from_the_minimum_on() {
    assert_eq!(DriverError::expect_cmd_lines(ran(0, b"", b""), 0, "ctx", None), Ok(vec![]));
    assert_eq!(
        DriverError::expect_cmd_lines(ran(0, b"a\nb\n", b""), 0, "ctx", None),
        Ok(strings(&["a", "b"]))
    );
    assert_eq!(
        DriverError::expect_cmd_lines(ran(0, b"a\n", b""), 1, "ctx", None),
        Ok(strings(&["a"]))
    );
    assert_eq!(
        DriverError::expect_cmd_lines(ran(0, b"a\nb\n", b""), 2, "ctx", Some("more".to_string())),
        Ok(strings(&["a", "b"]))
    );
}

#[test]
fn expect_cmd_lines_says_what_is_missing() {
    assert_eq!(
        DriverError::expect_cmd_lines(ran(0, b"", b""), 1, "git cli: exec", Some(ERROR_REPO_NOT_DIRTY.to_string())),
        Err(DriverError::Unknown("git cli: exec: repo not dirty".to_string()))
    );
    assert_eq!(
        DriverError::expect_cmd_lines(ran(0, b"one\n", b""), 2, "ctx", None),
        Err(DriverError::Unknown("ctx: unexpectedly returned no lines".to_string()))
    );
    assert_eq!(ERROR_REPO_NONEMPTY_OUTPUT, "unexpectedly returned no lines");
}

#[test]
fn expect_cmd_lines_needs_the_command_to_succeed() {
    assert_eq!(
        DriverError::expect_cmd_lines(ran(1, b"a\nb\n", b"oops"), 0, "ctx", None),
        Err(DriverError::Stderr { context: "ctx".to_string(), stderr: "oops".to_string() })
    );
    assert_eq!(
        DriverError::expect_cmd_lines(not_started("gone"), 0, "ctx", None),
        Err(DriverError::Command {
            context: "ctx".to_string(),
            source: LaunchError { detail: "gone".to_string() }
        })
    );
}

#[test]
fn not_clean_is_an_unknown_failure_with_its_own_message() {
    assert_eq!(DriverError::not_clean(), DriverError::Unknown(ERROR_REPO_NOT_CLEAN.to_string()));
    assert_eq!(ERROR_REPO_NOT_CLEAN, "repo not clean, references not hermetic");
}

#[test]
fn message_of_each_kind_of_failure() {
    assert_eq!(
        DriverError::Directory("no such dir".to_string()).message(),
        "directory access issue: no such dir"
    );
    assert_eq!(
        DriverError::Command {
            context: "git cli".to_string(),
            source: LaunchError { detail: NOT_FOUND.to_string() },
        }
        .message(),
        format!("vcs call failed: {:?}: {}", "git cli", NOT_FOUND)
    );
    assert_eq!(
        DriverError::Stderr {
            context: "git cli: exec".to_string(),
            stderr: "fatal: \"x\"\nsecond line\n".to_string(),
        }
        .message(),
        format!("vcs stderr: {:?}: {:?}", "git cli: exec", "fatal: \"x\"\nsecond line\n")
    );
    assert_eq!(
        DriverError::RootName(DecodeError { bytes: vec![0xff], problem: "bad".to_string() }).message(),
        "vcs returned a problematic root name"
    );
    assert_eq!(DriverError::Unknown("whatever it is".to_string()).message(), "whatever it is");
}

#[test]
fn message_of_a_failed_tool_is_one_line() {
    let msg = DriverError::Stderr {
        context: "hg cli".to_string(),
        stderr: "abort: no repository found\n(in /tmp)\n".to_string(),
    }
    .message();
    assert_eq!(msg, "vcs stderr: \"hg cli\": \"abort: no repository found\\n(in /tmp)\\n\"");
    assert!(!msg.contains('\n'));
}
