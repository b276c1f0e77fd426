use vcsq_lib::adapter::jj::{Loader, Repo};
use vcsq_lib::cmd::{CmdResult, ExitStatus, Invocation, LaunchError, Output, Utf8CmdOutputLossy};
use vcsq_lib::repo::{Driver, DriverError, Step, Validator, ERROR_REPO_NOT_CLEAN};

fn ran(code: i32, stdout: &str, stderr: &str) -> CmdResult {
    Ok(Output {
        status: ExitStatus { code: Some(code) },
        stdout: stdout.as_bytes().to_vec(),
        stderr: stderr.as_bytes().to_vec(),
    })
}

fn not_started() -> CmdResult {
    Err(LaunchError { detail: "no jj here".to_string() })
}

fn jj(dir: Option<&str>, args: &[&str]) -> Invocation {
    Invocation {
        program: "jj".to_string(),
        args: args.iter().map(|a| a.to_string()).collect(),
        dir: dir.map(|d| d.to_string()),
        env: vec![],
        quiet: false,
    }
}

fn repo() -> Repo {
    Repo { dir: "/work/jj".to_string() }
}

fn strings(items: &[&str]) -> Vec<String> {
    items.iter().map(|s| s.to_string()).collect()
}

fn done<T>(answer: T, read: usize) -> Step<T> {
    Step::Done { answer, read }
}

#[test]
fn jj_commands_are_what_the_shell_would_run() {
    let r = repo();
    assert_eq!(r.start_shellout(), jj(Some("/work/jj"), &[]));
    assert_eq!(r.jj_root(), jj(Some("/work/jj"), &["root"]));
    assert_eq!(r.jj_dirty_files(), jj(Some("/work/jj"), &["diff", "--name-only"]));
    assert_eq!(r.jj_tracked_files(), jj(Some("/work/jj"), &["file", "list", "-r", "@-"]));
    assert_eq!(
        r.jj_current_ref_id(),
        jj(
            Some("/work/jj"),
            &["log", "--color=never", "--no-graph", "--revisions", "@-", "--template", "commit_id"]
        )
    );
}

#[test]
fn jj_root_reads_one_line() {
    let r = repo();
    assert_eq!(r.root(&[]), Step::Run(r.jj_root()));
    assert_eq!(r.root(&[ran(0, "/work/jj\n", "")]), done(Ok("/work/jj".to_string()), 1));
    assert_eq!(
        r.root(&[ran(1, "", "Error: There is no jj repo in \".\"\n")]),
        done(
            Err(DriverError::Stderr {
                context: "jj cli".to_string(),
                stderr: "Error: There is no jj repo in \".\"\n".to_string()
            }),
            1
        )
    );
}

#[test]
fn jj_root_is_the_same_from_the_top_and_from_below() {
    let seen = [ran(0, "/work/jj\n", "")];
    assert_eq!(Repo { dir: "/work/jj/deep".to_string() }.root(&seen), repo().root(&seen));
}

#[test]
fn jj_clean_tree_round_trip() {
    let r = repo();
    let seen = [ran(0, "", "")];
    assert_eq!(r.is_clean(&[]), Step::Run(r.jj_dirty_files()));
    assert_eq!(r.is_clean(&seen), done(Ok(true), 1));
    assert_eq!(r.dirty_files(true, &seen), done(Ok(vec![]), 1));
    assert_eq!(
        r.dirty_files(false, &seen),
        done(Err(DriverError::Unknown("jj cli: exec: repo not dirty".to_string())), 1)
    );
}

#[test]
fn jj_dirty_files_are_the_lines_as_they_are() {
    let r = repo();
    let seen = [ran(0, "jj-vcs-docs.md\n", "")];
    assert_eq!(r.dirty_files(false, &seen), done(Ok(strings(&["jj-vcs-docs.md"])), 1));
    assert_eq!(r.is_clean(&seen), done(Ok(false), 1));
    assert_eq!(
        r.dirty_files(true, &[ran(0, "a b\n?? c\n", "")]),
        done(Ok(strings(&["a b", "?? c"])), 1)
    );
}

#[test]
fn jj_tracked_files_may_be_none() {
    let r = repo();
    assert_eq!(r.tracked_files(&[]), Step::Run(r.jj_tracked_files()));
    assert_eq!(r.tracked_files(&[ran(0, "", "")]), done(Ok(vec![]), 1));
    assert_eq!(
        r.tracked_files(&[ran(0, "jj-license.txt\njj-readme.txt\n", "")]),
        done(Ok(strings(&["jj-license.txt", "jj-readme.txt"])), 1)
    );
    assert_eq!(
        r.tracked_files(&[not_started()]),
        done(
            Err(DriverError::Command {
                context: "jj cli: exec".to_string(),
                source: LaunchError { detail: "no jj here".to_string() }
            }),
            1
        )
    );
}

#[test]
fn jj_current_ref_id_reads_the_commit_id() {
    let r = repo();
    assert_eq!(r.current_ref_id(true, &[]), Step::Run(r.jj_current_ref_id()));
    assert_eq!(
        r.current_ref_id(true, &[ran(0, "0000000000000000000000000000000000000000", "")]),
        done(Ok("0000000000000000000000000000000000000000".to_string()), 1)
    );
    assert_eq!(
        r.current_ref_id(true, &[ran(1, "", "Error: bad revset\n")]),
        done(
            Err(DriverError::Stderr { context: "jj cli".to_string(), stderr: "Error: bad revset\n".to_string() }),
            1
        )
    );
}

#[test]
fn jj_current_ref_id_checks_for_a_clean_tree_first() {
    let r = repo();
    assert_eq!(r.current_ref_id(false, &[]), Step::Run(r.jj_dirty_files()));
    assert_eq!(
        r.current_ref_id(false, &[ran(0, "changed.txt\n", "")]),
        done(Err(DriverError::Unknown(ERROR_REPO_NOT_CLEAN.to_string())), 1)
    );
    assert_eq!(r.current_ref_id(false, &[ran(0, "", "")]), Step::Run(r.jj_current_ref_id()));
    assert_eq!(
        r.current_ref_id(false, &[ran(0, "", ""), ran(0, "abc", "")]),
        done(Ok("abc".to_string()), 2)
    );
}

#[test]
fn jj_current_ref_name_is_not_supported() {
    let r = repo();
    let unsupported =
        || Err(DriverError::Unknown("jj cli: naming the current ref is not supported".to_string()));
    assert_eq!(r.current_ref_name(true, &[]), done(unsupported(), 0));
    assert_eq!(r.current_ref_name(false, &[]), Step::Run(r.jj_dirty_files()));
    assert_eq!(r.current_ref_name(false, &[ran(0, "", "")]), done(unsupported(), 1));
    assert_eq!(
        r.current_ref_name(false, &[ran(0, "changed.txt\n", "")]),
        done(Err(DriverError::Unknown(ERROR_REPO_NOT_CLEAN.to_string())), 1)
    );
}

#[test]
fn jj_current_ref_fails_where_the_name_is_asked_for() {
    let r = repo();
    assert_eq!(r.current_ref(true, &[]), Step::Run(r.jj_dirty_files()));
    assert_eq!(r.current_ref(true, &[ran(0, "", "")]), Step::Run(r.jj_current_ref_id()));
    assert_eq!(
        r.current_ref(true, &[ran(0, "", ""), ran(0, "abc", "")]),
        done(
            Err(DriverError::Unknown("jj cli: naming the current ref is not supported".to_string())),
            2
        )
    );
}

#[test]
fn jj_loader_probes_quietly() {
    let mut probe = jj(Some("/some/dir"), &["root"]);
    probe.quiet = true;
    assert_eq!(Loader.new_driver("/some/dir".to_string(), &[]), Step::Run(probe));
    assert_eq!(
        Loader.new_driver("/some/dir".to_string(), &[ran(0, "", "")]),
        done(Ok(Some(Repo { dir: "/some/dir".to_string() })), 1)
    );
    assert_eq!(Loader.new_driver("/some/dir".to_string(), &[ran(1, "", "")]), done(Ok(None), 1));
    assert_eq!(
        Loader.new_driver("/some/dir".to_string(), &[not_started()]),
        done(
            Err(DriverError::Command {
                context: "jj cli".to_string(),
                source: LaunchError { detail: "no jj here".to_string() }
            }),
            1
        )
    );
}

#[test]
fn jj_loader_reports_the_version() {
    assert_eq!(Loader.check_health(&[]), Step::Run(jj(None, &["--version"])));
    assert_eq!(
        Loader.check_health(&[ran(0, "jj 0.25.0\n", "")]),
        done(
            Ok(Utf8CmdOutputLossy {
                status: ExitStatus { code: Some(0) },
                stdout: "jj 0.25.0\n".to_string(),
                stderr: String::new()
            }),
            1
        )
    );
}
