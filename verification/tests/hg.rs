use vcsq_lib::adapter::hg::{start_vcs_shellout, Loader, Repo};
use vcsq_lib::cmd::{CmdResult, ExitStatus, Invocation, LaunchError, Output, Utf8CmdOutputLossy};
use vcsq_lib::repo::{Driver, DriverError, Step, Validator, ERROR_REPO_NOT_CLEAN};

fn ran(code: i32, stdout: &str, stderr: &str) -> CmdResult {
    Ok(Output {
        status: ExitStatus { code: Some(code) },
        stdout: stdout.as_bytes().to_vec(),
        stderr: stderr.as_bytes().to_vec(),
    })
}

fn not_started() -> CmdResult {
    Err(LaunchError { detail: "no hg here".to_string() })
}

fn hg(dir: Option<&str>, args: &[&str]) -> Invocation {
    Invocation {
        program: "hg".to_string(),
        args: args.iter().map(|a| a.to_string()).collect(),
        dir: dir.map(|d| d.to_string()),
        env: vec![("HGPLAIN".to_string(), "1".to_string())],
        quiet: false,
    }
}

fn repo() -> Repo {
    Repo { dir: "/work/hg".to_string() }
}

fn strings(items: &[&str]) -> Vec<String> {
    items.iter().map(|s| s.to_string()).collect()
}

fn done<T>(answer: T, read: usize) -> Step<T> {
    Step::Done { answer, read }
}

#[test]
fn hg_commands_are_what_the_shell_would_run() {
    let r = repo();
    assert_eq!(start_vcs_shellout(), hg(None, &[]));
    assert_eq!(r.start_shellout(), hg(Some("/work/hg"), &[]));
    assert_eq!(r.hg_root(), hg(Some("/work/hg"), &["root"]));
    assert_eq!(
        r.hg_dirty_files(),
        hg(Some("/work/hg"), &["status", "--modified", "--added", "--removed", "--deleted", "--unknown"])
    );
    assert_eq!(r.hg_tracked_files(), hg(Some("/work/hg"), &["status", "--all"]));
    assert_eq!(r.hg_current_id(), hg(Some("/work/hg"), &["--debug", "id", "-i"]));
}

#[test]
fn hg_root_reads_one_line() {
    let r = repo();
    assert_eq!(r.root(&[]), Step::Run(r.hg_root()));
    assert_eq!(r.root(&[ran(0, "/work/hg\n", "")]), done(Ok("/work/hg".to_string()), 1));
    assert_eq!(
        r.root(&[ran(255, "", "abort: no repository found\n")]),
        done(
            Err(DriverError::Stderr {
                context: "hg cli: exec".to_string(),
                stderr: "abort: no repository found\n".to_string()
            }),
            1
        )
    );
    assert_eq!(
        r.root(&[ran(0, "", "")]),
        done(Err(DriverError::Unknown("unexpectedly returned empty output: hg cli".to_string())), 1)
    );
}

#[test]
fn hg_root_is_the_same_from_the_top_and_from_below() {
    let seen = [ran(0, "/work/hg\n", "")];
    assert_eq!(Repo { dir: "/work/hg/a/b".to_string() }.root(&seen), repo().root(&seen));
}

#[test]
fn hg_clean_tree_round_trip() {
    let r = repo();
    let seen = [ran(0, "", "")];
    assert_eq!(r.is_clean(&[]), Step::Run(r.hg_dirty_files()));
    assert_eq!(r.is_clean(&seen), done(Ok(true), 1));
    assert_eq!(r.dirty_files(true, &seen), done(Ok(vec![]), 1));
    assert_eq!(
        r.dirty_files(false, &seen),
        done(Err(DriverError::Unknown("hg cli: exec: repo not dirty".to_string())), 1)
    );
}

#[test]
fn hg_dirty_files_lists_an_untracked_file_without_its_mark() {
    let r = repo();
    let seen = [ran(0, "? mercurial.md\n", "")];
    assert_eq!(r.dirty_files(false, &seen), done(Ok(strings(&["mercurial.md"])), 1));
    assert_eq!(r.is_clean(&seen), done(Ok(false), 1));
}

#[test]
fn hg_dirty_files_strips_two_characters_from_every_line() {
    let r = repo();
    assert_eq!(
        r.dirty_files(false, &[ran(0, "M a.txt\nA b c.txt\n! gone\nR\n", "")]),
        done(Ok(strings(&["a.txt", "b c.txt", "gone", ""])), 1)
    );
}

#[test]
fn hg_tracked_files_may_be_none() {
    let r = repo();
    assert_eq!(r.tracked_files(&[]), Step::Run(r.hg_tracked_files()));
    assert_eq!(r.tracked_files(&[ran(0, "", "")]), done(Ok(vec![]), 1));
    assert_eq!(r.tracked_files(&[ran(0, "? stray\nI ignored\nA added\n", "")]), done(Ok(vec![]), 1));
}

#[test]
fn hg_tracked_files_are_those_of_the_current_commit() {
    let r = repo();
    assert_eq!(
        r.tracked_files(&[ran(0, "C a.txt\nM b.txt\n? c.txt\n", "")]),
        done(Ok(strings(&["a.txt", "b.txt"])), 1)
    );
    assert_eq!(
        r.tracked_files(&[ran(0, "M changed\nC hg-license.txt\n? stray\nC hg-readme.txt\nI ignored\n", "")]),
        done(Ok(strings(&["changed", "hg-license.txt", "hg-readme.txt"])), 1)
    );
    assert_eq!(
        r.tracked_files(&[ran(0, "C hg-license.txt\nC hg-readme.txt\n", "")]),
        done(Ok(strings(&["hg-license.txt", "hg-readme.txt"])), 1)
    );
}

#[test]
fn hg_tracked_files_ignore_what_was_done_since_the_commit() {
    let r = repo();
    // Modified, added, removed, missing, not tracked, ignored, clean.
    let listing = "M edited\nA new\nR dropped\n! lost\n? stray\nI junk\nC same\n";
    assert_eq!(
        r.tracked_files(&[ran(0, listing, "")]),
        done(Ok(strings(&["edited", "dropped", "lost", "same"])), 1)
    );
}

#[test]
fn hg_tracked_files_need_the_mark_and_the_space() {
    let r = repo();
    assert_eq!(
        r.tracked_files(&[ran(0, "C \nCx y\nC  two\nM\nMM z\n!x\n c\n", "")]),
        done(Ok(strings(&["", " two"])), 1)
    );
    assert!(Repo::names_committed_file("C a"));
    assert!(Repo::names_committed_file("M a"));
    assert!(Repo::names_committed_file("R a"));
    assert!(Repo::names_committed_file("! a"));
    assert!(!Repo::names_committed_file("A a"));
    assert!(!Repo::names_committed_file("? a"));
    assert!(!Repo::names_committed_file("I a"));
    assert!(!Repo::names_committed_file("  a"));
    assert!(!Repo::names_committed_file(""));
    assert_eq!(
        Repo::keep_committed(&strings(&["? u", "M m", "C c"])),
        strings(&["m", "c"])
    );
}

#[test]
fn hg_tracked_files_pass_failures_on() {
    let r = repo();
    assert_eq!(
        r.tracked_files(&[ran(255, "C a\n", "abort")]),
        done(
            Err(DriverError::Stderr { context: "hg cli: exec".to_string(), stderr: "abort".to_string() }),
            1
        )
    );
}

#[test]
fn hg_strip_dirty_mark_removes_one_plus_sign() {
    assert_eq!(Repo::strip_dirty_mark("abc123+".to_string()), "abc123");
    assert_eq!(Repo::strip_dirty_mark("abc123".to_string()), "abc123");
    assert_eq!(Repo::strip_dirty_mark("abc++".to_string()), "abc+");
    assert_eq!(Repo::strip_dirty_mark("+".to_string()), "");
    assert_eq!(Repo::strip_dirty_mark("".to_string()), "");
    assert_eq!(Repo::strip_dirty_mark("+abc".to_string()), "+abc");
}

#[test]
fn hg_current_ref_id_reads_the_hash() {
    let r = repo();
    assert_eq!(r.current_ref_id(true, &[]), Step::Run(r.hg_current_id()));
    assert_eq!(
        r.current_ref_id(true, &[ran(0, "0000000000000000000000000000000000000000\n", "")]),
        done(Ok("0000000000000000000000000000000000000000".to_string()), 1)
    );
    assert_eq!(
        r.current_ref_id(true, &[ran(0, "1f0dee641bb7258c56bd60e93edfa2405381c41e+\n", "")]),
        done(Ok("1f0dee641bb7258c56bd60e93edfa2405381c41e".to_string()), 1)
    );
    assert_eq!(
        r.current_ref_id(true, &[ran(255, "", "abort\n")]),
        done(
            Err(DriverError::Stderr { context: "hg cli :exec".to_string(), stderr: "abort\n".to_string() }),
            1
        )
    );
    assert_eq!(
        r.current_ref_id(true, &[ran(0, "", "")]),
        done(Err(DriverError::Unknown("unexpectedly returned empty output: hg cli: exec".to_string())), 1)
    );
}

#[test]
fn hg_current_ref_id_checks_for_a_clean_tree_first() {
    let r = repo();
    assert_eq!(r.current_ref_id(false, &[]), Step::Run(r.hg_dirty_files()));
    assert_eq!(
        r.current_ref_id(false, &[ran(0, "? x\n", "")]),
        done(Err(DriverError::Unknown(ERROR_REPO_NOT_CLEAN.to_string())), 1)
    );
    assert_eq!(r.current_ref_id(false, &[ran(0, "", "")]), Step::Run(r.hg_current_id()));
    assert_eq!(
        r.current_ref_id(false, &[ran(0, "", ""), ran(0, "abc\n", "")]),
        done(Ok("abc".to_string()), 2)
    );
}

#[test]
fn hg_current_ref_name_is_not_supported() {
    let r = repo();
    let unsupported =
        || Err(DriverError::Unknown("hg cli: naming the current ref is not supported".to_string()));
    assert_eq!(r.current_ref_name(true, &[]), done(unsupported(), 0));
    assert_eq!(r.current_ref_name(true, &[ran(0, "? x\n", "")]), done(unsupported(), 0));
    assert_eq!(r.current_ref_name(false, &[]), Step::Run(r.hg_dirty_files()));
    assert_eq!(r.current_ref_name(false, &[ran(0, "", "")]), done(unsupported(), 1));
    assert_eq!(
        r.current_ref_name(false, &[ran(0, "? x\n", "")]),
        done(Err(DriverError::Unknown(ERROR_REPO_NOT_CLEAN.to_string())), 1)
    );
}

#[test]
fn hg_current_ref_fails_where_the_name_is_asked_for() {
    let r = repo();
    assert_eq!(r.current_ref(true, &[]), Step::Run(r.hg_dirty_files()));
    assert_eq!(r.current_ref(true, &[ran(0, "", "")]), Step::Run(r.hg_current_id()));
    assert_eq!(
        r.current_ref(true, &[ran(0, "", ""), ran(0, "abc\n", "")]),
        done(
            Err(DriverError::Unknown("hg cli: naming the current ref is not supported".to_string())),
            2
        )
    );
    assert_eq!(
        r.current_ref(false, &[ran(0, "? x\n", "")]),
        done(Err(DriverError::Unknown(ERROR_REPO_NOT_CLEAN.to_string())), 1)
    );
}

#[test]
fn hg_loader_probes_quietly_and_plainly() {
    let mut probe = hg(Some("/some/dir"), &["root"]);
    probe.quiet = true;
    assert_eq!(Loader.new_driver("/some/dir".to_string(), &[]), Step::Run(probe));
    assert_eq!(
        Loader.new_driver("/some/dir".to_string(), &[ran(0, "", "")]),
        done(Ok(Some(Repo { dir: "/some/dir".to_string() })), 1)
    );
    assert_eq!(Loader.new_driver("/some/dir".to_string(), &[ran(255, "", "")]), done(Ok(None), 1));
    assert_eq!(
        Loader.new_driver("/some/dir".to_string(), &[not_started()]),
        done(
            Err(DriverError::Command {
                context: "hg cli".to_string(),
                source: LaunchError { detail: "no hg here".to_string() }
            }),
            1
        )
    );
}

#[test]
fn hg_loader_reports_the_version() {
    assert_eq!(Loader.check_health(&[]), Step::Run(hg(None, &["--version"])));
    assert_eq!(
        Loader.check_health(&[ran(0, "Mercurial Distributed SCM (version 6.5)\n", "")]),
        done(
            Ok(Utf8CmdOutputLossy {
                status: ExitStatus { code: Some(0) },
                stdout: "Mercurial Distributed SCM (version 6.5)\n".to_string(),
                stderr: String::new()
            }),
            1
        )
    );
    assert_eq!(
        Loader.check_health(&[not_started()]),
        done(
            Err(DriverError::Command {
                context: "hg cli: exec".to_string(),
                source: LaunchError { detail: "no hg here".to_string() }
            }),
            1
        )
    );
}
