use vcsq_lib::adapter::{git, hg, jj};
use vcsq_lib::cmd::{CmdResult, ExitStatus, Invocation, LaunchError, Output, Utf8CmdOutputLossy};
use vcsq_lib::plexer::{check_brand, check_health, Adapter, Repo, VcsBrand, VcsHealth};
use vcsq_lib::repo::{Driver, DriverError, HistoryRef, Step};

fn ran(code: i32, stdout: &str, stderr: &str) -> CmdResult {
    Ok(Output {
        status: ExitStatus { code: Some(code) },
        stdout: stdout.as_bytes().to_vec(),
        stderr: stderr.as_bytes().to_vec(),
    })
}

fn not_started(detail: &str) -> CmdResult {
    Err(LaunchError { detail: detail.to_string() })
}

fn claims() -> CmdResult {
    ran(0, "", "")
}

fn declines() -> CmdResult {
    ran(1, "", "")
}

fn probe(program: &str, args: &[&str], env: &[(&str, &str)]) -> Invocation {
    Invocation {
        program: program.to_string(),
        args: args.iter().map(|a| a.to_string()).collect(),
        dir: Some("/some/dir".to_string()),
        env: env.iter().map(|(k, v)| (k.to_string(), v.to_string())).collect(),
        quiet: true,
    }
}

fn git_probe() -> Invocation {
    probe("git", &["rev-parse", "--show-toplevel"], &[])
}

fn hg_probe() -> Invocation {
    probe("hg", &["root"], &[("HGPLAIN", "1")])
}

fn jj_probe() -> Invocation {
    probe("jj", &["root"], &[])
}

fn git_repo() -> Repo {
    Repo { brand: VcsBrand::Git, adapter: Adapter::Git(git::Repo { dir: "/some/dir".to_string() }) }
}

fn hg_repo() -> Repo {
    Repo {
        brand: VcsBrand::Mercurial,
        adapter: Adapter::Mercurial(hg::Repo { dir: "/some/dir".to_string() }),
    }
}

fn jj_repo() -> Repo {
    Repo {
        brand: VcsBrand::Jujutsu,
        adapter: Adapter::Jujutsu(jj::Repo { dir: "/some/dir".to_string() }),
    }
}

fn detect(seen: &[CmdResult]) -> Step<Result<Repo, DriverError>> {
    Repo::new_driver(&"/some/dir".to_string(), seen)
}

fn done<T>(answer: T, read: usize) -> Step<T> {
    Step::Done { answer, read }
}

fn strings(items: &[&str]) -> Vec<String> {
    items.iter().map(|s| s.to_string()).collect()
}

const NO_KNOWN_VCS: &str =
    "if dir is a VCS, it's of an unknown brand (tried these 3: Git, Mercurial, Jujutsu)";

#[test]
fn brands_are_tried_in_a_fixed_order() {
    assert_eq!(VcsBrand::all(), vec![VcsBrand::Git, VcsBrand::Mercurial, VcsBrand::Jujutsu]);
    assert_eq!(VcsBrand::Git.as_ref(), "Git");
    assert_eq!(VcsBrand::Mercurial.as_ref(), "Mercurial");
    assert_eq!(VcsBrand::Jujutsu.as_ref(), "Jujutsu");
}

#[test]
fn detection_probes_git_then_mercurial_then_jujutsu() {
    assert_eq!(detect(&[]), Step::Run(git_probe()));
    assert_eq!(detect(&[declines()]), Step::Run(hg_probe()));
    assert_eq!(detect(&[declines(), declines()]), Step::Run(jj_probe()));
}

#[test]
fn detection_finds_the_only_brand_that_claims_the_directory() {
    assert_eq!(detect(&[claims(), declines(), declines()]), done(Ok(git_repo()), 1));
    assert_eq!(detect(&[declines(), claims(), declines()]), done(Ok(hg_repo()), 2));
    assert_eq!(detect(&[declines(), declines(), claims()]), done(Ok(jj_repo()), 3));
}

#[test]
fn detection_gives_the_same_answer_every_time() {
    let seen = [declines(), claims()];
    let first = detect(&seen);
    for _ in 0..5 {
        assert_eq!(detect(&seen), first);
    }
    assert_eq!(first, done(Ok(hg_repo()), 2));
}

#[test]
fn detection_stops_at_the_first_claim() {
    assert_eq!(detect(&[claims()]), done(Ok(git_repo()), 1));
    assert_eq!(detect(&[claims(), claims(), claims()]), done(Ok(git_repo()), 1));
    assert_eq!(detect(&[claims(), not_started("x"), not_started("y")]), done(Ok(git_repo()), 1));
    assert_eq!(detect(&[declines(), claims(), claims()]), done(Ok(hg_repo()), 2));
    assert_eq!(detect(&[declines(), claims()]), done(Ok(hg_repo()), 2));
}

#[test]
fn detection_of_a_plain_directory_names_every_brand_tried() {
    assert_eq!(
        detect(&[declines(), declines(), declines()]),
        done(Err(DriverError::Unknown(NO_KNOWN_VCS.to_string())), 3)
    );
    assert_eq!(
        detect(&[ran(128, "", "fatal"), ran(255, "", "abort"), ran(1, "", "Error")]),
        done(Err(DriverError::Unknown(NO_KNOWN_VCS.to_string())), 3)
    );
    assert_eq!(Repo::unknown_brand(), DriverError::Unknown(NO_KNOWN_VCS.to_string()));
}

#[test]
fn detection_lets_a_probe_that_did_not_start_end_it() {
    assert_eq!(
        detect(&[not_started("no git")]),
        done(
            Err(DriverError::Command {
                context: "git cli".to_string(),
                source: LaunchError { detail: "no git".to_string() }
            }),
            1
        )
    );
    assert_eq!(
        detect(&[declines(), not_started("no hg"), claims()]),
        done(
            Err(DriverError::Command {
                context: "hg cli".to_string(),
                source: LaunchError { detail: "no hg".to_string() }
            }),
            2
        )
    );
    assert_eq!(
        detect(&[declines(), declines(), not_started("no jj")]),
        done(
            Err(DriverError::Command {
                context: "jj cli".to_string(),
                source: LaunchError { detail: "no jj".to_string() }
            }),
            3
        )
    );
}

#[test]
fn detection_takes_any_exit_code_but_zero_as_declining() {
    let killed: CmdResult =
        Ok(Output { status: ExitStatus { code: None }, stdout: vec![], stderr: vec![] });
    assert_eq!(detect(&[killed, ran(-1, "", ""), claims()]), done(Ok(jj_repo()), 3));
}

#[test]
fn probe_of_each_brand_binds_the_driver_to_the_directory() {
    let dir = || "/some/dir".to_string();
    assert_eq!(Repo::probe(VcsBrand::Git, dir(), &[]), Step::Run(git_probe()));
    assert_eq!(Repo::probe(VcsBrand::Mercurial, dir(), &[]), Step::Run(hg_probe()));
    assert_eq!(Repo::probe(VcsBrand::Jujutsu, dir(), &[]), Step::Run(jj_probe()));
    assert_eq!(
        Repo::probe(VcsBrand::Mercurial, dir(), &[claims()]),
        done(Ok(Some(Adapter::Mercurial(hg::Repo { dir: dir() }))), 1)
    );
    assert_eq!(Repo::probe(VcsBrand::Jujutsu, dir(), &[declines()]), done(Ok(None), 1));
}

#[test]
fn handle_passes_every_question_to_its_driver() {
    let g = git::Repo { dir: "/some/dir".to_string() };
    let h = hg::Repo { dir: "/some/dir".to_string() };
    let j = jj::Repo { dir: "/some/dir".to_string() };
    let transcripts: Vec<Vec<CmdResult>> = vec![
        vec![],
        vec![ran(0, "", "")],
        vec![ran(0, "/top\n", "")],
        vec![ran(0, "?? a\nC b\n", "")],
        vec![ran(1, "", "bad")],
        vec![not_started("gone")],
        vec![ran(0, "", ""), ran(0, "abc+\n", "")],
        vec![ran(0, "", ""), ran(0, "abc\n", ""), ran(0, "x\n", ""), ran(0, "main\n", "")],
    ];
    for seen in &transcripts {
        assert_eq!(git_repo().root(seen), g.root(seen));
        assert_eq!(hg_repo().root(seen), h.root(seen));
        assert_eq!(jj_repo().root(seen), j.root(seen));
        assert_eq!(git_repo().is_clean(seen), g.is_clean(seen));
        assert_eq!(hg_repo().is_clean(seen), h.is_clean(seen));
        assert_eq!(jj_repo().is_clean(seen), j.is_clean(seen));
        assert_eq!(git_repo().tracked_files(seen), g.tracked_files(seen));
        assert_eq!(hg_repo().tracked_files(seen), h.tracked_files(seen));
        assert_eq!(jj_repo().tracked_files(seen), j.tracked_files(seen));
        for flag in [true, false] {
            assert_eq!(git_repo().dirty_files(flag, seen), g.dirty_files(flag, seen));
            assert_eq!(hg_repo().dirty_files(flag, seen), h.dirty_files(flag, seen));
            assert_eq!(jj_repo().dirty_files(flag, seen), j.dirty_files(flag, seen));
            assert_eq!(git_repo().current_ref_id(flag, seen), g.current_ref_id(flag, seen));
            assert_eq!(hg_repo().current_ref_id(flag, seen), h.current_ref_id(flag, seen));
            assert_eq!(jj_repo().current_ref_id(flag, seen), j.current_ref_id(flag, seen));
            assert_eq!(git_repo().current_ref_name(flag, seen), g.current_ref_name(flag, seen));
            assert_eq!(hg_repo().current_ref_name(flag, seen), h.current_ref_name(flag, seen));
            assert_eq!(jj_repo().current_ref_name(flag, seen), j.current_ref_name(flag, seen));
            assert_eq!(git_repo().current_ref(flag, seen), g.current_ref(flag, seen));
            assert_eq!(hg_repo().current_ref(flag, seen), h.current_ref(flag, seen));
            assert_eq!(jj_repo().current_ref(flag, seen), j.current_ref(flag, seen));
        }
    }
}

#[test]
fn handle_answers_for_its_brand() {
    assert_eq!(
        git_repo().dirty_files(false, &[ran(0, "?? x.md\n", "")]),
        done(Ok(strings(&["x.md"])), 1)
    );
    assert_eq!(
        hg_repo().dirty_files(false, &[ran(0, "? x.md\n", "")]),
        done(Ok(strings(&["x.md"])), 1)
    );
    assert_eq!(
        jj_repo().dirty_files(false, &[ran(0, "x.md\n", "")]),
        done(Ok(strings(&["x.md"])), 1)
    );
    assert_eq!(
        git_repo().current_ref(
            true,
            &[ran(0, "", ""), ran(0, "abc\n", ""), ran(0, "x\n", ""), ran(0, "main\n", "")]
        ),
        done(
            Ok(HistoryRef { id: "abc".to_string(), name: Some("main".to_string()), dirty: false }),
            4
        )
    );
}

fn version(program: &str, env: &[(&str, &str)]) -> Invocation {
    Invocation {
        program: program.to_string(),
        args: vec!["--version".to_string()],
        dir: None,
        env: env.iter().map(|(k, v)| (k.to_string(), v.to_string())).collect(),
        quiet: false,
    }
}

fn available(stdout: &str) -> Utf8CmdOutputLossy {
    Utf8CmdOutputLossy {
        status: ExitStatus { code: Some(0) },
        stdout: stdout.to_string(),
        stderr: String::new(),
    }
}

#[test]
fn health_check_asks_every_brand_in_order() {
    assert_eq!(check_health(&[]), Step::Run(version("git", &[])));
    assert_eq!(check_health(&[ran(0, "git version 2\n", "")]), Step::Run(version("hg", &[("HGPLAIN", "1")])));
    assert_eq!(
        check_health(&[ran(0, "git version 2\n", ""), ran(0, "Mercurial\n", "")]),
        Step::Run(version("jj", &[]))
    );
}

#[test]
fn health_check_reports_on_every_brand() {
    assert_eq!(
        check_health(&[ran(0, "git version 2\n", ""), ran(0, "Mercurial\n", ""), ran(0, "jj 0.2\n", "")]),
        done(
            vec![
                VcsHealth { brand: VcsBrand::Git, health: Ok(available("git version 2\n")) },
                VcsHealth { brand: VcsBrand::Mercurial, health: Ok(available("Mercurial\n")) },
                VcsHealth { brand: VcsBrand::Jujutsu, health: Ok(available("jj 0.2\n")) },
            ],
            3
        )
    );
}

#[test]
fn health_check_goes_on_after_a_failure() {
    assert_eq!(check_health(&[not_started("no git")]), Step::Run(version("hg", &[("HGPLAIN", "1")])));
    assert_eq!(
        check_health(&[not_started("no git"), ran(1, "", "broken\n")]),
        Step::Run(version("jj", &[]))
    );
    assert_eq!(
        check_health(&[not_started("no git"), ran(1, "", "broken\n"), ran(0, "jj 0.2\n", "")]),
        done(
            vec![
                VcsHealth {
                    brand: VcsBrand::Git,
                    health: Err(DriverError::Command {
                        context: "git cli: exec".to_string(),
                        source: LaunchError { detail: "no git".to_string() }
                    })
                },
                VcsHealth {
                    brand: VcsBrand::Mercurial,
                    health: Err(DriverError::Stderr {
                        context: "hg cli: exec".to_string(),
                        stderr: "broken\n".to_string()
                    })
                },
                VcsHealth { brand: VcsBrand::Jujutsu, health: Ok(available("jj 0.2\n")) },
            ],
            3
        )
    );
}

#[test]
fn check_brand_asks_the_brand_named() {
    assert_eq!(check_brand(VcsBrand::Jujutsu, &[]), Step::Run(version("jj", &[])));
    assert_eq!(check_brand(VcsBrand::Git, &[ran(0, "v\n", "")]), done(Ok(available("v\n")), 1));
}

#[test]
fn new_is_short_for_new_driver() {
    let dir = "/some/dir".to_string();
    let transcripts: Vec<Vec<CmdResult>> = vec![
        vec![],
        vec![claims()],
        vec![declines()],
        vec![declines(), claims()],
        vec![declines(), declines(), declines()],
        vec![declines(), not_started("gone")],
    ];
    for seen in &transcripts {
        assert_eq!(Repo::new(&dir, seen), Repo::new_driver(&dir, seen));
    }
}
