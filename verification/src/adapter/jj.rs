//! The driver for Jujutsu: which `jj` command answers each question, and how
//! its output reads.
use crate::cmd::{clone_result, CmdResult, Invocation, InvocationView, Outcome};
use crate::repo::{
    clean_from,
    clean_step,
    expect_lines,
    gate,
    gated,
    min_dirty_lines,
    no_ref_name,
    one_line,
    read_one_line,
    ref_name_unsupported,
    rest_of,
    Driver,
    DriverError,
    DriverErrorView,
    Gate,
    HistoryRefId,
    HistoryRefName,
    QueryDir,
    Step,
    StepView,
    Validator,
    VcsAvailable,
    ERROR_REPO_NOT_DIRTY,
};
use vstd::prelude::*;

verus! {

pub const VCS_BIN_NAME: &'static str = "jj";

// ---------------------------------------------------------------------------
// Commands
// ---------------------------------------------------------------------------
/// `jj`, run in `dir`.
pub open spec fn jj_in(dir: Seq<char>) -> InvocationView {
    InvocationView::new(VCS_BIN_NAME@).current_dir(dir)
}

pub open spec fn root_cmd(dir: Seq<char>) -> InvocationView {
    jj_in(dir).arg("root"@)
}

pub open spec fn dirty_files_cmd(dir: Seq<char>) -> InvocationView {
    jj_in(dir).arg("diff"@).arg("--name-only"@)
}

/// The files of the parent of the working copy, which is the last commit
/// that somebody made.
pub open spec fn tracked_files_cmd(dir: Seq<char>) -> InvocationView {
    jj_in(dir).arg("file"@).arg("list"@).arg("-r"@).arg("@-"@)
}

pub open spec fn current_ref_id_cmd(dir: Seq<char>) -> InvocationView {
    jj_in(dir).arg("log"@).arg("--color=never"@).arg("--no-graph"@).arg("--revisions"@).arg(
        "@-"@,
    ).arg("--template"@).arg("commit_id"@)
}

pub open spec fn version_cmd() -> InvocationView {
    InvocationView::new(VCS_BIN_NAME@).arg("--version"@)
}

// ---------------------------------------------------------------------------
// Readings
// ---------------------------------------------------------------------------
/// The top-level directory: the one line that the command printed.
pub open spec fn root_answer(outcome: Outcome) -> Result<Seq<char>, DriverErrorView> {
    one_line("jj cli"@, "jj cli"@, outcome)
}

/// The dirty paths: the lines of the listing as they are.
pub open spec fn dirty_files_answer(clean_ok: bool, outcome: Outcome) -> Result<
    Seq<Seq<char>>,
    DriverErrorView,
> {
    expect_lines(outcome, min_dirty_lines(clean_ok), "jj cli: exec"@, Some(ERROR_REPO_NOT_DIRTY@))
}

/// The tracked paths: the lines of the listing as they are.
pub open spec fn tracked_files_answer(outcome: Outcome) -> Result<Seq<Seq<char>>, DriverErrorView> {
    expect_lines(outcome, 0, "jj cli: exec"@, None)
}

/// The commit identifier of the last commit: the one line that the command
/// printed. It is the identifier of the backing store, not the change
/// identifier.
pub open spec fn current_ref_id_answer(outcome: Outcome) -> Result<Seq<char>, DriverErrorView> {
    one_line("jj cli"@, "jj cli"@, outcome)
}

/// The identifier of the last commit, from the outcome of the one command
/// that asks for it.
pub open spec fn id_plan(dir: Seq<char>, seen: Seq<Outcome>) -> StepView<
    Result<Seq<char>, DriverErrorView>,
> {
    if seen.len() == 0 {
        StepView::Run(current_ref_id_cmd(dir))
    } else {
        StepView::Done { answer: current_ref_id_answer(seen[0]), read: 1 }
    }
}

// ---------------------------------------------------------------------------
// Plans
// ---------------------------------------------------------------------------
/// Where the question for the top-level directory stands after `seen`.
pub open spec fn root_plan(dir: Seq<char>, seen: Seq<Outcome>) -> StepView<
    Result<Seq<char>, DriverErrorView>,
> {
    if seen.len() == 0 {
        StepView::Run(root_cmd(dir))
    } else {
        StepView::Done { answer: root_answer(seen[0]), read: 1 }
    }
}

/// Where the question for the dirty files stands after `seen`.
pub open spec fn dirty_files_plan(dir: Seq<char>, clean_ok: bool, seen: Seq<Outcome>) -> StepView<
    Result<Seq<Seq<char>>, DriverErrorView>,
> {
    if seen.len() == 0 {
        StepView::Run(dirty_files_cmd(dir))
    } else {
        StepView::Done { answer: dirty_files_answer(clean_ok, seen[0]), read: 1 }
    }
}

/// Where the question for the tracked files stands after `seen`.
pub open spec fn tracked_files_plan(dir: Seq<char>, seen: Seq<Outcome>) -> StepView<
    Result<Seq<Seq<char>>, DriverErrorView>,
> {
    if seen.len() == 0 {
        StepView::Run(tracked_files_cmd(dir))
    } else {
        StepView::Done { answer: tracked_files_answer(seen[0]), read: 1 }
    }
}

/// Where the question for the current identifier stands after `seen`: the
/// check for a clean tree first, unless `dirty_ok`.
pub open spec fn current_ref_id_plan(
    dir: Seq<char>,
    dirty_ok: bool,
    seen: Seq<Outcome>,
) -> StepView<Result<Seq<char>, DriverErrorView>> {
    gated(
        dirty_ok,
        clean_from(dirty_files_plan(dir, true, seen)),
        |at: nat| id_plan(dir, seen.skip(at as int)),
    )
}

/// Where the question for the current name stands after `seen`: the check
/// for a clean tree first, unless `dirty_ok`, and then a failure, as this
/// driver has no way to find a name.
pub open spec fn current_ref_name_plan(
    dir: Seq<char>,
    dirty_ok: bool,
    seen: Seq<Outcome>,
) -> StepView<Result<Option<Seq<char>>, DriverErrorView>> {
    gated(
        dirty_ok,
        clean_from(dirty_files_plan(dir, true, seen)),
        |at: nat| StepView::Done { answer: Err(ref_name_unsupported("jj cli"@)), read: 0 },
    )
}

// ---------------------------------------------------------------------------
// The driver
// ---------------------------------------------------------------------------
/// A directory that Jujutsu manages.
#[derive(Debug, PartialEq, Eq)]
pub struct Repo {
    pub dir: QueryDir,
}

impl View for Repo {
    type V = Seq<char>;

    open spec fn view(&self) -> Seq<char> {
        self.dir@
    }
}

impl DeepView for Repo {
    type V = Seq<char>;

    open spec fn deep_view(&self) -> Seq<char> {
        self.dir@
    }
}

/// The one who finds out whether Jujutsu manages a directory, and whether
/// Jujutsu is there at all.
#[derive(Debug, Clone, Copy, PartialEq, Eq)]
pub struct Loader;

impl Repo {
    /// `jj`, to be run in the directory of this repository.
    pub fn start_shellout(&self) -> (cmd: Invocation)
        ensures
            cmd@ == jj_in(self@),
    {
        let mut cmd = Invocation::new(VCS_BIN_NAME);
        cmd.current_dir(self.dir.as_str());
        cmd
    }

    pub fn jj_root(&self) -> (cmd: Invocation)
        ensures
            cmd@ == root_cmd(self@),
    {
        let mut cmd = self.start_shellout();
        cmd.arg("root");
        cmd
    }

    pub fn jj_dirty_files(&self) -> (cmd: Invocation)
        ensures
            cmd@ == dirty_files_cmd(self@),
    {
        let mut cmd = self.start_shellout();
        cmd.arg("diff");
        cmd.arg("--name-only");
        cmd
    }

    pub fn jj_tracked_files(&self) -> (cmd: Invocation)
        ensures
            cmd@ == tracked_files_cmd(self@),
    {
        let mut cmd = self.start_shellout();
        cmd.arg("file");
        cmd.arg("list");
        cmd.arg("-r");
        cmd.arg("@-");
        cmd
    }

    pub fn jj_current_ref_id(&self) -> (cmd: Invocation)
        ensures
            cmd@ == current_ref_id_cmd(self@),
    {
        let mut cmd = self.start_shellout();
        cmd.arg("log");
        cmd.arg("--color=never");
        cmd.arg("--no-graph");
        cmd.arg("--revisions");
        cmd.arg("@-");
        cmd.arg("--template");
        cmd.arg("commit_id");
        cmd
    }
}

impl Driver for Repo {
    open spec fn dir_view(&self) -> Seq<char> {
        self@
    }

    open spec fn root_plan(&self, seen: Seq<Outcome>) -> StepView<
        Result<Seq<char>, DriverErrorView>,
    > {
        root_plan(self@, seen)
    }

    fn root(&self, seen: &[CmdResult]) -> (step: Step<Result<QueryDir, DriverError>>) {
        if seen.len() == 0 {
            return Step::Run(self.jj_root());
        }
        let answer = read_one_line("jj cli", "jj cli", clone_result(&seen[0]));
        Step::Done { answer, read: 1 }
    }

    open spec fn dirty_files_plan(&self, clean_ok: bool, seen: Seq<Outcome>) -> StepView<
        Result<Seq<Seq<char>>, DriverErrorView>,
    > {
        dirty_files_plan(self@, clean_ok, seen)
    }

    fn dirty_files(&self, clean_ok: bool, seen: &[CmdResult]) -> (step: Step<
        Result<Vec<QueryDir>, DriverError>,
    >) {
        if seen.len() == 0 {
            return Step::Run(self.jj_dirty_files());
        }
        let min_lines: u8 = if clean_ok {
            0
        } else {
            1
        };
        let answer = DriverError::expect_cmd_lines(
            clone_result(&seen[0]),
            min_lines,
            "jj cli: exec",
            Some(ERROR_REPO_NOT_DIRTY.to_owned()),
        );
        Step::Done { answer, read: 1 }
    }

    open spec fn tracked_files_plan(&self, seen: Seq<Outcome>) -> StepView<
        Result<Seq<Seq<char>>, DriverErrorView>,
    > {
        tracked_files_plan(self@, seen)
    }

    fn tracked_files(&self, seen: &[CmdResult]) -> (step: Step<
        Result<Vec<QueryDir>, DriverError>,
    >) {
        if seen.len() == 0 {
            return Step::Run(self.jj_tracked_files());
        }
        let answer = DriverError::expect_cmd_lines(
            clone_result(&seen[0]),
            0,
            "jj cli: exec",
            None,
        );
        Step::Done { answer, read: 1 }
    }

    open spec fn current_ref_id_plan(&self, dirty_ok: bool, seen: Seq<Outcome>) -> StepView<
        Result<Seq<char>, DriverErrorView>,
    > {
        current_ref_id_plan(self@, dirty_ok, seen)
    }

    fn current_ref_id(&self, dirty_ok: bool, seen: &[CmdResult]) -> (step: Step<
        Result<HistoryRefId, DriverError>,
    >) {
        let at = if dirty_ok {
            0
        } else {
            match gate(clean_step(self.dirty_files(true, seen))) {
                Gate::Shut(step) => {
                    return step;
                },
                Gate::Open(at) => at,
            }
        };
        let rest = rest_of(seen, at);
        if rest.len() == 0 {
            return Step::Run(self.jj_current_ref_id());
        }
        let answer = read_one_line("jj cli", "jj cli", clone_result(&rest[0]));
        Step::Done { answer, read: at + 1 }
    }

    open spec fn current_ref_name_plan(&self, dirty_ok: bool, seen: Seq<Outcome>) -> StepView<
        Result<Option<Seq<char>>, DriverErrorView>,
    > {
        current_ref_name_plan(self@, dirty_ok, seen)
    }

    fn current_ref_name(&self, dirty_ok: bool, seen: &[CmdResult]) -> (step: Step<
        Result<Option<HistoryRefName>, DriverError>,
    >) {
        let at = if dirty_ok {
            0
        } else {
            match gate(clean_step(self.dirty_files(true, seen))) {
                Gate::Shut(step) => {
                    return step;
                },
                Gate::Open(at) => at,
            }
        };
        Step::Done { answer: Err(no_ref_name("jj cli")), read: at }
    }
}

impl Validator for Loader {
    type Driver = Repo;

    open spec fn probe_cmd(&self, dir: Seq<char>) -> InvocationView {
        root_cmd(dir).quiet()
    }

    open spec fn probe_context(&self) -> Seq<char> {
        "jj cli"@
    }

    open spec fn health_cmd(&self) -> InvocationView {
        version_cmd()
    }

    open spec fn health_context(&self) -> Seq<char> {
        "jj cli: exec"@
    }

    /// Jujutsu manages `dir` if `jj root` succeeds there.
    fn new_driver(&self, dir: QueryDir, seen: &[CmdResult]) -> (step: Step<
        Result<Option<Repo>, DriverError>,
    >) {
        let repo = Repo { dir };
        if seen.len() == 0 {
            let mut cmd = repo.jj_root();
            cmd.silence();
            return Step::Run(cmd);
        }
        let answer = match DriverError::unwrap_cmd_lossy(
            "jj cli".to_owned(),
            clone_result(&seen[0]),
        ) {
            Err(e) => Err(e),
            Ok(output) => if output.status.success() {
                Ok(Some(repo))
            } else {
                Ok(None)
            },
        };
        Step::Done { answer, read: 1 }
    }

    fn check_health(&self, seen: &[CmdResult]) -> (step: Step<Result<VcsAvailable, DriverError>>) {
        if seen.len() == 0 {
            let mut cmd = Invocation::new(VCS_BIN_NAME);
            cmd.arg("--version");
            return Step::Run(cmd);
        }
        let answer = DriverError::expect_cmd_lossy(
            "jj cli: exec".to_owned(),
            clone_result(&seen[0]),
        );
        Step::Done { answer, read: 1 }
    }
}

} // verus!
