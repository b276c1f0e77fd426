//! The driver for Mercurial: which `hg` command answers each question, and
//! how its output reads.
use crate::cmd::{clone_result, CmdResult, Invocation, InvocationView, Outcome};
use crate::repo::{
    clean_from,
    clean_step,
    expect_lines,
    gate,
    gated,
    min_dirty_lines,
    no_ref_name,
    one_line,
    read_one_line,
    ref_name_unsupported,
    rest_of,
    Driver,
    DriverError,
    DriverErrorView,
    Gate,
    HistoryRefId,
    HistoryRefName,
    QueryDir,
    Step,
    StepView,
    Validator,
    VcsAvailable,
    ERROR_REPO_NOT_DIRTY,
};
use crate::text::{
    chars_of,
    ends_with,
    matches_at,
    skip_chars,
    skip_chars_each,
    starts_with,
    string_of,
    without_first,
};
use vstd::prelude::*;

verus! {

pub const VCS_BIN_NAME: &'static str = "hg";

/// What Mercurial puts behind the identifier of a working directory that
/// holds uncommitted changes.
pub const HG_LOGID_DIRTY_SUFFIX: &'static str = "+";

/// How a line of `hg status` begins that names a file without changes.
pub const HG_STATUS_CLEAN_MARK: &'static str = "C ";

/// How a line of `hg status` begins that names a tracked file with changes.
pub const HG_STATUS_MODIFIED_MARK: &'static str = "M ";

/// How a line of `hg status` begins that names a tracked file which the
/// next commit is to remove.
pub const HG_STATUS_REMOVED_MARK: &'static str = "R ";

/// How a line of `hg status` begins that names a tracked file which is
/// missing from the working directory.
pub const HG_STATUS_MISSING_MARK: &'static str = "! ";

/// How many characters of a line of `hg status` stand in front of the path:
/// one status mark and a space.
pub const HG_STATUS_PREFIX_WIDTH: usize = 2;

// ---------------------------------------------------------------------------
// Commands
// ---------------------------------------------------------------------------
/// `hg`, told to print for programs and not for people.
pub open spec fn hg_plain() -> InvocationView {
    InvocationView::new(VCS_BIN_NAME@).env("HGPLAIN"@, "1"@)
}

/// `hg`, run in `dir`.
pub open spec fn hg_in(dir: Seq<char>) -> InvocationView {
    hg_plain().current_dir(dir)
}

pub open spec fn root_cmd(dir: Seq<char>) -> InvocationView {
    hg_in(dir).arg("root"@)
}

pub open spec fn dirty_files_cmd(dir: Seq<char>) -> InvocationView {
    hg_in(dir).arg("status"@).arg("--modified"@).arg("--added"@).arg("--removed"@).arg(
        "--deleted"@,
    ).arg("--unknown"@)
}

pub open spec fn tracked_files_cmd(dir: Seq<char>) -> InvocationView {
    hg_in(dir).arg("status"@).arg("--all"@)
}

pub open spec fn current_id_cmd(dir: Seq<char>) -> InvocationView {
    hg_in(dir).arg("--debug"@).arg("id"@).arg("-i"@)
}

pub open spec fn version_cmd() -> InvocationView {
    hg_plain().arg("--version"@)
}

// ---------------------------------------------------------------------------
// Readings
// ---------------------------------------------------------------------------
/// The top-level directory: the one line that the command printed.
pub open spec fn root_answer(outcome: Outcome) -> Result<Seq<char>, DriverErrorView> {
    one_line("hg cli: exec"@, "hg cli"@, outcome)
}

/// The dirty paths: each line of the status listing without its mark.
pub open spec fn dirty_files_answer(clean_ok: bool, outcome: Outcome) -> Result<
    Seq<Seq<char>>,
    DriverErrorView,
> {
    match expect_lines(
        outcome,
        min_dirty_lines(clean_ok),
        "hg cli: exec"@,
        Some(ERROR_REPO_NOT_DIRTY@),
    ) {
        Err(e) => Err(e),
        Ok(lines) => Ok(
            lines.map_values(|line: Seq<char>| without_first(line, HG_STATUS_PREFIX_WIDTH as nat)),
        ),
    }
}

/// Whether a line of the full status listing names a file of the current
/// commit. Such a file is clean, modified, to be removed, or missing: in each
/// case the commit holds it, whatever has happened to it since. A file that
/// is added, not tracked or ignored is in no commit yet.
pub open spec fn in_current_commit(line: Seq<char>) -> bool {
    ||| starts_with(line, HG_STATUS_CLEAN_MARK@)
    ||| starts_with(line, HG_STATUS_MODIFIED_MARK@)
    ||| starts_with(line, HG_STATUS_REMOVED_MARK@)
    ||| starts_with(line, HG_STATUS_MISSING_MARK@)
}

/// The paths of those `lines` that name a file of the current commit, in
/// their order and without their marks.
pub open spec fn committed_paths(lines: Seq<Seq<char>>) -> Seq<Seq<char>>
    decreases lines.len(),
{
    if lines.len() == 0 {
        Seq::empty()
    } else if in_current_commit(lines.last()) {
        committed_paths(lines.drop_last()).push(
            without_first(lines.last(), HG_STATUS_PREFIX_WIDTH as nat),
        )
    } else {
        committed_paths(lines.drop_last())
    }
}

/// The tracked paths: the files of the current commit among those that the
/// full status listing names.
pub open spec fn tracked_files_answer(outcome: Outcome) -> Result<Seq<Seq<char>>, DriverErrorView> {
    match expect_lines(outcome, 0, "hg cli: exec"@, None) {
        Err(e) => Err(e),
        Ok(lines) => Ok(committed_paths(lines)),
    }
}

/// `id` without the mark of a dirty working directory behind it.
pub open spec fn without_dirty_mark(id: Seq<char>) -> Seq<char> {
    if ends_with(id, HG_LOGID_DIRTY_SUFFIX@) {
        id.subrange(0, id.len() - HG_LOGID_DIRTY_SUFFIX@.len())
    } else {
        id
    }
}

/// The identifier of the working directory's parent: the one line that the
/// command printed, without the mark of a dirty working directory.
pub open spec fn current_ref_id_answer(outcome: Outcome) -> Result<Seq<char>, DriverErrorView> {
    match one_line("hg cli :exec"@, "hg cli: exec"@, outcome) {
        Err(e) => Err(e),
        Ok(id) => Ok(without_dirty_mark(id)),
    }
}

/// The identifier of the working directory's parent, from the outcome of the
/// one command that asks for it.
pub open spec fn id_plan(dir: Seq<char>, seen: Seq<Outcome>) -> StepView<
    Result<Seq<char>, DriverErrorView>,
> {
    if seen.len() == 0 {
        StepView::Run(current_id_cmd(dir))
    } else {
        StepView::Done { answer: current_ref_id_answer(seen[0]), read: 1 }
    }
}

// ---------------------------------------------------------------------------
// Plans
// ---------------------------------------------------------------------------
/// Where the question for the top-level directory stands after `seen`.
pub open spec fn root_plan(dir: Seq<char>, seen: Seq<Outcome>) -> StepView<
    Result<Seq<char>, DriverErrorView>,
> {
    if seen.len() == 0 {
        StepView::Run(root_cmd(dir))
    } else {
        StepView::Done { answer: root_answer(seen[0]), read: 1 }
    }
}

/// Where the question for the dirty files stands after `seen`.
pub open spec fn dirty_files_plan(dir: Seq<char>, clean_ok: bool, seen: Seq<Outcome>) -> StepView<
    Result<Seq<Seq<char>>, DriverErrorView>,
> {
    if seen.len() == 0 {
        StepView::Run(dirty_files_cmd(dir))
    } else {
        StepView::Done { answer: dirty_files_answer(clean_ok, seen[0]), read: 1 }
    }
}

/// Where the question for the tracked files stands after `seen`.
pub open spec fn tracked_files_plan(dir: Seq<char>, seen: Seq<Outcome>) -> StepView<
    Result<Seq<Seq<char>>, DriverErrorView>,
> {
    if seen.len() == 0 {
        StepView::Run(tracked_files_cmd(dir))
    } else {
        StepView::Done { answer: tracked_files_answer(seen[0]), read: 1 }
    }
}

/// Where the question for the current identifier stands after `seen`: the
/// check for a clean tree first, unless `dirty_ok`.
pub open spec fn current_ref_id_plan(
    dir: Seq<char>,
    dirty_ok: bool,
    seen: Seq<Outcome>,
) -> StepView<Result<Seq<char>, DriverErrorView>> {
    gated(
        dirty_ok,
        clean_from(dirty_files_plan(dir, true, seen)),
        |at: nat| id_plan(dir, seen.skip(at as int)),
    )
}

/// Where the question for the current name stands after `seen`: the check
/// for a clean tree first, unless `dirty_ok`, and then a failure, as this
/// driver has no way to find a name.
pub open spec fn current_ref_name_plan(
    dir: Seq<char>,
    dirty_ok: bool,
    seen: Seq<Outcome>,
) -> StepView<Result<Option<Seq<char>>, DriverErrorView>> {
    gated(
        dirty_ok,
        clean_from(dirty_files_plan(dir, true, seen)),
        |at: nat| StepView::Done { answer: Err(ref_name_unsupported("hg cli"@)), read: 0 },
    )
}

// ---------------------------------------------------------------------------
// The driver
// ---------------------------------------------------------------------------
/// A directory that Mercurial manages.
#[derive(Debug, PartialEq, Eq)]
pub struct Repo {
    pub dir: QueryDir,
}

impl View for Repo {
    type V = Seq<char>;

    open spec fn view(&self) -> Seq<char> {
        self.dir@
    }
}

impl DeepView for Repo {
    type V = Seq<char>;

    open spec fn deep_view(&self) -> Seq<char> {
        self.dir@
    }
}

/// The one who finds out whether Mercurial manages a directory, and whether
/// Mercurial is there at all.
#[derive(Debug, Clone, Copy, PartialEq, Eq)]
pub struct Loader;

/// `hg`, told to print for programs and not for people.
pub fn start_vcs_shellout() -> (cmd: Invocation)
    ensures
        cmd@ == hg_plain(),
{
    let mut cmd = Invocation::new(VCS_BIN_NAME);
    cmd.env("HGPLAIN", "1");
    cmd
}

impl Repo {
    /// `hg`, to be run in the directory of this repository.
    pub fn start_shellout(&self) -> (cmd: Invocation)
        ensures
            cmd@ == hg_in(self@),
    {
        let mut cmd = start_vcs_shellout();
        cmd.current_dir(self.dir.as_str());
        cmd
    }

    pub fn hg_root(&self) -> (cmd: Invocation)
        ensures
            cmd@ == root_cmd(self@),
    {
        let mut cmd = self.start_shellout();
        cmd.arg("root");
        cmd
    }

    pub fn hg_dirty_files(&self) -> (cmd: Invocation)
        ensures
            cmd@ == dirty_files_cmd(self@),
    {
        let mut cmd = self.start_shellout();
        cmd.arg("status");
        cmd.arg("--modified");
        cmd.arg("--added");
        cmd.arg("--removed");
        cmd.arg("--deleted");
        cmd.arg("--unknown");
        cmd
    }

    pub fn hg_tracked_files(&self) -> (cmd: Invocation)
        ensures
            cmd@ == tracked_files_cmd(self@),
    {
        let mut cmd = self.start_shellout();
        cmd.arg("status");
        cmd.arg("--all");
        cmd
    }

    pub fn hg_current_id(&self) -> (cmd: Invocation)
        ensures
            cmd@ == current_id_cmd(self@),
    {
        let mut cmd = self.start_shellout();
        cmd.arg("--debug");
        cmd.arg("id");
        cmd.arg("-i");
        cmd
    }

    /// Whether a line of the full status listing names a file of the current
    /// commit.
    pub fn names_committed_file(line: &str) -> (found: bool)
        ensures
            found == in_current_commit(line@),
    {
        let chars = chars_of(line);
        matches_at(&chars, &chars_of(HG_STATUS_CLEAN_MARK), 0) || matches_at(
            &chars,
            &chars_of(HG_STATUS_MODIFIED_MARK),
            0,
        ) || matches_at(&chars, &chars_of(HG_STATUS_REMOVED_MARK), 0) || matches_at(
            &chars,
            &chars_of(HG_STATUS_MISSING_MARK),
            0,
        )
    }

    /// The paths of those `lines` that name a file of the current commit.
    pub fn keep_committed(lines: &Vec<String>) -> (files: Vec<QueryDir>)
        ensures
            files.deep_view() == committed_paths(lines.deep_view()),
    {
        let ghost all = lines.deep_view();
        let mut files: Vec<QueryDir> = Vec::new();
        let mut i: usize = 0;
        while i < lines.len()
            invariant
                i <= lines.len(),
                all == lines.deep_view(),
                files.deep_view() == committed_paths(all.take(i as int)),
            decreases lines.len() - i,
        {
            let line = lines[i].as_str();
            assert(all.take(i + 1).drop_last() == all.take(i as int));
            if Self::names_committed_file(line) {
                files.push(skip_chars(line, HG_STATUS_PREFIX_WIDTH));
            }
            i += 1;
        }
        assert(all.take(lines.len() as int) == all);
        files
    }

    /// `id` without the mark of a dirty working directory behind it.
    pub fn strip_dirty_mark(id: String) -> (res: HistoryRefId)
        ensures
            res@ == without_dirty_mark(id@),
    {
        let chars = chars_of(id.as_str());
        let mark = chars_of(HG_LOGID_DIRTY_SUFFIX);
        if mark.len() <= chars.len() && matches_at(&chars, &mark, chars.len() - mark.len()) {
            string_of(&chars, 0, chars.len() - mark.len())
        } else {
            id
        }
    }
}

impl Driver for Repo {
    open spec fn dir_view(&self) -> Seq<char> {
        self@
    }

    open spec fn root_plan(&self, seen: Seq<Outcome>) -> StepView<
        Result<Seq<char>, DriverErrorView>,
    > {
        root_plan(self@, seen)
    }

    fn root(&self, seen: &[CmdResult]) -> (step: Step<Result<QueryDir, DriverError>>) {
        if seen.len() == 0 {
            return Step::Run(self.hg_root());
        }
        let answer = read_one_line("hg cli: exec", "hg cli", clone_result(&seen[0]));
        Step::Done { answer, read: 1 }
    }

    open spec fn dirty_files_plan(&self, clean_ok: bool, seen: Seq<Outcome>) -> StepView<
        Result<Seq<Seq<char>>, DriverErrorView>,
    > {
        dirty_files_plan(self@, clean_ok, seen)
    }

    fn dirty_files(&self, clean_ok: bool, seen: &[CmdResult]) -> (step: Step<
        Result<Vec<QueryDir>, DriverError>,
    >) {
        if seen.len() == 0 {
            return Step::Run(self.hg_dirty_files());
        }
        let min_lines: u8 = if clean_ok {
            0
        } else {
            1
        };
        let answer = match DriverError::expect_cmd_lines(
            clone_result(&seen[0]),
            min_lines,
            "hg cli: exec",
            Some(ERROR_REPO_NOT_DIRTY.to_owned()),
        ) {
            Err(e) => Err(e),
            // The first two characters of a line say how the file was
            // changed, such as "? " for a file that is not tracked.
            Ok(lines) => Ok(skip_chars_each(&lines, HG_STATUS_PREFIX_WIDTH)),
        };
        Step::Done { answer, read: 1 }
    }

    open spec fn tracked_files_plan(&self, seen: Seq<Outcome>) -> StepView<
        Result<Seq<Seq<char>>, DriverErrorView>,
    > {
        tracked_files_plan(self@, seen)
    }

    fn tracked_files(&self, seen: &[CmdResult]) -> (step: Step<
        Result<Vec<QueryDir>, DriverError>,
    >) {
        if seen.len() == 0 {
            return Step::Run(self.hg_tracked_files());
        }
        let answer = match DriverError::expect_cmd_lines(
            clone_result(&seen[0]),
            0,
            "hg cli: exec",
            None,
        ) {
            Err(e) => Err(e),
            Ok(lines) => Ok(Self::keep_committed(&lines)),
        };
        Step::Done { answer, read: 1 }
    }

    open spec fn current_ref_id_plan(&self, dirty_ok: bool, seen: Seq<Outcome>) -> StepView<
        Result<Seq<char>, DriverErrorView>,
    > {
        current_ref_id_plan(self@, dirty_ok, seen)
    }

    fn current_ref_id(&self, dirty_ok: bool, seen: &[CmdResult]) -> (step: Step<
        Result<HistoryRefId, DriverError>,
    >) {
        let at = if dirty_ok {
            0
        } else {
            match gate(clean_step(self.dirty_files(true, seen))) {
                Gate::Shut(step) => {
                    return step;
                },
                Gate::Open(at) => at,
            }
        };
        let rest = rest_of(seen, at);
        if rest.len() == 0 {
            return Step::Run(self.hg_current_id());
        }
        let answer = match read_one_line("hg cli :exec", "hg cli: exec", clone_result(&rest[0])) {
            Err(e) => Err(e),
            Ok(id) => Ok(Self::strip_dirty_mark(id)),
        };
        Step::Done { answer, read: at + 1 }
    }

    open spec fn current_ref_name_plan(&self, dirty_ok: bool, seen: Seq<Outcome>) -> StepView<
        Result<Option<Seq<char>>, DriverErrorView>,
    > {
        current_ref_name_plan(self@, dirty_ok, seen)
    }

    fn current_ref_name(&self, dirty_ok: bool, seen: &[CmdResult]) -> (step: Step<
        Result<Option<HistoryRefName>, DriverError>,
    >) {
        let at = if dirty_ok {
            0
        } else {
            match gate(clean_step(self.dirty_files(true, seen))) {
                Gate::Shut(step) => {
                    return step;
                },
                Gate::Open(at) => at,
            }
        };
        Step::Done { answer: Err(no_ref_name("hg cli")), read: at }
    }
}

impl Validator for Loader {
    type Driver = Repo;

    open spec fn probe_cmd(&self, dir: Seq<char>) -> InvocationView {
        root_cmd(dir).quiet()
    }

    open spec fn probe_context(&self) -> Seq<char> {
        "hg cli"@
    }

    open spec fn health_cmd(&self) -> InvocationView {
        version_cmd()
    }

    open spec fn health_context(&self) -> Seq<char> {
        "hg cli: exec"@
    }

    /// Mercurial manages `dir` if `hg root` succeeds there.
    fn new_driver(&self, dir: QueryDir, seen: &[CmdResult]) -> (step: Step<
        Result<Option<Repo>, DriverError>,
    >) {
        let repo = Repo { dir };
        if seen.len() == 0 {
            let mut cmd = repo.hg_root();
            cmd.silence();
            return Step::Run(cmd);
        }
        let answer = match DriverError::unwrap_cmd_lossy(
            "hg cli".to_owned(),
            clone_result(&seen[0]),
        ) {
            Err(e) => Err(e),
            Ok(output) => if output.status.success() {
                Ok(Some(repo))
            } else {
                Ok(None)
            },
        };
        Step::Done { answer, read: 1 }
    }

    fn check_health(&self, seen: &[CmdResult]) -> (step: Step<Result<VcsAvailable, DriverError>>) {
        if seen.len() == 0 {
            let mut cmd = start_vcs_shellout();
            cmd.arg("--version");
            return Step::Run(cmd);
        }
        let answer = DriverError::expect_cmd_lossy(
            "hg cli: exec".to_owned(),
            clone_result(&seen[0]),
        );
        Step::Done { answer, read: 1 }
    }
}

// ---------------------------------------------------------------------------
// Laws
// ---------------------------------------------------------------------------
/// Some line of `lines` names `path` as a file of the current commit.
pub open spec fn names_in_commit(lines: Seq<Seq<char>>, path: Seq<char>) -> bool {
    exists|i: int|
        0 <= i < lines.len() && in_current_commit(#[trigger] lines[i]) && without_first(
            lines[i],
            HG_STATUS_PREFIX_WIDTH as nat,
        ) == path
}

/// The tracked files are the files of the current commit, whatever has been
/// done to them since: a path is listed exactly if some line names it as
/// clean, modified, to be removed or missing.
pub proof fn law_edits_do_not_hide_tracked_files(lines: Seq<Seq<char>>, path: Seq<char>)
    ensures
        committed_paths(lines).contains(path) <==> names_in_commit(lines, path),
    decreases lines.len(),
{
    let paths = committed_paths(lines);
    if lines.len() > 0 {
        let before = lines.drop_last();
        let kept = committed_paths(before);
        let last = lines.len() - 1;
        law_edits_do_not_hide_tracked_files(before, path);
        if names_in_commit(lines, path) {
            let i = choose|i: int|
                0 <= i < lines.len() && in_current_commit(#[trigger] lines[i]) && without_first(
                    lines[i],
                    HG_STATUS_PREFIX_WIDTH as nat,
                ) == path;
            if i == last {
                assert(paths[paths.len() - 1] == path);
            } else {
                assert(before[i] == lines[i]);
                assert(names_in_commit(before, path));
                let k = choose|k: int| 0 <= k < kept.len() && kept[k] == path;
                assert(paths[k] == path);
            }
        }
        if paths.contains(path) {
            let k = choose|k: int| 0 <= k < paths.len() && paths[k] == path;
            if k < kept.len() {
                assert(kept[k] == path);
                assert(kept.contains(path));
                let i = choose|i: int|
                    0 <= i < before.len() && in_current_commit(#[trigger] before[i])
                        && without_first(before[i], HG_STATUS_PREFIX_WIDTH as nat) == path;
                assert(lines[i] == before[i]);
            } else {
                assert(in_current_commit(lines[last]));
            }
        }
    }
}

} // verus!
