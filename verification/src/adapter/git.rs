//! The driver for Git: which `git` command answers each question, and how
//! its output reads.
use crate::cmd::{
    clone_result,
    lossy_text,
    outcome_of,
    transcript_of,
    CmdResult,
    Invocation,
    InvocationView,
    Outcome,
};
use crate::repo::{
    after,
    clean_from,
    clean_step,
    expect_line,
    expect_lines,
    expect_lossy,
    gate,
    gated,
    min_dirty_lines,
    multiple_lines_message,
    one_line,
    read_one_line,
    rest_of,
    result_of,
    step_of,
    Driver,
    DriverError,
    DriverErrorView,
    Gate,
    HistoryRefId,
    HistoryRefName,
    QueryDir,
    Step,
    StepView,
    Validator,
    VcsAvailable,
    ERROR_REPO_NOT_DIRTY,
};
use crate::text::{
    chars_of,
    contains,
    has_substring,
    lines_of,
    matches_at,
    skip_chars_each,
    split_on,
    split_pieces,
    starts_with,
    string_of,
    strip_marks,
    without_first,
    without_prefix,
    without_suffix,
};
use vstd::prelude::*;

verus! {

pub const VCS_BIN_NAME: &'static str = "git";

/// How Git begins its complaint that `HEAD` names no revision, which is what
/// it says in a repository without a single commit.
pub const GIT_ERROR_NO_LOG_YET: &'static str = "fatal: ambiguous argument 'HEAD': unknown revision";

/// How Git complains that `HEAD` names no tree to list, which is what it says
/// in a repository without a single commit.
pub const GIT_ERROR_NO_TREE_YET: &'static str = "Not a valid object name HEAD";

/// The identifier that stands for "no commit has been made yet": all zeros,
/// and as long as the identifiers that Git makes, which is Git's own way of
/// naming no commit.
pub const GIT_SYNTHETIC_FIRST_COMMIT_ID: &'static str =
    "0000000000000000000000000000000000000000";

/// What Git puts in front of the decorations of a commit, because it was
/// asked to. Nobody names a branch or a tag like this, or like any of the
/// four marks that follow.
pub const GIT_LOG_SCRAPED_PREFIX: &'static str =
    "VCSQ_SCRAPING_0ff8325e7d74a838d39cdffff9cddcecdce30f10_prefix";

/// What Git puts between `HEAD` and the branch it points to.
pub const GIT_LOG_SCRAPED_POINTER: &'static str =
    "VCSQ_SCRAPING_0ff8325e7d74a838d39cdffff9cddcecdce30f10_pointer";

/// What Git puts behind the decorations of a commit.
pub const GIT_LOG_SCRAPED_SUFFIX: &'static str =
    "VCSQ_SCRAPING_0ff8325e7d74a838d39cdffff9cddcecdce30f10_suffix";

/// What Git puts in front of the name of a tag.
pub const GIT_LOG_SCRAPED_TAG: &'static str =
    "VCSQ_SCRAPING_0ff8325e7d74a838d39cdffff9cddcecdce30f10_tag";

/// What Git puts between two decorations of a commit.
pub const GIT_LOG_SCRAPED_SEP: &'static str =
    "VCSQ_SCRAPING_0ff8325e7d74a838d39cdffff9cddcecdce30f10_separator";

/// The option that asks for [`GIT_LOG_SCRAPED_PREFIX`].
pub const GIT_LOG_SCRAPABLE_PRETTY_DECOR_PREFIX: &'static str =
    "prefix=VCSQ_SCRAPING_0ff8325e7d74a838d39cdffff9cddcecdce30f10_prefix";

/// The option that asks for [`GIT_LOG_SCRAPED_POINTER`].
pub const GIT_LOG_SCRAPABLE_PRETTY_DECOR_POINTER: &'static str =
    "pointer=VCSQ_SCRAPING_0ff8325e7d74a838d39cdffff9cddcecdce30f10_pointer";

/// The option that asks for [`GIT_LOG_SCRAPED_SUFFIX`].
pub const GIT_LOG_SCRAPABLE_PRETTY_DECOR_SUFFIX: &'static str =
    "suffix=VCSQ_SCRAPING_0ff8325e7d74a838d39cdffff9cddcecdce30f10_suffix";

/// The option that asks for [`GIT_LOG_SCRAPED_TAG`].
pub const GIT_LOG_SCRAPABLE_PRETTY_DECOR_TAG: &'static str =
    "tag=VCSQ_SCRAPING_0ff8325e7d74a838d39cdffff9cddcecdce30f10_tag";

/// The option that asks for [`GIT_LOG_SCRAPED_SEP`].
pub const GIT_LOG_SCRAPABLE_PRETTY_DECOR_SEP: &'static str =
    "separator=VCSQ_SCRAPING_0ff8325e7d74a838d39cdffff9cddcecdce30f10_separator";

/// The option that makes `git log` print the decorations of a commit between
/// marks of the library's own choosing: the five options above, each with a
/// comma behind it.
pub const GIT_LOG_SCRAPABLE_PRETTY_FLAG: &'static str =
    "--pretty=%(decorate:prefix=VCSQ_SCRAPING_0ff8325e7d74a838d39cdffff9cddcecdce30f10_prefix,pointer=VCSQ_SCRAPING_0ff8325e7d74a838d39cdffff9cddcecdce30f10_pointer,suffix=VCSQ_SCRAPING_0ff8325e7d74a838d39cdffff9cddcecdce30f10_suffix,tag=VCSQ_SCRAPING_0ff8325e7d74a838d39cdffff9cddcecdce30f10_tag,separator=VCSQ_SCRAPING_0ff8325e7d74a838d39cdffff9cddcecdce30f10_separator,)";

/// How many characters of a line of `git status --porcelain` stand in front
/// of the path: two status marks and a space.
pub const GIT_STATUS_PREFIX_WIDTH: usize = 3;

// ---------------------------------------------------------------------------
// Commands
// ---------------------------------------------------------------------------
/// `git`, run in `dir`.
pub open spec fn git_in(dir: Seq<char>) -> InvocationView {
    InvocationView::new(VCS_BIN_NAME@).current_dir(dir)
}

pub open spec fn show_top_level_cmd(dir: Seq<char>) -> InvocationView {
    git_in(dir).arg("rev-parse"@).arg("--show-toplevel"@)
}

pub open spec fn dirty_files_cmd(dir: Seq<char>) -> InvocationView {
    git_in(dir).arg("status"@).arg("--porcelain"@)
}

/// The files of the commit that `HEAD` names. What is staged for the next
/// commit is not in it, and what is staged for removal still is.
pub open spec fn tracked_files_cmd(dir: Seq<char>) -> InvocationView {
    git_in(dir).arg("ls-tree"@).arg("-r"@).arg("--name-only"@).arg("HEAD"@)
}

pub open spec fn current_ref_id_cmd(dir: Seq<char>) -> InvocationView {
    git_in(dir).arg("rev-parse"@).arg("HEAD"@)
}

pub open spec fn current_ref_name_cmd(dir: Seq<char>) -> InvocationView {
    git_in(dir).arg("log"@).arg(GIT_LOG_SCRAPABLE_PRETTY_FLAG@).arg("HEAD"@).arg("-1"@)
}

pub open spec fn current_branch_cmd(dir: Seq<char>) -> InvocationView {
    git_in(dir).arg("branch"@).arg("--show-current"@)
}

pub open spec fn version_cmd() -> InvocationView {
    InvocationView::new(VCS_BIN_NAME@).arg("--version"@)
}

// ---------------------------------------------------------------------------
// Readings
// ---------------------------------------------------------------------------
/// The top-level directory: the one line that the command printed.
pub open spec fn root_answer(outcome: Outcome) -> Result<Seq<char>, DriverErrorView> {
    one_line("git cli"@, "git cli"@, outcome)
}

/// The dirty paths: each line of the status listing without its marks. A
/// path that Git writes between quotes, or as a rename, is given the way Git
/// writes it.
pub open spec fn dirty_files_answer(clean_ok: bool, outcome: Outcome) -> Result<
    Seq<Seq<char>>,
    DriverErrorView,
> {
    match expect_lines(
        outcome,
        min_dirty_lines(clean_ok),
        "git cli: exec"@,
        Some(ERROR_REPO_NOT_DIRTY@),
    ) {
        Err(e) => Err(e),
        Ok(lines) => Ok(
            lines.map_values(
                |line: Seq<char>| without_first(line, GIT_STATUS_PREFIX_WIDTH as nat),
            ),
        ),
    }
}

/// The tracked paths: the lines of the listing as they are, a path between
/// quotes where Git writes it so. Where the
/// command failed because there is no commit yet, no file is tracked, and
/// that is no failure.
pub open spec fn tracked_files_answer(outcome: Outcome) -> Result<Seq<Seq<char>>, DriverErrorView> {
    match expect_lines(outcome, 0, "git cli: exec"@, None) {
        Ok(lines) => Ok(lines),
        Err(DriverErrorView::Stderr { context, stderr }) => if has_substring(
            stderr,
            GIT_ERROR_NO_TREE_YET@,
        ) {
            Ok(Seq::empty())
        } else {
            Err(DriverErrorView::Stderr { context, stderr })
        },
        Err(e) => Err(e),
    }
}

/// The identifier of `HEAD`: the one line that the command printed. Where
/// the command failed because there is no commit yet, the answer is the
/// all-zero identifier and no failure.
pub open spec fn current_ref_id_answer(outcome: Outcome) -> Result<Seq<char>, DriverErrorView> {
    match expect_lossy("git cli :exec"@, outcome) {
        Ok(output) => expect_line("git cli: exec"@, output.stdout),
        Err(DriverErrorView::Stderr { context, stderr }) => if has_substring(
            stderr,
            GIT_ERROR_NO_LOG_YET@,
        ) {
            Ok(GIT_SYNTHETIC_FIRST_COMMIT_ID@)
        } else {
            Err(DriverErrorView::Stderr { context, stderr })
        },
        Err(e) => Err(e),
    }
}

/// The decorations that `line` lists: what stands between the mark in front
/// of them and the mark behind them, cut at the mark between two of them.
pub open spec fn decorations_in(line: Seq<char>) -> Seq<Seq<char>> {
    split_on(
        without_suffix(without_prefix(line, GIT_LOG_SCRAPED_PREFIX@), GIT_LOG_SCRAPED_SUFFIX@),
        GIT_LOG_SCRAPED_SEP@,
    )
}

/// The last of `pieces` that is marked as a tag, without the mark.
pub open spec fn last_tag(pieces: Seq<Seq<char>>) -> Option<Seq<char>>
    decreases pieces.len(),
{
    if pieces.len() == 0 {
        None
    } else if starts_with(pieces.last(), GIT_LOG_SCRAPED_TAG@) {
        Some(without_first(pieces.last(), GIT_LOG_SCRAPED_TAG@.len()))
    } else {
        last_tag(pieces.drop_last())
    }
}

/// The tag among the decorations that `line` lists.
pub open spec fn tag_in(line: Seq<char>) -> Option<Seq<char>> {
    last_tag(decorations_in(line))
}

/// The decorations of `HEAD`: the one line that the command printed.
pub open spec fn decorations_answer(outcome: Outcome) -> Result<Seq<char>, DriverErrorView> {
    one_line("git cli :exec"@, "git cli: exec"@, outcome)
}

/// The branch that `stdout` names: the one line it consists of. Where it
/// holds no line, or an empty one, there is no branch, as on a detached
/// `HEAD`, and that is no failure. Several lines are one.
pub open spec fn branch_in(stdout: Seq<char>) -> Result<Option<Seq<char>>, DriverErrorView> {
    let lines = lines_of(stdout);
    if lines.len() > 1 {
        Err(DriverErrorView::Unknown(multiple_lines_message("git cli: exec"@, lines)))
    } else if lines.len() == 0 || lines[0].len() == 0 {
        Ok(None)
    } else {
        Ok(Some(lines[0]))
    }
}

/// The current branch, if `HEAD` is on one: see [`branch_in`]. The command
/// must have succeeded.
pub open spec fn branch_answer(outcome: Outcome) -> Result<Option<Seq<char>>, DriverErrorView> {
    match expect_lossy("git cli :exec"@, outcome) {
        Err(e) => Err(e),
        Ok(output) => branch_in(output.stdout),
    }
}

/// The name of `HEAD`, from the outcomes of the command that lists its
/// decorations and, if these hold no tag, of the command that names the
/// current branch. A tag comes before a branch.
pub open spec fn name_plan(dir: Seq<char>, seen: Seq<Outcome>) -> StepView<
    Result<Option<Seq<char>>, DriverErrorView>,
> {
    if seen.len() == 0 {
        StepView::Run(current_ref_name_cmd(dir))
    } else {
        match decorations_answer(seen[0]) {
            Err(e) => StepView::Done { answer: Err(e), read: 1 },
            Ok(line) => match tag_in(line) {
                Some(tag) => StepView::Done { answer: Ok(Some(tag)), read: 1 },
                None => if seen.len() == 1 {
                    StepView::Run(current_branch_cmd(dir))
                } else {
                    StepView::Done { answer: branch_answer(seen[1]), read: 2 }
                },
            },
        }
    }
}

/// The identifier of `HEAD`, from the outcome of the one command that asks
/// for it.
pub open spec fn id_plan(dir: Seq<char>, seen: Seq<Outcome>) -> StepView<
    Result<Seq<char>, DriverErrorView>,
> {
    if seen.len() == 0 {
        StepView::Run(current_ref_id_cmd(dir))
    } else {
        StepView::Done { answer: current_ref_id_answer(seen[0]), read: 1 }
    }
}

// ---------------------------------------------------------------------------
// Plans
// ---------------------------------------------------------------------------
/// Where the question for the top-level directory stands after `seen`.
pub open spec fn root_plan(dir: Seq<char>, seen: Seq<Outcome>) -> StepView<
    Result<Seq<char>, DriverErrorView>,
> {
    if seen.len() == 0 {
        StepView::Run(show_top_level_cmd(dir))
    } else {
        StepView::Done { answer: root_answer(seen[0]), read: 1 }
    }
}

/// Where the question for the dirty files stands after `seen`.
pub open spec fn dirty_files_plan(dir: Seq<char>, clean_ok: bool, seen: Seq<Outcome>) -> StepView<
    Result<Seq<Seq<char>>, DriverErrorView>,
> {
    if seen.len() == 0 {
        StepView::Run(dirty_files_cmd(dir))
    } else {
        StepView::Done { answer: dirty_files_answer(clean_ok, seen[0]), read: 1 }
    }
}

/// Where the question for the tracked files stands after `seen`.
pub open spec fn tracked_files_plan(dir: Seq<char>, seen: Seq<Outcome>) -> StepView<
    Result<Seq<Seq<char>>, DriverErrorView>,
> {
    if seen.len() == 0 {
        StepView::Run(tracked_files_cmd(dir))
    } else {
        StepView::Done { answer: tracked_files_answer(seen[0]), read: 1 }
    }
}

/// Where the question for the current identifier stands after `seen`: the
/// check for a clean tree first, unless `dirty_ok`.
pub open spec fn current_ref_id_plan(
    dir: Seq<char>,
    dirty_ok: bool,
    seen: Seq<Outcome>,
) -> StepView<Result<Seq<char>, DriverErrorView>> {
    gated(
        dirty_ok,
        clean_from(dirty_files_plan(dir, true, seen)),
        |at: nat| id_plan(dir, seen.skip(at as int)),
    )
}

/// Where the question for the current name stands after `seen`: the check
/// for a clean tree first, unless `dirty_ok`.
pub open spec fn current_ref_name_plan(
    dir: Seq<char>,
    dirty_ok: bool,
    seen: Seq<Outcome>,
) -> StepView<Result<Option<Seq<char>>, DriverErrorView>> {
    gated(
        dirty_ok,
        clean_from(dirty_files_plan(dir, true, seen)),
        |at: nat| name_plan(dir, seen.skip(at as int)),
    )
}

// ---------------------------------------------------------------------------
// The driver
// ---------------------------------------------------------------------------
/// A directory that Git manages.
#[derive(Debug, PartialEq, Eq)]
pub struct Repo {
    pub dir: QueryDir,
}

impl View for Repo {
    type V = Seq<char>;

    open spec fn view(&self) -> Seq<char> {
        self.dir@
    }
}

impl DeepView for Repo {
    type V = Seq<char>;

    open spec fn deep_view(&self) -> Seq<char> {
        self.dir@
    }
}

/// The one who finds out whether Git manages a directory, and whether Git
/// is there at all.
#[derive(Debug, Clone, Copy, PartialEq, Eq)]
pub struct Loader;

impl Repo {
    /// `git`, to be run in the directory of this repository.
    pub fn start_shellout(&self) -> (cmd: Invocation)
        ensures
            cmd@ == git_in(self@),
    {
        let mut cmd = Invocation::new(VCS_BIN_NAME);
        cmd.current_dir(self.dir.as_str());
        cmd
    }

    pub fn git_show_top_level(&self) -> (cmd: Invocation)
        ensures
            cmd@ == show_top_level_cmd(self@),
    {
        let mut cmd = self.start_shellout();
        cmd.arg("rev-parse");
        cmd.arg("--show-toplevel");
        cmd
    }

    pub fn git_dirty_files(&self) -> (cmd: Invocation)
        ensures
            cmd@ == dirty_files_cmd(self@),
    {
        let mut cmd = self.start_shellout();
        cmd.arg("status");
        cmd.arg("--porcelain");
        cmd
    }

    pub fn git_tracked_files(&self) -> (cmd: Invocation)
        ensures
            cmd@ == tracked_files_cmd(self@),
    {
        let mut cmd = self.start_shellout();
        cmd.arg("ls-tree");
        cmd.arg("-r");
        cmd.arg("--name-only");
        cmd.arg("HEAD");
        cmd
    }

    pub fn git_current_ref_id(&self) -> (cmd: Invocation)
        ensures
            cmd@ == current_ref_id_cmd(self@),
    {
        let mut cmd = self.start_shellout();
        cmd.arg("rev-parse");
        cmd.arg("HEAD");
        cmd
    }

    pub fn git_current_ref_name(&self) -> (cmd: Invocation)
        ensures
            cmd@ == current_ref_name_cmd(self@),
    {
        let mut cmd = self.start_shellout();
        cmd.arg("log");
        cmd.arg(GIT_LOG_SCRAPABLE_PRETTY_FLAG);
        cmd.arg("HEAD");
        cmd.arg("-1");
        cmd
    }

    pub fn git_current_branch(&self) -> (cmd: Invocation)
        ensures
            cmd@ == current_branch_cmd(self@),
    {
        let mut cmd = self.start_shellout();
        cmd.arg("branch");
        cmd.arg("--show-current");
        cmd
    }

    /// The tracked files as the outcome of `git ls-tree -r --name-only HEAD`
    /// gives them.
    pub fn read_tracked_files(outcome: CmdResult) -> (res: Result<Vec<QueryDir>, DriverError>)
        ensures
            result_of(res) == tracked_files_answer(outcome_of(outcome)),
    {
        match DriverError::expect_cmd_lines(outcome, 0, "git cli: exec", None) {
            Ok(lines) => Ok(lines),
            Err(DriverError::Stderr { context, stderr }) => {
                if contains(stderr.as_str(), GIT_ERROR_NO_TREE_YET) {
                    let none: Vec<QueryDir> = Vec::new();
                    assert(none.deep_view() == Seq::<Seq<char>>::empty());
                    Ok(none)
                } else {
                    Err(DriverError::Stderr { context, stderr })
                }
            },
            Err(e) => Err(e),
        }
    }

    /// The identifier of `HEAD` as the outcome of `git rev-parse HEAD` gives
    /// it.
    pub fn read_current_ref_id(outcome: CmdResult) -> (res: Result<HistoryRefId, DriverError>)
        ensures
            result_of(res) == current_ref_id_answer(outcome_of(outcome)),
    {
        match DriverError::expect_cmd_lossy("git cli :exec".to_owned(), outcome) {
            Ok(output) => DriverError::expect_cmd_line("git cli: exec", &output),
            Err(DriverError::Stderr { context, stderr }) => {
                if contains(stderr.as_str(), GIT_ERROR_NO_LOG_YET) {
                    Ok(GIT_SYNTHETIC_FIRST_COMMIT_ID.to_owned())
                } else {
                    Err(DriverError::Stderr { context, stderr })
                }
            },
            Err(e) => Err(e),
        }
    }

    /// The current branch as the outcome of `git branch --show-current`
    /// gives it, and `None` where `HEAD` is on no branch.
    pub fn read_current_branch(outcome: CmdResult) -> (res: Result<
        Option<HistoryRefName>,
        DriverError,
    >)
        ensures
            result_of(res) == branch_answer(outcome_of(outcome)),
    {
        let output = match DriverError::expect_cmd_lossy("git cli :exec".to_owned(), outcome) {
            Err(e) => {
                return Err(e);
            },
            Ok(output) => output,
        };
        let lines = output.stdout_strings();
        if lines.len() == 0 || (lines.len() == 1 && lines[0].as_str().is_empty()) {
            // Nothing printed: `HEAD` is detached.
            return Ok(None);
        }
        match DriverError::expect_cmd_line("git cli: exec", &output) {
            Err(e) => Err(e),
            Ok(branch_line) => Ok(Some(branch_line)),
        }
    }

    /// The tag among the decorations that `line` lists, if there is one.
    pub fn find_tag(line: &str) -> (tag: Option<HistoryRefName>)
        ensures
            tag.deep_view() == tag_in(line@),
    {
        let mark = chars_of(GIT_LOG_SCRAPED_TAG);
        let sep = chars_of(GIT_LOG_SCRAPED_SEP);
        let listed = strip_marks(line, GIT_LOG_SCRAPED_PREFIX, GIT_LOG_SCRAPED_SUFFIX);
        let pieces = split_pieces(&chars_of(listed.as_str()), &sep);
        let ghost all = pieces.deep_view();
        let mut i: usize = pieces.len();
        assert(all.take(i as int) == all);
        while i > 0
            invariant
                i <= pieces.len(),
                all == pieces.deep_view(),
                all == decorations_in(line@),
                mark@ == GIT_LOG_SCRAPED_TAG@,
                last_tag(all) == last_tag(all.take(i as int)),
            decreases i,
        {
            i -= 1;
            let piece = chars_of(pieces[i].as_str());
            assert(all.take(i + 1).drop_last() == all.take(i as int));
            if matches_at(&piece, &mark, 0) {
                return Some(string_of(&piece, mark.len(), piece.len()));
            }
        }
        None
    }

    /// The name of `HEAD`, from the outcomes of the commands that ask for
    /// it: see [`name_plan`].
    pub fn read_current_ref_name(&self, seen: &[CmdResult]) -> (step: Step<
        Result<Option<HistoryRefName>, DriverError>,
    >)
        ensures
            step_of(step) == name_plan(self@, transcript_of(seen@)),
            step_of(step).reads() <= seen.len(),
    {
        if seen.len() == 0 {
            return Step::Run(self.git_current_ref_name());
        }
        let line = match read_one_line("git cli :exec", "git cli: exec", clone_result(&seen[0])) {
            Err(e) => {
                return Step::Done { answer: Err(e), read: 1 };
            },
            Ok(line) => line,
        };
        let tag = Self::find_tag(line.as_str());
        if tag.is_some() {
            return Step::Done { answer: Ok(tag), read: 1 };
        }
        if seen.len() == 1 {
            return Step::Run(self.git_current_branch());
        }
        Step::Done { answer: Self::read_current_branch(clone_result(&seen[1])), read: 2 }
    }
}

impl Driver for Repo {
    open spec fn dir_view(&self) -> Seq<char> {
        self@
    }

    open spec fn root_plan(&self, seen: Seq<Outcome>) -> StepView<
        Result<Seq<char>, DriverErrorView>,
    > {
        root_plan(self@, seen)
    }

    fn root(&self, seen: &[CmdResult]) -> (step: Step<Result<QueryDir, DriverError>>) {
        if seen.len() == 0 {
            return Step::Run(self.git_show_top_level());
        }
        let answer = read_one_line("git cli", "git cli", clone_result(&seen[0]));
        Step::Done { answer, read: 1 }
    }

    open spec fn dirty_files_plan(&self, clean_ok: bool, seen: Seq<Outcome>) -> StepView<
        Result<Seq<Seq<char>>, DriverErrorView>,
    > {
        dirty_files_plan(self@, clean_ok, seen)
    }

    fn dirty_files(&self, clean_ok: bool, seen: &[CmdResult]) -> (step: Step<
        Result<Vec<QueryDir>, DriverError>,
    >) {
        if seen.len() == 0 {
            return Step::Run(self.git_dirty_files());
        }
        let min_lines: u8 = if clean_ok {
            0
        } else {
            1
        };
        let lines = match DriverError::expect_cmd_lines(
            clone_result(&seen[0]),
            min_lines,
            "git cli: exec",
            Some(ERROR_REPO_NOT_DIRTY.to_owned()),
        ) {
            Err(e) => {
                return Step::Done { answer: Err(e), read: 1 };
            },
            Ok(lines) => lines,
        };
        // The first three characters of a line say how the file was changed,
        // such as "?? " for a file that is not tracked.
        let files = skip_chars_each(&lines, GIT_STATUS_PREFIX_WIDTH);
        Step::Done { answer: Ok(files), read: 1 }
    }

    open spec fn tracked_files_plan(&self, seen: Seq<Outcome>) -> StepView<
        Result<Seq<Seq<char>>, DriverErrorView>,
    > {
        tracked_files_plan(self@, seen)
    }

    fn tracked_files(&self, seen: &[CmdResult]) -> (step: Step<
        Result<Vec<QueryDir>, DriverError>,
    >) {
        if seen.len() == 0 {
            return Step::Run(self.git_tracked_files());
        }
        Step::Done { answer: Self::read_tracked_files(clone_result(&seen[0])), read: 1 }
    }

    open spec fn current_ref_id_plan(&self, dirty_ok: bool, seen: Seq<Outcome>) -> StepView<
        Result<Seq<char>, DriverErrorView>,
    > {
        current_ref_id_plan(self@, dirty_ok, seen)
    }

    fn current_ref_id(&self, dirty_ok: bool, seen: &[CmdResult]) -> (step: Step<
        Result<HistoryRefId, DriverError>,
    >) {
        let at = if dirty_ok {
            0
        } else {
            match gate(clean_step(self.dirty_files(true, seen))) {
                Gate::Shut(step) => {
                    return step;
                },
                Gate::Open(at) => at,
            }
        };
        let rest = rest_of(seen, at);
        if rest.len() == 0 {
            return Step::Run(self.git_current_ref_id());
        }
        let answer = Self::read_current_ref_id(clone_result(&rest[0]));
        Step::Done { answer, read: at + 1 }
    }

    open spec fn current_ref_name_plan(&self, dirty_ok: bool, seen: Seq<Outcome>) -> StepView<
        Result<Option<Seq<char>>, DriverErrorView>,
    > {
        current_ref_name_plan(self@, dirty_ok, seen)
    }

    fn current_ref_name(&self, dirty_ok: bool, seen: &[CmdResult]) -> (step: Step<
        Result<Option<HistoryRefName>, DriverError>,
    >) {
        let at = if dirty_ok {
            0
        } else {
            match gate(clean_step(self.dirty_files(true, seen))) {
                Gate::Shut(step) => {
                    return step;
                },
                Gate::Open(at) => at,
            }
        };
        after(self.read_current_ref_name(rest_of(seen, at)), at)
    }
}

impl Validator for Loader {
    type Driver = Repo;

    open spec fn probe_cmd(&self, dir: Seq<char>) -> InvocationView {
        show_top_level_cmd(dir).quiet()
    }

    open spec fn probe_context(&self) -> Seq<char> {
        "git cli"@
    }

    open spec fn health_cmd(&self) -> InvocationView {
        version_cmd()
    }

    open spec fn health_context(&self) -> Seq<char> {
        "git cli: exec"@
    }

    /// Git manages `dir` if `git rev-parse --show-toplevel` succeeds there.
    fn new_driver(&self, dir: QueryDir, seen: &[CmdResult]) -> (step: Step<
        Result<Option<Repo>, DriverError>,
    >) {
        let repo = Repo { dir };
        if seen.len() == 0 {
            let mut cmd = repo.git_show_top_level();
            cmd.silence();
            return Step::Run(cmd);
        }
        let answer = match DriverError::unwrap_cmd_lossy(
            "git cli".to_owned(),
            clone_result(&seen[0]),
        ) {
            Err(e) => Err(e),
            Ok(output) => if output.status.success() {
                Ok(Some(repo))
            } else {
                Ok(None)
            },
        };
        Step::Done { answer, read: 1 }
    }

    fn check_health(&self, seen: &[CmdResult]) -> (step: Step<Result<VcsAvailable, DriverError>>) {
        if seen.len() == 0 {
            let mut cmd = Invocation::new(VCS_BIN_NAME);
            cmd.arg("--version");
            return Step::Run(cmd);
        }
        let answer = DriverError::expect_cmd_lossy(
            "git cli: exec".to_owned(),
            clone_result(&seen[0]),
        );
        Step::Done { answer, read: 1 }
    }
}

// ---------------------------------------------------------------------------
// Laws
// ---------------------------------------------------------------------------
/// Git ran, failed, and complained that `HEAD` names no revision.
pub open spec fn has_no_commit_yet(outcome: Outcome) -> bool {
    outcome matches Ok(output) && !output.status.succeeded() && has_substring(
        lossy_text(output.stderr),
        GIT_ERROR_NO_LOG_YET@,
    )
}

/// In a repository without a single commit, the identifier of the current
/// point in history is the all-zero identifier, and Git's complaint about
/// the missing revision is no failure.
pub proof fn law_no_commit_yet_gives_the_zero_id(dir: Seq<char>, seen: Seq<Outcome>)
    requires
        seen.len() >= 1,
        has_no_commit_yet(seen[0]),
    ensures
        current_ref_id_plan(dir, true, seen) == (StepView::Done {
            answer: Ok::<Seq<char>, DriverErrorView>(GIT_SYNTHETIC_FIRST_COMMIT_ID@),
            read: 1,
        }),
        GIT_SYNTHETIC_FIRST_COMMIT_ID@.len() == 40,
        forall|i: int|
            0 <= i < GIT_SYNTHETIC_FIRST_COMMIT_ID@.len() ==> GIT_SYNTHETIC_FIRST_COMMIT_ID@[i]
                == '0',
{
    reveal_strlit("0000000000000000000000000000000000000000");
}

/// Git ran, failed, and complained that `HEAD` names no tree.
pub open spec fn has_no_tree_yet(outcome: Outcome) -> bool {
    outcome matches Ok(output) && !output.status.succeeded() && has_substring(
        lossy_text(output.stderr),
        GIT_ERROR_NO_TREE_YET@,
    )
}

/// In a repository without a single commit no file is tracked, whatever is
/// staged for the first commit, and Git's complaint about the missing tree
/// is no failure.
pub proof fn law_no_commit_yet_tracks_no_file(dir: Seq<char>, seen: Seq<Outcome>)
    requires
        seen.len() >= 1,
        has_no_tree_yet(seen[0]),
    ensures
        tracked_files_plan(dir, seen) == (StepView::Done {
            answer: Ok::<Seq<Seq<char>>, DriverErrorView>(Seq::empty()),
            read: 1,
        }),
{
}

/// Where `HEAD` carries no tag, its name is the branch it is on, and where it
/// is on none, as when it is detached, it has no name: that the branch
/// command prints nothing is an answer and no failure.
pub proof fn law_name_without_tag_is_the_branch_if_any(dir: Seq<char>, seen: Seq<Outcome>)
    requires
        seen.len() >= 2,
        decorations_answer(seen[0]) matches Ok(line) && tag_in(line) is None,
        seen[1] matches Ok(output) && output.status.succeeded(),
    ensures
        ({
            let lines = lines_of(lossy_text(seen[1]->Ok_0.stdout));
            &&& lines.len() == 0 ==> current_ref_name_plan(dir, true, seen) == (StepView::Done {
                answer: Ok::<Option<Seq<char>>, DriverErrorView>(None),
                read: 2,
            })
            &&& lines.len() == 1 && lines[0].len() > 0 ==> current_ref_name_plan(dir, true, seen)
                == (StepView::Done {
                answer: Ok::<Option<Seq<char>>, DriverErrorView>(Some(lines[0])),
                read: 2,
            })
        }),
{
    assert(seen.skip(0) == seen);
}

/// The option for `git log` is made of the five options, and each option
/// asks for the mark of its kind: the marks that are looked for in what Git
/// prints are the marks that Git was asked to print.
pub proof fn law_flag_is_made_of_the_marks()
    ensures
        GIT_LOG_SCRAPABLE_PRETTY_FLAG@ == "--pretty=%(decorate:"@
            + GIT_LOG_SCRAPABLE_PRETTY_DECOR_PREFIX@ + ","@
            + GIT_LOG_SCRAPABLE_PRETTY_DECOR_POINTER@ + ","@
            + GIT_LOG_SCRAPABLE_PRETTY_DECOR_SUFFIX@ + ","@ + GIT_LOG_SCRAPABLE_PRETTY_DECOR_TAG@
            + ","@ + GIT_LOG_SCRAPABLE_PRETTY_DECOR_SEP@ + ",)"@,
        GIT_LOG_SCRAPABLE_PRETTY_DECOR_PREFIX@ == "prefix="@ + GIT_LOG_SCRAPED_PREFIX@,
        GIT_LOG_SCRAPABLE_PRETTY_DECOR_POINTER@ == "pointer="@ + GIT_LOG_SCRAPED_POINTER@,
        GIT_LOG_SCRAPABLE_PRETTY_DECOR_SUFFIX@ == "suffix="@ + GIT_LOG_SCRAPED_SUFFIX@,
        GIT_LOG_SCRAPABLE_PRETTY_DECOR_TAG@ == "tag="@ + GIT_LOG_SCRAPED_TAG@,
        GIT_LOG_SCRAPABLE_PRETTY_DECOR_SEP@ == "separator="@ + GIT_LOG_SCRAPED_SEP@,
{
    reveal_strlit("--pretty=%(decorate:");
    reveal_strlit(",");
    reveal_strlit(",)");
    reveal_strlit("prefix=");
    reveal_strlit("pointer=");
    reveal_strlit("suffix=");
    reveal_strlit("tag=");
    reveal_strlit("separator=");
    reveal_strlit("VCSQ_SCRAPING_0ff8325e7d74a838d39cdffff9cddcecdce30f10_prefix");
    reveal_strlit("VCSQ_SCRAPING_0ff8325e7d74a838d39cdffff9cddcecdce30f10_pointer");
    reveal_strlit("VCSQ_SCRAPING_0ff8325e7d74a838d39cdffff9cddcecdce30f10_suffix");
    reveal_strlit("VCSQ_SCRAPING_0ff8325e7d74a838d39cdffff9cddcecdce30f10_tag");
    reveal_strlit("VCSQ_SCRAPING_0ff8325e7d74a838d39cdffff9cddcecdce30f10_separator");
    reveal_strlit("prefix=VCSQ_SCRAPING_0ff8325e7d74a838d39cdffff9cddcecdce30f10_prefix");
    reveal_strlit("pointer=VCSQ_SCRAPING_0ff8325e7d74a838d39cdffff9cddcecdce30f10_pointer");
    reveal_strlit("suffix=VCSQ_SCRAPING_0ff8325e7d74a838d39cdffff9cddcecdce30f10_suffix");
    reveal_strlit("tag=VCSQ_SCRAPING_0ff8325e7d74a838d39cdffff9cddcecdce30f10_tag");
    reveal_strlit("separator=VCSQ_SCRAPING_0ff8325e7d74a838d39cdffff9cddcecdce30f10_separator");
    reveal_strlit(
        "--pretty=%(decorate:prefix=VCSQ_SCRAPING_0ff8325e7d74a838d39cdffff9cddcecdce30f10_prefix,pointer=VCSQ_SCRAPING_0ff8325e7d74a838d39cdffff9cddcecdce30f10_pointer,suffix=VCSQ_SCRAPING_0ff8325e7d74a838d39cdffff9cddcecdce30f10_suffix,tag=VCSQ_SCRAPING_0ff8325e7d74a838d39cdffff9cddcecdce30f10_tag,separator=VCSQ_SCRAPING_0ff8325e7d74a838d39cdffff9cddcecdce30f10_separator,)",
    );
}

} // verus!
