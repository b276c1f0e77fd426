//! What the command line asks, and what is printed in answer: which query a
//! set of arguments stands for, which commands it takes, what goes to the two
//! output streams, and the exit code.
//!
//! Nothing is read or written here. The arguments come parsed, the answer is
//! a [`Report`] to print, and the commands in between are run by the caller:
//! see [`crate::repo::Step`].
use crate::cmd::{transcript_of, CmdResult, Outcome};
use crate::plexer::{
    check_health,
    current_ref_id_plan,
    detect,
    dirty_files_plan,
    health_check,
    law_detection_ends,
    law_questions_end,
    root_plan,
    tracked_files_plan,
    Repo,
    RepoView,
    VcsHealth,
    VcsHealthView,
};
use crate::repo::{
    clean_from,
    message_of,
    rest_of,
    Driver,
    DriverError,
    DriverErrorView,
    QueryDir,
    Step,
    StepView,
};
use crate::text::lines_text;
use vstd::prelude::*;

verus! {

pub const ERROR_DIR_MISSING: &'static str = "require either subcmd with a query or a direct --dir";

pub const ERROR_NOT_VALID_DIR: &'static str = "dir must be a readable directory";

/// The arguments of the command line, parsed.
#[derive(Debug, PartialEq, Eq)]
pub struct MainArgs {
    /// The directory to ask about, where no query is named.
    pub dir: Option<QueryDir>,
    pub query: Option<QueryCmd>,
}

/// One query of the command line.
#[derive(Debug, PartialEq, Eq)]
pub enum QueryCmd {
    /// Which tool manages the directory.
    Brand { dir: QueryDir },
    /// The top-level directory of the repository.
    Root { dir: QueryDir },
    /// Whether the tree is clean; the exit code is the answer.
    IsClean { dir: QueryDir },
    /// The identifier of the current point in history.
    CurrentId { dir: QueryDir, dirty_ok: bool },
    /// The files under version control as of the current commit.
    TrackedFiles { dir: QueryDir },
    /// The files that make the tree dirty.
    DirtyFiles { dir: QueryDir, clean_ok: bool },
    /// Which tools can be run at all.
    CheckHealth,
}

pub enum QueryCmdView {
    Brand { dir: Seq<char> },
    Root { dir: Seq<char> },
    IsClean { dir: Seq<char> },
    CurrentId { dir: Seq<char>, dirty_ok: bool },
    TrackedFiles { dir: Seq<char> },
    DirtyFiles { dir: Seq<char>, clean_ok: bool },
    CheckHealth,
}

impl View for QueryCmd {
    type V = QueryCmdView;

    open spec fn view(&self) -> QueryCmdView {
        match self {
            QueryCmd::Brand { dir } => QueryCmdView::Brand { dir: dir@ },
            QueryCmd::Root { dir } => QueryCmdView::Root { dir: dir@ },
            QueryCmd::IsClean { dir } => QueryCmdView::IsClean { dir: dir@ },
            QueryCmd::CurrentId { dir, dirty_ok } => QueryCmdView::CurrentId {
                dir: dir@,
                dirty_ok: *dirty_ok,
            },
            QueryCmd::TrackedFiles { dir } => QueryCmdView::TrackedFiles { dir: dir@ },
            QueryCmd::DirtyFiles { dir, clean_ok } => QueryCmdView::DirtyFiles {
                dir: dir@,
                clean_ok: *clean_ok,
            },
            QueryCmd::CheckHealth => QueryCmdView::CheckHealth,
        }
    }
}

impl DeepView for QueryCmd {
    type V = QueryCmdView;

    open spec fn deep_view(&self) -> QueryCmdView {
        self@
    }
}

impl Clone for QueryCmd {
    fn clone(&self) -> (res: Self)
        ensures
            res@ == self@,
    {
        match self {
            QueryCmd::Brand { dir } => QueryCmd::Brand { dir: dir.clone() },
            QueryCmd::Root { dir } => QueryCmd::Root { dir: dir.clone() },
            QueryCmd::IsClean { dir } => QueryCmd::IsClean { dir: dir.clone() },
            QueryCmd::CurrentId { dir, dirty_ok } => QueryCmd::CurrentId {
                dir: dir.clone(),
                dirty_ok: *dirty_ok,
            },
            QueryCmd::TrackedFiles { dir } => QueryCmd::TrackedFiles { dir: dir.clone() },
            QueryCmd::DirtyFiles { dir, clean_ok } => QueryCmd::DirtyFiles {
                dir: dir.clone(),
                clean_ok: *clean_ok,
            },
            QueryCmd::CheckHealth => QueryCmd::CheckHealth,
        }
    }
}

impl QueryCmdView {
    /// The directory that the query is about, if it is about one.
    pub open spec fn dir(self) -> Option<Seq<char>> {
        match self {
            QueryCmdView::Brand { dir } => Some(dir),
            QueryCmdView::Root { dir } => Some(dir),
            QueryCmdView::IsClean { dir } => Some(dir),
            QueryCmdView::CurrentId { dir, .. } => Some(dir),
            QueryCmdView::TrackedFiles { dir } => Some(dir),
            QueryCmdView::DirtyFiles { dir, .. } => Some(dir),
            QueryCmdView::CheckHealth => None,
        }
    }
}

impl QueryCmd {
    /// The directory that the query is about, if it is about one.
    pub fn dir(&self) -> (dir: Option<QueryDir>)
        ensures
            dir.deep_view() == self@.dir(),
    {
        match self.dir_path() {
            Some(dir) => Some(dir.clone()),
            None => None,
        }
    }

    /// The directory that the query is about, if it is about one.
    pub fn dir_path(&self) -> (dir: Option<&QueryDir>)
        ensures
            match dir {
                Some(dir) => self@.dir() == Some(dir@),
                None => self@.dir() is None,
            },
    {
        match self {
            QueryCmd::Brand { dir } => Some(dir),
            QueryCmd::Root { dir } => Some(dir),
            QueryCmd::IsClean { dir } => Some(dir),
            QueryCmd::DirtyFiles { dir, clean_ok: _ } => Some(dir),
            QueryCmd::TrackedFiles { dir } => Some(dir),
            QueryCmd::CurrentId { dir, dirty_ok: _ } => Some(dir),
            QueryCmd::CheckHealth => None,
        }
    }
}

/// Why the command line could not be served.
#[derive(Debug, PartialEq, Eq)]
pub enum CliError {
    /// The arguments make no sense.
    Usage(String),
    /// The library failed.
    Plexing(DriverError),
    Unknown(String),
}

pub enum CliErrorView {
    Usage(Seq<char>),
    Plexing(DriverErrorView),
    Unknown(Seq<char>),
}

impl View for CliError {
    type V = CliErrorView;

    open spec fn view(&self) -> CliErrorView {
        match self {
            CliError::Usage(msg) => CliErrorView::Usage(msg@),
            CliError::Plexing(e) => CliErrorView::Plexing(e@),
            CliError::Unknown(msg) => CliErrorView::Unknown(msg@),
        }
    }
}

/// The message of a failure of the command line.
pub open spec fn cli_message(e: CliErrorView) -> Seq<char> {
    match e {
        CliErrorView::Usage(msg) => "usage error: "@ + msg,
        CliErrorView::Plexing(e) => "vcs error: "@ + message_of(e),
        CliErrorView::Unknown(msg) => msg,
    }
}

impl CliError {
    /// This failure as one message.
    pub fn message(&self) -> (msg: String)
        ensures
            msg@ == cli_message(self@),
    {
        match self {
            CliError::Usage(detail) => {
                let mut msg = "usage error: ".to_owned();
                msg.append(detail.as_str());
                msg
            },
            CliError::Plexing(e) => {
                let mut msg = "vcs error: ".to_owned();
                msg.append(e.message().as_str());
                msg
            },
            CliError::Unknown(msg) => msg.clone(),
        }
    }
}

pub struct MainArgsView {
    pub dir: Option<Seq<char>>,
    pub query: Option<QueryCmdView>,
}

impl View for MainArgs {
    type V = MainArgsView;

    open spec fn view(&self) -> MainArgsView {
        MainArgsView { dir: self.dir.deep_view(), query: self.query.deep_view() }
    }
}

/// The query that the arguments stand for: the one they name, or else which
/// tool manages the directory they give. With neither there is nothing to
/// ask.
pub open spec fn reduced(args: MainArgsView) -> Result<QueryCmdView, CliErrorView> {
    match args.query {
        Some(query) => Ok(query),
        None => match args.dir {
            Some(dir) => Ok(QueryCmdView::Brand { dir }),
            None => Err(CliErrorView::Usage(ERROR_DIR_MISSING@)),
        },
    }
}

pub open spec fn query_result_of(r: Result<QueryCmd, CliError>) -> Result<
    QueryCmdView,
    CliErrorView,
> {
    match r {
        Ok(query) => Ok(query@),
        Err(e) => Err(e@),
    }
}

impl MainArgs {
    /// The query that the arguments stand for: see [`reduced`].
    pub fn reduce(&self) -> (res: Result<QueryCmd, CliError>)
        ensures
            query_result_of(res) == reduced(self@),
    {
        match &self.query {
            Some(q) => Ok(q.clone()),
            None => match &self.dir {
                Some(dir) => Ok(QueryCmd::Brand { dir: dir.clone() }),
                None => Err(CliError::Usage(ERROR_DIR_MISSING.to_owned())),
            },
        }
    }
}

// ---------------------------------------------------------------------------
// Answers
// ---------------------------------------------------------------------------
/// What a query prints to standard output, and the exit code.
#[derive(Debug, PartialEq, Eq)]
pub struct Printed {
    pub code: u8,
    pub stdout: String,
}

pub struct PrintedView {
    pub code: u8,
    pub stdout: Seq<char>,
}

impl View for Printed {
    type V = PrintedView;

    open spec fn view(&self) -> PrintedView {
        PrintedView { code: self.code, stdout: self.stdout@ }
    }
}

/// Everything that one run of the command line prints, and its exit code.
#[derive(Debug, PartialEq, Eq)]
pub struct Report {
    pub code: u8,
    pub stdout: String,
    pub stderr: String,
}

pub struct ReportView {
    pub code: u8,
    pub stdout: Seq<char>,
    pub stderr: Seq<char>,
}

impl View for Report {
    type V = ReportView;

    open spec fn view(&self) -> ReportView {
        ReportView { code: self.code, stdout: self.stdout@, stderr: self.stderr@ }
    }
}

/// `lines`, each with a line feed behind it.
pub fn print_lines(lines: &Vec<String>) -> (out: String)
    ensures
        out@ == lines_text(lines.deep_view()),
{
    let ghost all = lines.deep_view();
    let mut out = String::new();
    let mut i: usize = 0;
    while i < lines.len()
        invariant
            i <= lines.len(),
            all == lines.deep_view(),
            out@ == lines_text(all.take(i as int)),
        decreases lines.len() - i,
    {
        out.append(lines[i].as_str());
        out.append("\n");
        assert(all.take(i + 1).drop_last() == all.take(i as int));
        i += 1;
    }
    assert(all.take(lines.len() as int) == all);
    out
}

/// `line` with a line feed behind it.
pub fn print_line(line: &str) -> (out: String)
    ensures
        out@ == line@ + "\n"@,
{
    let mut out = line.to_owned();
    out.append("\n");
    out
}

/// The exit code that says whether the tree is clean: 0 if it is.
pub open spec fn clean_code(clean: bool) -> u8 {
    if clean {
        0
    } else {
        1
    }
}

/// What the answer of the library looks like on the command line.
pub open spec fn shown<V>(
    step: StepView<Result<V, DriverErrorView>>,
    show: spec_fn(V) -> PrintedView,
) -> StepView<Result<PrintedView, CliErrorView>> {
    match step {
        StepView::Run(cmd) => StepView::Run(cmd),
        StepView::Done { answer: Ok(value), read } => StepView::Done {
            answer: Ok(show(value)),
            read,
        },
        StepView::Done { answer: Err(e), read } => StepView::Done {
            answer: Err(CliErrorView::Plexing(e)),
            read,
        },
    }
}

/// Where the query `cli` stands after `seen`, once `repo` is found to be the
/// repository it asks about: what it prints and the exit code, or the
/// failure. The health check asks about no repository and prints nothing
/// here.
pub open spec fn query_plan(repo: RepoView, cli: QueryCmdView, seen: Seq<Outcome>) -> StepView<
    Result<PrintedView, CliErrorView>,
> {
    match cli {
        QueryCmdView::Brand { .. } => StepView::Done {
            answer: Ok(PrintedView { code: 0, stdout: repo.brand.name_view() + "\n"@ }),
            read: 0,
        },
        QueryCmdView::Root { .. } => shown(
            root_plan(repo.brand, repo.dir, seen),
            |path: Seq<char>| PrintedView { code: 0, stdout: path + "\n"@ },
        ),
        QueryCmdView::IsClean { .. } => shown(
            clean_from(dirty_files_plan(repo.brand, repo.dir, true, seen)),
            |clean: bool| PrintedView { code: clean_code(clean), stdout: Seq::empty() },
        ),
        QueryCmdView::CurrentId { dirty_ok, .. } => shown(
            current_ref_id_plan(repo.brand, repo.dir, dirty_ok, seen),
            |id: Seq<char>| PrintedView { code: 0, stdout: id + "\n"@ },
        ),
        QueryCmdView::DirtyFiles { clean_ok, .. } => shown(
            dirty_files_plan(repo.brand, repo.dir, clean_ok, seen),
            |files: Seq<Seq<char>>| PrintedView { code: 0, stdout: lines_text(files) },
        ),
        QueryCmdView::TrackedFiles { .. } => shown(
            tracked_files_plan(repo.brand, repo.dir, seen),
            |files: Seq<Seq<char>>| PrintedView { code: 0, stdout: lines_text(files) },
        ),
        QueryCmdView::CheckHealth => StepView::Done {
            answer: Ok(PrintedView { code: 0, stdout: Seq::empty() }),
            read: 0,
        },
    }
}

pub open spec fn printed_step_of(step: Step<Result<Printed, CliError>>) -> StepView<
    Result<PrintedView, CliErrorView>,
> {
    match step {
        Step::Run(cmd) => StepView::Run(cmd@),
        Step::Done { answer: Ok(printed), read } => StepView::Done {
            answer: Ok(printed@),
            read: read as nat,
        },
        Step::Done { answer: Err(e), read } => StepView::Done {
            answer: Err(e@),
            read: read as nat,
        },
    }
}

/// A query of the command line about a directory, and the handle of the
/// repository that the directory belongs to.
#[derive(Debug, PartialEq, Eq)]
pub struct PlexerQuery {
    pub plexer: Repo,
    pub cli: QueryCmd,
}

pub struct PlexerQueryView {
    pub plexer: RepoView,
    pub cli: QueryCmdView,
}

impl View for PlexerQuery {
    type V = PlexerQueryView;

    open spec fn view(&self) -> PlexerQueryView {
        PlexerQueryView { plexer: self.plexer@, cli: self.cli@ }
    }
}

/// Where the making of a [`PlexerQuery`] stands after `seen`. The arguments
/// must stand for a query. A query about no directory needs no handle, and
/// there is none. A query about a directory needs the directory to be one,
/// which `is_dir` says, and a tool that manages it, which detection finds.
pub open spec fn query_from(args: MainArgsView, is_dir: bool, seen: Seq<Outcome>) -> StepView<
    Result<Option<PlexerQueryView>, CliErrorView>,
> {
    match reduced(args) {
        Err(e) => StepView::Done { answer: Err(e), read: 0 },
        Ok(cli) => match cli.dir() {
            None => StepView::Done { answer: Ok(None), read: 0 },
            Some(dir) => if !is_dir {
                StepView::Done {
                    answer: Err(CliErrorView::Usage(ERROR_NOT_VALID_DIR@)),
                    read: 0,
                }
            } else {
                match detect(dir, seen) {
                    StepView::Run(cmd) => StepView::Run(cmd),
                    StepView::Done { answer: Ok(plexer), read } => StepView::Done {
                        answer: Ok(Some(PlexerQueryView { plexer, cli })),
                        read,
                    },
                    StepView::Done { answer: Err(e), read } => StepView::Done {
                        answer: Err(CliErrorView::Plexing(e)),
                        read,
                    },
                }
            },
        },
    }
}

pub open spec fn made_step_of(step: Step<Result<Option<PlexerQuery>, CliError>>) -> StepView<
    Result<Option<PlexerQueryView>, CliErrorView>,
> {
    match step {
        Step::Run(cmd) => StepView::Run(cmd@),
        Step::Done { answer: Ok(Some(query)), read } => StepView::Done {
            answer: Ok(Some(query@)),
            read: read as nat,
        },
        Step::Done { answer: Ok(None), read } => StepView::Done {
            answer: Ok(None),
            read: read as nat,
        },
        Step::Done { answer: Err(e), read } => StepView::Done {
            answer: Err(e@),
            read: read as nat,
        },
    }
}

impl PlexerQuery {
    /// The handle is sound and the query is about a directory.
    pub open spec fn wf(&self) -> bool {
        self.plexer.wf() && self.cli@.dir() is Some
    }

    /// Finds the repository that the arguments ask about: see
    /// [`query_from`]. `is_dir` says whether the directory that the
    /// arguments name, if they name one, is a directory that can be read.
    pub fn new(args: &MainArgs, is_dir: bool, seen: &[CmdResult]) -> (step: Step<
        Result<Option<PlexerQuery>, CliError>,
    >)
        ensures
            made_step_of(step) == query_from(args@, is_dir, transcript_of(seen@)),
            made_step_of(step).reads() <= seen.len(),
            step matches Step::Done { answer: Ok(Some(query)), .. } ==> query.wf(),
    {
        let query = match args.reduce() {
            Ok(query) => query,
            Err(e) => {
                return Step::Done { answer: Err(e), read: 0 };
            },
        };
        let dir = match query.dir() {
            Some(dir) => dir,
            None => {
                return Step::Done { answer: Ok(None), read: 0 };
            },
        };
        if !is_dir {
            return Step::Done {
                answer: Err(CliError::Usage(ERROR_NOT_VALID_DIR.to_owned())),
                read: 0,
            };
        }
        match Repo::new_driver(&dir, seen) {
            Step::Run(cmd) => Step::Run(cmd),
            Step::Done { answer: Ok(plexer), read } => Step::Done {
                answer: Ok(Some(PlexerQuery { plexer, cli: query })),
                read,
            },
            Step::Done { answer: Err(e), read } => Step::Done {
                answer: Err(CliError::Plexing(e)),
                read,
            },
        }
    }

    /// Answers the query: see [`query_plan`].
    pub fn handle_query(&self, seen: &[CmdResult]) -> (step: Step<Result<Printed, CliError>>)
        requires
            self.wf(),
        ensures
            printed_step_of(step) == query_plan(self.plexer@, self.cli@, transcript_of(seen@)),
            printed_step_of(step).reads() <= seen.len(),
    {
        match self.cli {
            QueryCmd::Brand { dir: _ } => Step::Done {
                answer: Ok(Printed { code: 0, stdout: print_line(self.plexer.brand.as_ref()) }),
                read: 0,
            },
            QueryCmd::Root { dir: _ } => match self.plexer.root(seen) {
                Step::Run(cmd) => Step::Run(cmd),
                Step::Done { answer: Ok(root_path), read } => Step::Done {
                    answer: Ok(Printed { code: 0, stdout: print_line(root_path.as_str()) }),
                    read,
                },
                Step::Done { answer: Err(e), read } => Step::Done {
                    answer: Err(CliError::Plexing(e)),
                    read,
                },
            },
            QueryCmd::IsClean { dir: _ } => match self.plexer.is_clean(seen) {
                Step::Run(cmd) => Step::Run(cmd),
                Step::Done { answer: Ok(is_clean), read } => Step::Done {
                    answer: Ok(
                        Printed {
                            code: if is_clean {
                                0
                            } else {
                                1
                            },
                            stdout: String::new(),
                        },
                    ),
                    read,
                },
                Step::Done { answer: Err(e), read } => Step::Done {
                    answer: Err(CliError::Plexing(e)),
                    read,
                },
            },
            // The health check is about no directory.
            QueryCmd::CheckHealth => unreached(),
            QueryCmd::CurrentId { dir: _, dirty_ok } => match self.plexer.current_ref_id(
                dirty_ok,
                seen,
            ) {
                Step::Run(cmd) => Step::Run(cmd),
                Step::Done { answer: Ok(current_id), read } => Step::Done {
                    answer: Ok(Printed { code: 0, stdout: print_line(current_id.as_str()) }),
                    read,
                },
                Step::Done { answer: Err(e), read } => Step::Done {
                    answer: Err(CliError::Plexing(e)),
                    read,
                },
            },
            QueryCmd::DirtyFiles { dir: _, clean_ok } => match self.plexer.dirty_files(
                clean_ok,
                seen,
            ) {
                Step::Run(cmd) => Step::Run(cmd),
                Step::Done { answer: Ok(files), read } => Step::Done {
                    answer: Ok(Printed { code: 0, stdout: print_lines(&files) }),
                    read,
                },
                Step::Done { answer: Err(e), read } => Step::Done {
                    answer: Err(CliError::Plexing(e)),
                    read,
                },
            },
            QueryCmd::TrackedFiles { dir: _ } => match self.plexer.tracked_files(seen) {
                Step::Run(cmd) => Step::Run(cmd),
                Step::Done { answer: Ok(files), read } => Step::Done {
                    answer: Ok(Printed { code: 0, stdout: print_lines(&files) }),
                    read,
                },
                Step::Done { answer: Err(e), read } => Step::Done {
                    answer: Err(CliError::Plexing(e)),
                    read,
                },
            },
        }
    }
}

// ---------------------------------------------------------------------------
// The whole run
// ---------------------------------------------------------------------------
/// The report of a run that failed with `e`: the message on standard error,
/// and exit code 1.
pub open spec fn failure_report(e: CliErrorView) -> ReportView {
    ReportView { code: 1, stdout: Seq::empty(), stderr: cli_message(e) + "\n"@ }
}

/// What the health check prints: for each brand, in order, either that it
/// passed, with what the tool said of itself, on standard output, or that it
/// failed, with the failure, on standard error. The exit code is 1 if any
/// brand failed.
pub open spec fn health_report(reports: Seq<VcsHealthView>) -> ReportView
    decreases reports.len(),
{
    if reports.len() == 0 {
        ReportView { code: 0, stdout: Seq::empty(), stderr: Seq::empty() }
    } else {
        let before = health_report(reports.drop_last());
        let last = reports.last();
        match last.health {
            Ok(h) => ReportView {
                stdout: before.stdout + "PASS: check for "@ + last.brand.name_view() + ":\n"@
                    + h.stdout + "\n"@,
                ..before
            },
            Err(e) => ReportView {
                code: 1,
                stderr: before.stderr + "FAIL: check for "@ + last.brand.name_view() + ":\n"@
                    + message_of(e) + "\n"@,
                ..before
            },
        }
    }
}

/// Where a run of the command line stands after `seen`: first the
/// repository is found, then the query is answered from the outcomes that
/// finding it left unread. A query about no directory is the health check.
pub open spec fn main_plan(args: MainArgsView, is_dir: bool, seen: Seq<Outcome>) -> StepView<
    ReportView,
> {
    match query_from(args, is_dir, seen) {
        StepView::Run(cmd) => StepView::Run(cmd),
        StepView::Done { answer: Err(e), read } => StepView::Done {
            answer: failure_report(e),
            read,
        },
        StepView::Done { answer: Ok(Some(query)), read } => match query_plan(
            query.plexer,
            query.cli,
            seen.skip(read as int),
        ) {
            StepView::Run(cmd) => StepView::Run(cmd),
            StepView::Done { answer: Ok(printed), read: more } => StepView::Done {
                answer: ReportView {
                    code: printed.code,
                    stdout: printed.stdout,
                    stderr: Seq::empty(),
                },
                read: read + more,
            },
            StepView::Done { answer: Err(e), read: more } => StepView::Done {
                answer: failure_report(e),
                read: read + more,
            },
        },
        StepView::Done { answer: Ok(None), read } => match health_check(seen.skip(read as int)) {
            StepView::Run(cmd) => StepView::Run(cmd),
            StepView::Done { answer, read: more } => StepView::Done {
                answer: health_report(answer),
                read: read + more,
            },
        },
    }
}

pub open spec fn report_step_of(step: Step<Report>) -> StepView<ReportView> {
    match step {
        Step::Run(cmd) => StepView::Run(cmd@),
        Step::Done { answer, read } => StepView::Done { answer: answer@, read: read as nat },
    }
}

/// The report of a run that failed with `e`.
pub fn report_failure(e: &CliError) -> (report: Report)
    ensures
        report@ == failure_report(e@),
{
    Report { code: 1, stdout: String::new(), stderr: print_line(e.message().as_str()) }
}

/// What the health check prints: see [`health_report`].
pub fn report_health(reports: &Vec<VcsHealth>) -> (report: Report)
    ensures
        report@ == health_report(reports.deep_view()),
{
    let ghost all = reports.deep_view();
    let mut stdout = String::new();
    let mut stderr = String::new();
    let mut has_fail = false;
    let mut i: usize = 0;
    while i < reports.len()
        invariant
            i <= reports.len(),
            all == reports.deep_view(),
            health_report(all.take(i as int)) == (ReportView {
                code: if has_fail {
                    1u8
                } else {
                    0u8
                },
                stdout: stdout@,
                stderr: stderr@,
            }),
        decreases reports.len() - i,
    {
        let report = &reports[i];
        assert(all.take(i + 1).drop_last() == all.take(i as int));
        match &report.health {
            Ok(h) => {
                stdout.append("PASS: check for ");
                stdout.append(report.brand.as_ref());
                stdout.append(":\n");
                stdout.append(h.stdout.as_str());
                stdout.append("\n");
            },
            Err(e) => {
                stderr.append("FAIL: check for ");
                stderr.append(report.brand.as_ref());
                stderr.append(":\n");
                stderr.append(e.message().as_str());
                stderr.append("\n");
                has_fail = true;
            },
        }
        i += 1;
    }
    assert(all.take(reports.len() as int) == all);
    Report {
        code: if has_fail {
            1
        } else {
            0
        },
        stdout,
        stderr,
    }
}

/// One run of the command line: see [`main_plan`]. `is_dir` says whether the
/// directory that the arguments name, if they name one, is a directory that
/// can be read; `seen` holds the outcomes of the commands run so far.
pub fn main_vcsquery(args: &MainArgs, is_dir: bool, seen: &[CmdResult]) -> (step: Step<Report>)
    ensures
        report_step_of(step) == main_plan(args@, is_dir, transcript_of(seen@)),
{
    let (plexerq, read) = match PlexerQuery::new(args, is_dir, seen) {
        Step::Run(cmd) => {
            return Step::Run(cmd);
        },
        Step::Done { answer: Err(e), read } => {
            return Step::Done { answer: report_failure(&e), read };
        },
        Step::Done { answer: Ok(pq), read } => (pq, read),
    };
    if let Some(pq) = plexerq {
        return match pq.handle_query(rest_of(seen, read)) {
            Step::Run(cmd) => Step::Run(cmd),
            Step::Done { answer: Ok(printed), read: more } => Step::Done {
                answer: Report {
                    code: printed.code,
                    stdout: printed.stdout,
                    stderr: String::new(),
                },
                read: read + more,
            },
            Step::Done { answer: Err(e), read: more } => Step::Done {
                answer: report_failure(&e),
                read: read + more,
            },
        };
    }
    match check_health(rest_of(seen, read)) {
        Step::Run(cmd) => Step::Run(cmd),
        Step::Done { answer: reports, read: more } => Step::Done {
            answer: report_health(&reports),
            read: read + more,
        },
    }
}

/// A run of the command line ends after five commands at most: three to
/// find the repository and two to answer the query, or three for the health
/// check.
pub proof fn law_run_ends(args: MainArgsView, is_dir: bool, seen: Seq<Outcome>)
    requires
        seen.len() >= 5,
    ensures
        main_plan(args, is_dir, seen) is Done,
{
    match query_from(args, is_dir, seen) {
        StepView::Run(_) => {
            law_detection_ends(reduced(args)->Ok_0.dir()->Some_0, seen);
        },
        StepView::Done { answer: Ok(Some(query)), read } => {
            law_detection_ends(reduced(args)->Ok_0.dir()->Some_0, seen);
            let rest = seen.skip(read as int);
            law_questions_end(query.plexer.brand, query.plexer.dir, true, rest);
            law_questions_end(query.plexer.brand, query.plexer.dir, false, rest);
        },
        _ => {},
    }
}

} // verus!
