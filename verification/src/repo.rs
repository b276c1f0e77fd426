//! What every driver of a version-control tool must answer, the failures it
//! may report, and the rules that turn the outcome of a command into either.
//!
//! A query never runs anything. It is handed the outcomes of the commands run
//! for it so far, oldest first, and answers with a [`Step`]: either the next
//! command to run, or the answer together with the number of outcomes that
//! decided it. Whoever owns the process facility runs the command, adds its
//! outcome to the list, and asks again.
use crate::cmd::{
    lossy_of,
    lossy_text,
    outcome_of,
    strict_of,
    transcript_of,
    CmdResult,
    DecodeError,
    DecodeErrorView,
    Invocation,
    InvocationView,
    LaunchError,
    LossyView,
    Outcome,
    StrictView,
    Utf8CmdOutput,
    Utf8CmdOutputLossy,
};
use crate::text::{
    debug_list,
    debug_string,
    debug_strings,
    debug_text,
    decimal,
    decimal_of,
    lines_of,
};
use vstd::prelude::*;
use vstd::slice::slice_subrange;

verus! {

/// The directory that a query is about, and any path that an answer names.
pub type QueryDir = String;

/// A tool's own, always present identifier of a point in history. Compared
/// for equality only.
pub type HistoryRefId = String;

/// A name that somebody gave to a point in history: a tag, a branch, a
/// bookmark. Most points have none.
pub type HistoryRefName = String;

/// What the forgiving reading of a tool's version report is.
pub type VcsAvailable = Utf8CmdOutputLossy;

pub const ERROR_REPO_NOT_CLEAN: &'static str = "repo not clean, references not hermetic";

pub const ERROR_REPO_NOT_DIRTY: &'static str = "repo not dirty";

pub const ERROR_REPO_NONEMPTY_OUTPUT: &'static str = "unexpectedly returned no lines";

/// What is reported where a tool has no way to name the current point in
/// history.
pub const ERROR_REF_NAME_UNSUPPORTED: &'static str = "naming the current ref is not supported";

// ---------------------------------------------------------------------------
// Failures
// ---------------------------------------------------------------------------
/// Every way in which a query can fail. A failure is reported once, where it
/// is found, and is never retried.
#[derive(Debug, PartialEq, Eq)]
pub enum DriverError {
    /// The directory itself is the problem, whatever tool manages it: it does
    /// not exist, cannot be read, is a plain file.
    Directory(String),
    /// The tool could not be started.
    Command { context: String, source: LaunchError },
    /// The tool ran, failed, and said why.
    Stderr { context: String, stderr: String },
    /// The tool printed something that is not text where text was needed.
    RootName(DecodeError),
    /// The tool broke its side of the contract, or no tool fits.
    Unknown(String),
}

pub enum DriverErrorView {
    Directory(Seq<char>),
    Command { context: Seq<char>, source: Seq<char> },
    Stderr { context: Seq<char>, stderr: Seq<char> },
    RootName(DecodeErrorView),
    Unknown(Seq<char>),
}

impl View for DriverError {
    type V = DriverErrorView;

    open spec fn view(&self) -> DriverErrorView {
        match self {
            DriverError::Directory(msg) => DriverErrorView::Directory(msg@),
            DriverError::Command { context, source } => DriverErrorView::Command {
                context: context@,
                source: source@,
            },
            DriverError::Stderr { context, stderr } => DriverErrorView::Stderr {
                context: context@,
                stderr: stderr@,
            },
            DriverError::RootName(e) => DriverErrorView::RootName(e@),
            DriverError::Unknown(msg) => DriverErrorView::Unknown(msg@),
        }
    }
}

/// A result as mathematics.
pub open spec fn result_of<T: DeepView>(r: Result<T, DriverError>) -> Result<
    T::V,
    DriverErrorView,
> {
    match r {
        Ok(value) => Ok(value.deep_view()),
        Err(e) => Err(e@),
    }
}

/// The message of a failure. What a tool wrote is quoted in it on one line,
/// with its line feeds written as `\n`.
pub open spec fn message_of(e: DriverErrorView) -> Seq<char> {
    match e {
        DriverErrorView::Directory(msg) => "directory access issue: "@ + msg,
        DriverErrorView::Command { context, source } => "vcs call failed: "@ + debug_text(context)
            + ": "@ + source,
        DriverErrorView::Stderr { context, stderr } => "vcs stderr: "@ + debug_text(context)
            + ": "@ + debug_text(stderr),
        DriverErrorView::RootName(_) => "vcs returned a problematic root name"@,
        DriverErrorView::Unknown(msg) => msg,
    }
}

/// What is reported when one line was expected and none came, or an empty
/// one.
pub open spec fn empty_output_message(context: Seq<char>) -> Seq<char> {
    "unexpectedly returned empty output: "@ + context
}

/// What is reported when one line was expected and several came: their
/// number, and all of them, quoted without a line feed between them so that
/// the message stays on one line.
pub open spec fn multiple_lines_message(context: Seq<char>, lines: Seq<Seq<char>>) -> Seq<char> {
    "unexpectedly got multiple ("@ + decimal_of(lines.len()) + ") lines: "@ + context + ": "@
        + debug_list(lines)
}

/// What is reported when fewer lines came than were asked for.
pub open spec fn too_few_lines_message(context: Seq<char>, expect_msg: Option<Seq<char>>) -> Seq<
    char,
> {
    context + ": "@ + match expect_msg {
        Some(msg) => msg,
        None => ERROR_REPO_NONEMPTY_OUTPUT@,
    }
}

/// The failure of a query that needs a clean tree and found changes.
pub open spec fn not_clean() -> DriverErrorView {
    DriverErrorView::Unknown(ERROR_REPO_NOT_CLEAN@)
}

/// The strict reading of an outcome, whatever the exit status: only a
/// command that could not be started is a failure.
pub open spec fn unwrap_strict(context: Seq<char>, outcome: Outcome) -> Result<
    StrictView,
    DriverErrorView,
> {
    match outcome {
        Err(source) => Err(DriverErrorView::Command { context, source }),
        Ok(output) => Ok(strict_of(output)),
    }
}

/// What a failed tool wrote to standard error, as text: what it wrote, if
/// that is text, and the forgiving reading of it otherwise.
pub open spec fn complaint_of(output: StrictView) -> Seq<char> {
    match output.stderr {
        Ok(stderr) => stderr,
        Err(_) => output.stderr_lossy,
    }
}

/// The strict reading of an outcome of a command that must have succeeded:
/// any other exit status is a failure that carries what the tool wrote to
/// standard error, whether or not that is text.
pub open spec fn expect_strict(context: Seq<char>, outcome: Outcome) -> Result<
    StrictView,
    DriverErrorView,
> {
    match outcome {
        Err(source) => Err(DriverErrorView::Command { context, source }),
        Ok(output) => if output.status.succeeded() {
            Ok(strict_of(output))
        } else {
            Err(DriverErrorView::Stderr { context, stderr: complaint_of(strict_of(output)) })
        },
    }
}

/// The forgiving reading of an outcome, whatever the exit status: only a
/// command that could not be started is a failure.
pub open spec fn unwrap_lossy(context: Seq<char>, outcome: Outcome) -> Result<
    LossyView,
    DriverErrorView,
> {
    match outcome {
        Err(source) => Err(DriverErrorView::Command { context, source }),
        Ok(output) => Ok(lossy_of(output)),
    }
}

/// The forgiving reading of an outcome of a command that must have
/// succeeded: any other exit status is a failure that carries what the tool
/// wrote to standard error, word for word.
pub open spec fn expect_lossy(context: Seq<char>, outcome: Outcome) -> Result<
    LossyView,
    DriverErrorView,
> {
    match outcome {
        Err(source) => Err(DriverErrorView::Command { context, source }),
        Ok(output) => if output.status.succeeded() {
            Ok(lossy_of(output))
        } else {
            Err(DriverErrorView::Stderr { context, stderr: lossy_text(output.stderr) })
        },
    }
}

/// The one line that `stdout` must consist of, which must not be empty.
pub open spec fn expect_line(context: Seq<char>, stdout: Seq<char>) -> Result<
    Seq<char>,
    DriverErrorView,
> {
    let lines = lines_of(stdout);
    if lines.len() > 1 {
        Err(DriverErrorView::Unknown(multiple_lines_message(context, lines)))
    } else if lines.len() == 0 || lines[0].len() == 0 {
        Err(DriverErrorView::Unknown(empty_output_message(context)))
    } else {
        Ok(lines[0])
    }
}

/// The fewest lines that a listing of dirty files may have: one, unless a
/// clean tree is welcome.
pub open spec fn min_dirty_lines(clean_ok: bool) -> u8 {
    if clean_ok {
        0
    } else {
        1
    }
}

/// The lines that a successful command printed, of which there must be at
/// least `min_lines`.
pub open spec fn expect_lines(
    outcome: Outcome,
    min_lines: u8,
    context: Seq<char>,
    expect_msg: Option<Seq<char>>,
) -> Result<Seq<Seq<char>>, DriverErrorView> {
    match expect_lossy(context, outcome) {
        Err(e) => Err(e),
        Ok(output) => {
            let lines = lines_of(output.stdout);
            if lines.len() < min_lines {
                Err(DriverErrorView::Unknown(too_few_lines_message(context, expect_msg)))
            } else {
                Ok(lines)
            }
        },
    }
}

impl DriverError {
    /// Reads the outcome of a command strictly. Fails only if the command
    /// could not be started; the exit status is not looked at.
    pub fn unwrap_cmd(context: String, cmd_output: CmdResult) -> (res: Result<Utf8CmdOutput, Self>)
        ensures
            result_of(res) == unwrap_strict(context@, outcome_of(cmd_output)),
            res matches Ok(output) ==> output.wf(),
    {
        match cmd_output {
            Err(source) => Err(Self::Command { context, source }),
            Ok(output) => Ok(Utf8CmdOutput::from(output)),
        }
    }

    /// Like [`DriverError::unwrap_cmd`], and the command must have succeeded:
    /// otherwise what it wrote to standard error is the failure, in its
    /// forgiving reading where it is not text. A tool that ran and failed is
    /// never reported as anything but [`DriverError::Stderr`], and the same
    /// as [`DriverError::expect_cmd_lossy`] reports it.
    pub fn expect_cmd(context: String, cmd_output: CmdResult) -> (res: Result<Utf8CmdOutput, Self>)
        ensures
            result_of(res) == expect_strict(context@, outcome_of(cmd_output)),
            res matches Ok(output) ==> output.wf(),
            res is Err ==> result_of(res) == Err::<StrictView, DriverErrorView>(
                expect_lossy(context@, outcome_of(cmd_output))->Err_0,
            ),
    {
        let utf8_output = match Self::unwrap_cmd(context.clone(), cmd_output) {
            Ok(output) => output,
            Err(e) => {
                return Err(e);
            },
        };
        if !utf8_output.status.success() {
            let stderr = match utf8_output.stderr {
                Ok(stderr) => stderr,
                Err(_) => utf8_output.stderr_lossy,
            };
            return Err(Self::Stderr { context, stderr });
        }
        Ok(utf8_output)
    }

    /// Reads the outcome of a command forgivingly. Fails only if the command
    /// could not be started; the exit status is not looked at.
    pub fn unwrap_cmd_lossy(context: String, cmd_output: CmdResult) -> (res: Result<
        Utf8CmdOutputLossy,
        Self,
    >)
        ensures
            result_of(res) == unwrap_lossy(context@, outcome_of(cmd_output)),
    {
        match cmd_output {
            Err(source) => Err(Self::Command { context, source }),
            Ok(output) => Ok(Utf8CmdOutputLossy::from(output)),
        }
    }

    /// Like [`DriverError::unwrap_cmd_lossy`], and the command must have
    /// succeeded: otherwise what it wrote to standard error is the failure.
    pub fn expect_cmd_lossy(context: String, cmd_output: CmdResult) -> (res: Result<
        Utf8CmdOutputLossy,
        Self,
    >)
        ensures
            result_of(res) == expect_lossy(context@, outcome_of(cmd_output)),
    {
        let utf8_output = match Self::unwrap_cmd_lossy(context.clone(), cmd_output) {
            Ok(output) => output,
            Err(e) => {
                return Err(e);
            },
        };
        if !utf8_output.status.success() {
            return Err(Self::Stderr { context, stderr: utf8_output.stderr });
        }
        Ok(utf8_output)
    }

    /// The one line that the command printed. It is the answer only if it
    /// is the only line and is not empty. No line at all is a failure, an
    /// empty line is, and so are two or more: the first or last of several
    /// is never taken for the answer.
    pub fn expect_cmd_line(context: &str, output: &Utf8CmdOutputLossy) -> (res: Result<
        String,
        Self,
    >)
        ensures
            result_of(res) == expect_line(context@, output@.stdout),
            lines_of(output@.stdout).len() >= 2 ==> res matches Err(DriverError::Unknown(_)),
            res matches Ok(line) ==> line@.len() > 0 && lines_of(output@.stdout) == seq![line@],
    {
        let mut lines = output.stdout_strings();
        if lines.len() > 1 {
            let mut msg = "unexpectedly got multiple (".to_owned();
            msg.append(decimal(lines.len()).as_str());
            msg.append(") lines: ");
            msg.append(context);
            msg.append(": ");
            msg.append(debug_strings(&lines).as_str());
            return Err(Self::Unknown(msg));
        }
        match lines.pop() {
            Some(line) if !line.as_str().is_empty() => Ok(line),
            _ => {
                let mut msg = "unexpectedly returned empty output: ".to_owned();
                msg.append(context);
                Err(Self::Unknown(msg))
            },
        }
    }

    /// The lines that the command printed, which must have succeeded and
    /// printed at least `min_lines` of them. `expect_msg` says what is
    /// missing if it did not.
    pub fn expect_cmd_lines(
        output: CmdResult,
        min_lines: u8,
        context: &str,
        expect_msg: Option<String>,
    ) -> (res: Result<Vec<String>, Self>)
        ensures
            result_of(res) == expect_lines(
                outcome_of(output),
                min_lines,
                context@,
                expect_msg.deep_view(),
            ),
    {
        let lines = match Self::expect_cmd_lossy(context.to_owned(), output) {
            Ok(utf8_output) => utf8_output.stdout_strings(),
            Err(e) => {
                return Err(e);
            },
        };
        if lines.len() < min_lines as usize {
            let mut msg = context.to_owned();
            msg.append(": ");
            match expect_msg {
                Some(expected) => msg.append(expected.as_str()),
                None => msg.append(ERROR_REPO_NONEMPTY_OUTPUT),
            }
            return Err(Self::Unknown(msg));
        }
        Ok(lines)
    }

    /// The failure of a query that needs a clean tree and found changes.
    pub fn not_clean() -> (e: Self)
        ensures
            e@ == not_clean(),
    {
        Self::Unknown(ERROR_REPO_NOT_CLEAN.to_owned())
    }

    /// This failure as one message.
    pub fn message(&self) -> (msg: String)
        ensures
            msg@ == message_of(self@),
    {
        match self {
            DriverError::Directory(detail) => {
                let mut msg = "directory access issue: ".to_owned();
                msg.append(detail.as_str());
                msg
            },
            DriverError::Command { context, source } => {
                let mut msg = "vcs call failed: ".to_owned();
                msg.append(debug_string(context.as_str()).as_str());
                msg.append(": ");
                msg.append(source.detail.as_str());
                msg
            },
            DriverError::Stderr { context, stderr } => {
                let mut msg = "vcs stderr: ".to_owned();
                msg.append(debug_string(context.as_str()).as_str());
                msg.append(": ");
                msg.append(debug_string(stderr.as_str()).as_str());
                msg
            },
            DriverError::RootName(_) => "vcs returned a problematic root name".to_owned(),
            DriverError::Unknown(msg) => msg.clone(),
        }
    }
}

// ---------------------------------------------------------------------------
// History
// ---------------------------------------------------------------------------
/// The current point in history.
#[derive(Debug, PartialEq, Eq)]
pub struct HistoryRef {
    /// The tool's own identifier of this point.
    pub id: HistoryRefId,
    /// The name that somebody gave to this point, if anybody did.
    pub name: Option<HistoryRefName>,
    /// Whether the tree held uncommitted changes when this was found out, so
    /// that `id` does not describe what is in the tree.
    pub dirty: bool,
}

pub struct HistoryRefView {
    pub id: Seq<char>,
    pub name: Option<Seq<char>>,
    pub dirty: bool,
}

impl View for HistoryRef {
    type V = HistoryRefView;

    open spec fn view(&self) -> HistoryRefView {
        HistoryRefView { id: self.id@, name: self.name.deep_view(), dirty: self.dirty }
    }
}

impl DeepView for HistoryRef {
    type V = HistoryRefView;

    open spec fn deep_view(&self) -> HistoryRefView {
        self@
    }
}

/// A named point in history that the current point descends from.
#[derive(Debug, PartialEq, Eq)]
pub struct AncestorRef {
    pub id: HistoryRefId,
    pub name: HistoryRefName,
    /// How many steps back from the current point: 1 or more.
    pub distance: u64,
}

pub struct AncestorRefView {
    pub id: Seq<char>,
    pub name: Seq<char>,
    pub distance: nat,
}

impl View for AncestorRef {
    type V = AncestorRefView;

    open spec fn view(&self) -> AncestorRefView {
        AncestorRefView { id: self.id@, name: self.name@, distance: self.distance as nat }
    }
}

impl DeepView for AncestorRef {
    type V = AncestorRefView;

    open spec fn deep_view(&self) -> AncestorRefView {
        self@
    }
}

impl AncestorRef {
    /// An ancestor is at least one step back.
    pub open spec fn wf(&self) -> bool {
        self.distance >= 1
    }
}

// ---------------------------------------------------------------------------
// Steps
// ---------------------------------------------------------------------------
/// Where a query stands after the outcomes it was given.
#[derive(Debug, PartialEq, Eq)]
pub enum Step<T> {
    /// The outcomes do not decide the query yet. Run this command, add its
    /// outcome to the list and ask again.
    Run(Invocation),
    /// The answer. The first `read` outcomes decided it; any further ones
    /// were not looked at.
    Done { answer: T, read: usize },
}

pub enum StepView<V> {
    Run(InvocationView),
    Done { answer: V, read: nat },
}

/// A step as mathematics.
pub open spec fn step_of<T: DeepView>(step: Step<Result<T, DriverError>>) -> StepView<
    Result<T::V, DriverErrorView>,
> {
    match step {
        Step::Run(cmd) => StepView::Run(cmd@),
        Step::Done { answer, read } => StepView::Done {
            answer: result_of(answer),
            read: read as nat,
        },
    }
}

impl<V> StepView<V> {
    /// The number of outcomes that a finished step has read.
    pub open spec fn reads(self) -> nat {
        match self {
            StepView::Run(_) => 0,
            StepView::Done { read, .. } => read,
        }
    }

    /// A finished step that read `before` outcomes more than it says, which
    /// is what a step looks like from in front of those outcomes.
    pub open spec fn after(self, before: nat) -> StepView<V> {
        match self {
            StepView::Run(cmd) => StepView::Run(cmd),
            StepView::Done { answer, read } => StepView::Done { answer, read: before + read },
        }
    }
}

/// Whether a listing of the files that make a tree dirty shows a clean tree.
pub open spec fn clean_from(listing: StepView<Result<Seq<Seq<char>>, DriverErrorView>>) -> StepView<
    Result<bool, DriverErrorView>,
> {
    match listing {
        StepView::Run(cmd) => StepView::Run(cmd),
        StepView::Done { answer: Ok(files), read } => StepView::Done {
            answer: Ok(files.len() == 0),
            read,
        },
        StepView::Done { answer: Err(e), read } => StepView::Done { answer: Err(e), read },
    }
}

/// A query that must not describe a dirty tree, unless `dirty_ok`: `then`
/// is the query itself, given the outcomes that follow those of the check.
/// The check comes first, and if it finds changes, or fails, the query's own
/// command is never asked for.
pub open spec fn gated<V>(
    dirty_ok: bool,
    clean: StepView<Result<bool, DriverErrorView>>,
    then: spec_fn(nat) -> StepView<Result<V, DriverErrorView>>,
) -> StepView<Result<V, DriverErrorView>> {
    if dirty_ok {
        then(0)
    } else {
        match clean {
            StepView::Run(cmd) => StepView::Run(cmd),
            StepView::Done { answer: Err(e), read } => StepView::Done { answer: Err(e), read },
            StepView::Done { answer: Ok(false), read } => StepView::Done {
                answer: Err(not_clean()),
                read,
            },
            StepView::Done { answer: Ok(true), read } => then(read).after(read),
        }
    }
}

/// The outcomes from number `at` on.
pub fn rest_of(seen: &[CmdResult], at: usize) -> (rest: &[CmdResult])
    requires
        at <= seen.len(),
    ensures
        rest.len() == seen.len() - at,
        transcript_of(rest@) == transcript_of(seen@).skip(at as int),
{
    let rest = slice_subrange(seen, at, seen.len());
    rest
}

/// `step` as it looks from in front of `before` outcomes that were read
/// ahead of it.
pub fn after<T: DeepView>(step: Step<Result<T, DriverError>>, before: usize) -> (res: Step<
    Result<T, DriverError>,
>)
    requires
        before + step_of(step).reads() <= usize::MAX,
    ensures
        step_of(res) == step_of(step).after(before as nat),
{
    match step {
        Step::Run(cmd) => Step::Run(cmd),
        Step::Done { answer, read } => Step::Done { answer, read: before + read },
    }
}

/// What the check for a clean tree lets a query do.
pub enum Gate<T> {
    /// Go on, from the outcome with this number.
    Open(usize),
    /// Stop with this step.
    Shut(Step<Result<T, DriverError>>),
}

/// Whether a listing of the files that make a tree dirty shows a clean tree.
pub fn clean_step(listing: Step<Result<Vec<QueryDir>, DriverError>>) -> (step: Step<
    Result<bool, DriverError>,
>)
    ensures
        step_of(step) == clean_from(step_of(listing)),
{
    match listing {
        Step::Run(cmd) => Step::Run(cmd),
        Step::Done { answer: Ok(files), read } => Step::Done { answer: Ok(files.len() == 0), read },
        Step::Done { answer: Err(e), read } => Step::Done { answer: Err(e), read },
    }
}

/// The check that stands in front of a query which must not describe a
/// dirty tree. `clean` says whether the tree is clean; only if it is for
/// certain does the query go on.
pub fn gate<T: DeepView>(clean: Step<Result<bool, DriverError>>) -> (res: Gate<T>)
    ensures
        match res {
            Gate::Open(read) => step_of(clean) == (StepView::Done {
                answer: Ok::<bool, DriverErrorView>(true),
                read: read as nat,
            }),
            Gate::Shut(step) => {
                &&& !(step_of(clean) matches StepView::Done { answer: Ok(true), .. })
                &&& step_of(step).reads() == step_of(clean).reads()
                &&& step_of(step) == gated(
                    false,
                    step_of(clean),
                    |r: nat| arbitrary::<StepView<Result<T::V, DriverErrorView>>>(),
                )
            },
        },
{
    match clean {
        Step::Run(cmd) => Gate::Shut(Step::Run(cmd)),
        Step::Done { answer: Err(e), read } => Gate::Shut(Step::Done { answer: Err(e), read }),
        Step::Done { answer: Ok(clean), read } => {
            if clean {
                Gate::Open(read)
            } else {
                Gate::Shut(Step::Done { answer: Err(DriverError::not_clean()), read })
            }
        },
    }
}

/// The failure of a driver that is asked for a name and has no way to find
/// one.
pub open spec fn ref_name_unsupported(context: Seq<char>) -> DriverErrorView {
    DriverErrorView::Unknown(context + ": "@ + ERROR_REF_NAME_UNSUPPORTED@)
}

/// The one line that a successful command printed.
pub open spec fn one_line(
    run_context: Seq<char>,
    line_context: Seq<char>,
    outcome: Outcome,
) -> Result<Seq<char>, DriverErrorView> {
    match expect_lossy(run_context, outcome) {
        Err(e) => Err(e),
        Ok(output) => expect_line(line_context, output.stdout),
    }
}

/// The one line that a successful command printed. `run_context` names the
/// command where it failed, `line_context` where it printed no line or
/// several.
pub fn read_one_line(run_context: &str, line_context: &str, cmd_output: CmdResult) -> (res:
    Result<String, DriverError>)
    ensures
        result_of(res) == one_line(run_context@, line_context@, outcome_of(cmd_output)),
{
    match DriverError::expect_cmd_lossy(run_context.to_owned(), cmd_output) {
        Err(e) => Err(e),
        Ok(output) => DriverError::expect_cmd_line(line_context, &output),
    }
}

/// The failure of a driver that is asked for a name and has no way to find
/// one.
pub fn no_ref_name(context: &str) -> (e: DriverError)
    ensures
        e@ == ref_name_unsupported(context@),
{
    let mut msg = context.to_owned();
    msg.append(": ");
    msg.append(ERROR_REF_NAME_UNSUPPORTED);
    DriverError::Unknown(msg)
}

// ---------------------------------------------------------------------------
// Drivers
// ---------------------------------------------------------------------------
/// The current point in history, put together from whether the tree is
/// clean, the point's identifier and its name, asked for in this order and
/// each from the outcomes that the one before left unread. A dirty tree ends
/// the query at once unless `dirty_ok`.
pub open spec fn current_ref_from(
    dirty_ok: bool,
    clean: StepView<Result<bool, DriverErrorView>>,
    id: spec_fn(nat) -> StepView<Result<Seq<char>, DriverErrorView>>,
    name: spec_fn(nat) -> StepView<Result<Option<Seq<char>>, DriverErrorView>>,
) -> StepView<Result<HistoryRefView, DriverErrorView>> {
    match clean {
        StepView::Run(cmd) => StepView::Run(cmd),
        StepView::Done { answer: Err(e), read } => StepView::Done { answer: Err(e), read },
        StepView::Done { answer: Ok(is_clean), read } => if !dirty_ok && !is_clean {
            StepView::Done { answer: Err(not_clean()), read }
        } else {
            match id(read) {
                StepView::Run(cmd) => StepView::Run(cmd),
                StepView::Done { answer: Err(e), read: more } => StepView::Done {
                    answer: Err(e),
                    read: read + more,
                },
                StepView::Done { answer: Ok(id), read: more } => match name(read + more) {
                    StepView::Run(cmd) => StepView::Run(cmd),
                    StepView::Done { answer: Err(e), read: last } => StepView::Done {
                        answer: Err(e),
                        read: read + more + last,
                    },
                    StepView::Done { answer: Ok(name), read: last } => StepView::Done {
                        answer: Ok(HistoryRefView { id, name, dirty: !is_clean }),
                        read: read + more + last,
                    },
                },
            }
        },
    }
}

/// The questions about one repository that the driver of any tool answers.
///
/// Each question comes as a pair: what the answer is, as a function of the
/// outcomes seen so far (`.._plan`), and the function that computes it.
pub trait Driver: Sized {
    /// The directory that this driver asks its questions about.
    spec fn dir_view(&self) -> Seq<char>;

    spec fn root_plan(&self, seen: Seq<Outcome>) -> StepView<Result<Seq<char>, DriverErrorView>>;

    /// The top-level directory of the repository.
    fn root(&self, seen: &[CmdResult]) -> (step: Step<Result<QueryDir, DriverError>>)
        ensures
            step_of(step) == self.root_plan(transcript_of(seen@)),
            step_of(step).reads() <= seen.len(),
    ;

    spec fn dirty_files_plan(&self, clean_ok: bool, seen: Seq<Outcome>) -> StepView<
        Result<Seq<Seq<char>>, DriverErrorView>,
    >;

    /// The paths that make the tree dirty, without the tool's status marks.
    /// With none, the answer is the empty list if `clean_ok`, and a failure
    /// otherwise.
    fn dirty_files(&self, clean_ok: bool, seen: &[CmdResult]) -> (step: Step<
        Result<Vec<QueryDir>, DriverError>,
    >)
        ensures
            step_of(step) == self.dirty_files_plan(clean_ok, transcript_of(seen@)),
            step_of(step).reads() <= seen.len(),
    ;

    /// Whether the tree holds no uncommitted change: whether
    /// `dirty_files(true, ..)` lists nothing.
    fn is_clean(&self, seen: &[CmdResult]) -> (step: Step<Result<bool, DriverError>>)
        ensures
            step_of(step) == clean_from(self.dirty_files_plan(true, transcript_of(seen@))),
            step_of(step).reads() <= seen.len(),
    {
        clean_step(self.dirty_files(true, seen))
    }

    spec fn tracked_files_plan(&self, seen: Seq<Outcome>) -> StepView<
        Result<Seq<Seq<char>>, DriverErrorView>,
    >;

    /// The paths under version control as of the current commit, whatever
    /// has been changed since. None at all is a valid answer.
    fn tracked_files(&self, seen: &[CmdResult]) -> (step: Step<Result<Vec<QueryDir>, DriverError>>)
        ensures
            step_of(step) == self.tracked_files_plan(transcript_of(seen@)),
            step_of(step).reads() <= seen.len(),
    ;

    spec fn current_ref_id_plan(&self, dirty_ok: bool, seen: Seq<Outcome>) -> StepView<
        Result<Seq<char>, DriverErrorView>,
    >;

    /// The identifier of the current point in history.
    fn current_ref_id(&self, dirty_ok: bool, seen: &[CmdResult]) -> (step: Step<
        Result<HistoryRefId, DriverError>,
    >)
        ensures
            step_of(step) == self.current_ref_id_plan(dirty_ok, transcript_of(seen@)),
            step_of(step).reads() <= seen.len(),
    ;

    spec fn current_ref_name_plan(&self, dirty_ok: bool, seen: Seq<Outcome>) -> StepView<
        Result<Option<Seq<char>>, DriverErrorView>,
    >;

    /// The name of the current point in history, if it has one.
    fn current_ref_name(&self, dirty_ok: bool, seen: &[CmdResult]) -> (step: Step<
        Result<Option<HistoryRefName>, DriverError>,
    >)
        ensures
            step_of(step) == self.current_ref_name_plan(dirty_ok, transcript_of(seen@)),
            step_of(step).reads() <= seen.len(),
    ;

    /// The current point in history: see [`current_ref_from`]. Whether the
    /// tree is dirty is found out anew, first of all.
    fn current_ref(&self, dirty_ok: bool, seen: &[CmdResult]) -> (step: Step<
        Result<HistoryRef, DriverError>,
    >)
        ensures
            step_of(step) == current_ref_from(
                dirty_ok,
                clean_from(self.dirty_files_plan(true, transcript_of(seen@))),
                |at: nat| self.current_ref_id_plan(dirty_ok, transcript_of(seen@).skip(at as int)),
                |at: nat|
                    self.current_ref_name_plan(dirty_ok, transcript_of(seen@).skip(at as int)),
            ),
            step_of(step).reads() <= seen.len(),
    {
        let (is_clean, read) = match self.is_clean(seen) {
            Step::Run(cmd) => {
                return Step::Run(cmd);
            },
            Step::Done { answer: Err(e), read } => {
                return Step::Done { answer: Err(e), read };
            },
            Step::Done { answer: Ok(is_clean), read } => (is_clean, read),
        };
        if !dirty_ok && !is_clean {
            return Step::Done { answer: Err(DriverError::not_clean()), read };
        }
        let (id, more) = match self.current_ref_id(dirty_ok, rest_of(seen, read)) {
            Step::Run(cmd) => {
                return Step::Run(cmd);
            },
            Step::Done { answer: Err(e), read: more } => {
                return Step::Done { answer: Err(e), read: read + more };
            },
            Step::Done { answer: Ok(id), read: more } => (id, more),
        };
        match self.current_ref_name(dirty_ok, rest_of(seen, read + more)) {
            Step::Run(cmd) => Step::Run(cmd),
            Step::Done { answer: Err(e), read: last } => Step::Done {
                answer: Err(e),
                read: read + more + last,
            },
            Step::Done { answer: Ok(name), read: last } => Step::Done {
                answer: Ok(HistoryRef { id, name, dirty: !is_clean }),
                read: read + more + last,
            },
        }
    }
}

/// Whether a probe shows that its tool manages the directory: it does if
/// the probe ran and succeeded, it does not if the probe ran and failed, and
/// a probe that could not be started is a failure of its own.
pub open spec fn probe_verdict(context: Seq<char>, outcome: Outcome) -> Result<
    bool,
    DriverErrorView,
> {
    match unwrap_lossy(context, outcome) {
        Err(e) => Err(e),
        Ok(output) => Ok(output.status.succeeded()),
    }
}

/// The step of a probe: its command if it has not run yet, and its verdict
/// otherwise.
pub open spec fn probe_plan(
    cmd: InvocationView,
    context: Seq<char>,
    seen: Seq<Outcome>,
) -> StepView<Result<bool, DriverErrorView>> {
    if seen.len() == 0 {
        StepView::Run(cmd)
    } else {
        StepView::Done { answer: probe_verdict(context, seen[0]), read: 1 }
    }
}

/// The step of a health check: its command if it has not run yet, and
/// otherwise the forgiving reading of what the tool said of itself, which
/// must have succeeded.
pub open spec fn health_plan(
    cmd: InvocationView,
    context: Seq<char>,
    seen: Seq<Outcome>,
) -> StepView<Result<LossyView, DriverErrorView>> {
    if seen.len() == 0 {
        StepView::Run(cmd)
    } else {
        StepView::Done { answer: expect_lossy(context, seen[0]), read: 1 }
    }
}

/// What a probe found, without the driver itself.
pub open spec fn verdict_of<D>(step: Step<Result<Option<D>, DriverError>>) -> StepView<
    Result<bool, DriverErrorView>,
> {
    match step {
        Step::Run(cmd) => StepView::Run(cmd@),
        Step::Done { answer: Ok(found), read } => StepView::Done {
            answer: Ok(found is Some),
            read: read as nat,
        },
        Step::Done { answer: Err(e), read } => StepView::Done {
            answer: Err(e@),
            read: read as nat,
        },
    }
}

/// The two questions about a tool that come before any repository: does it
/// manage this directory, and is it there at all?
pub trait Validator: Sized {
    type Driver: Driver;

    /// The command that succeeds exactly in a directory that the tool
    /// manages, with nothing of what it prints kept.
    spec fn probe_cmd(&self, dir: Seq<char>) -> InvocationView;

    spec fn probe_context(&self) -> Seq<char>;

    /// The command by which the tool reports its version.
    spec fn health_cmd(&self) -> InvocationView;

    spec fn health_context(&self) -> Seq<char>;

    /// A driver bound to `dir` if the tool manages `dir`, and `None` if it
    /// does not, which is no failure.
    fn new_driver(&self, dir: QueryDir, seen: &[CmdResult]) -> (step: Step<
        Result<Option<Self::Driver>, DriverError>,
    >)
        ensures
            verdict_of(step) == probe_plan(
                self.probe_cmd(dir@),
                self.probe_context(),
                transcript_of(seen@),
            ),
            step matches Step::Done { answer: Ok(Some(driver)), .. } ==> driver.dir_view() == dir@,
    ;

    /// What the tool says of itself, which shows that it can be run.
    fn check_health(&self, seen: &[CmdResult]) -> (step: Step<Result<VcsAvailable, DriverError>>)
        ensures
            step_of(step) == health_plan(
                self.health_cmd(),
                self.health_context(),
                transcript_of(seen@),
            ),
    ;
}

// ---------------------------------------------------------------------------
// Ancestors
// ---------------------------------------------------------------------------
/// The first of `ancestors` from number `at` on that carries a name, if it
/// is no further back than `limit` steps. The ancestor with number 0 is the
/// parent of the current point, one step back.
pub open spec fn first_named_from(
    ancestors: Seq<HistoryRefView>,
    limit: Option<u64>,
    at: int,
) -> Option<AncestorRefView>
    decreases ancestors.len() - at,
{
    if at < 0 || at >= ancestors.len() || (limit matches Some(max) && at >= max) {
        None
    } else {
        match ancestors[at].name {
            Some(name) => Some(
                AncestorRefView { id: ancestors[at].id, name, distance: (at + 1) as nat },
            ),
            None => first_named_from(ancestors, limit, at + 1),
        }
    }
}

/// The nearest ancestor that somebody gave a name, and how many steps back
/// it is. `ancestors` are the points that the current point descends from,
/// the parent first; at most `limit` of them are looked at, if a limit is
/// given.
pub fn first_ancestor_ref_name(ancestors: &Vec<HistoryRef>, limit: Option<u64>) -> (found: Option<
    AncestorRef,
>)
    ensures
        found.deep_view() == first_named_from(ancestors.deep_view(), limit, 0),
        found matches Some(ancestor) ==> ancestor.wf(),
{
    let mut i: usize = 0;
    while i < ancestors.len()
        invariant
            i <= ancestors.len(),
            first_named_from(ancestors.deep_view(), limit, 0) == first_named_from(
                ancestors.deep_view(),
                limit,
                i as int,
            ),
        decreases ancestors.len() - i,
    {
        if let Some(max) = limit {
            if i as u64 >= max {
                return None;
            }
        }
        let ancestor = &ancestors[i];
        if let Some(name) = &ancestor.name {
            return Some(
                AncestorRef { id: ancestor.id.clone(), name: name.clone(), distance: i as u64 + 1 },
            );
        }
        i += 1;
    }
    None
}

/// What [`first_ancestor_ref_name`] finds is the nearest named ancestor
/// within the limit: it is at least one step back, it carries the name that
/// is reported, and no ancestor nearer than it carries any. Where nothing
/// is found, no ancestor within the limit carries a name.
pub proof fn law_first_ancestor_is_the_nearest(
    ancestors: Seq<HistoryRefView>,
    limit: Option<u64>,
    at: int,
)
    requires
        0 <= at,
    ensures
        match first_named_from(ancestors, limit, at) {
            Some(found) => {
                &&& at < found.distance <= ancestors.len()
                &&& limit matches Some(max) ==> found.distance <= max
                &&& ancestors[found.distance - 1].id == found.id
                &&& ancestors[found.distance - 1].name == Some(found.name)
                &&& forall|j: int| at <= j < found.distance - 1 ==> ancestors[j].name is None
            },
            None => forall|j: int|
                at <= j < ancestors.len() && (limit matches Some(max) ==> j < max)
                    ==> ancestors[j].name is None,
        },
    decreases ancestors.len() - at,
{
    if at >= ancestors.len() || (limit matches Some(max) && at >= max) {
    } else if ancestors[at].name is None {
        law_first_ancestor_is_the_nearest(ancestors, limit, at + 1);
    }
}

} // verus!
