//! Commands as plain data, and what a finished command gave as text.
//!
//! The library never starts a process. It describes the command it needs as
//! an [`Invocation`], and it is handed the [`Output`] of the finished process,
//! or the [`LaunchError`] that kept the process from starting. This module
//! turns the raw bytes of an `Output` into text, either forgivingly
//! ([`Utf8CmdOutputLossy`]) or strictly ([`Utf8CmdOutput`]).
use crate::text::{chars_of, lines_of, split_lines};
use vstd::prelude::*;
use vstd::utf8::{decode_utf8, valid_utf8};

verus! {

/// How a process ended: with an exit code, or without one when a signal
/// ended it.
#[derive(Debug, Clone, Copy, PartialEq, Eq, Structural)]
pub struct ExitStatus {
    pub code: Option<i32>,
}

impl ExitStatus {
    /// The process ended by itself with exit code zero.
    pub open spec fn succeeded(self) -> bool {
        self.code == Some(0i32)
    }

    /// Whether the process ended by itself with exit code zero.
    pub fn success(&self) -> (ok: bool)
        ensures
            ok == self.succeeded(),
    {
        match self.code {
            Some(code) => code == 0,
            None => false,
        }
    }
}

/// What a finished process left behind.
#[derive(Debug, PartialEq, Eq)]
pub struct Output {
    pub status: ExitStatus,
    pub stdout: Vec<u8>,
    pub stderr: Vec<u8>,
}

pub struct OutputView {
    pub status: ExitStatus,
    pub stdout: Seq<u8>,
    pub stderr: Seq<u8>,
}

impl View for Output {
    type V = OutputView;

    open spec fn view(&self) -> OutputView {
        OutputView { status: self.status, stdout: self.stdout@, stderr: self.stderr@ }
    }
}

impl Clone for Output {
    fn clone(&self) -> (res: Self)
        ensures
            res@ == self@,
    {
        Output { status: self.status, stdout: self.stdout.clone(), stderr: self.stderr.clone() }
    }
}

/// Why a command could not be started at all: the program is missing, the
/// directory cannot be entered, and the like. `detail` is the operating
/// system's account of it.
#[derive(Debug, PartialEq, Eq)]
pub struct LaunchError {
    pub detail: String,
}

impl View for LaunchError {
    type V = Seq<char>;

    open spec fn view(&self) -> Seq<char> {
        self.detail@
    }
}

impl Clone for LaunchError {
    fn clone(&self) -> (res: Self)
        ensures
            res@ == self@,
    {
        LaunchError { detail: self.detail.clone() }
    }
}

/// What running one command gave.
pub type CmdResult = Result<Output, LaunchError>;

/// A [`CmdResult`] as mathematics.
pub type Outcome = Result<OutputView, Seq<char>>;

pub open spec fn outcome_of(r: CmdResult) -> Outcome {
    match r {
        Ok(output) => Ok(output@),
        Err(e) => Err(e@),
    }
}

/// The outcomes of the commands run so far, oldest first.
pub open spec fn transcript_of(seen: Seq<CmdResult>) -> Seq<Outcome> {
    seen.map_values(|r: CmdResult| outcome_of(r))
}

/// A copy of `r`.
pub fn clone_result(r: &CmdResult) -> (res: CmdResult)
    ensures
        outcome_of(res) == outcome_of(*r),
{
    match r {
        Ok(output) => Ok(output.clone()),
        Err(e) => Err(e.clone()),
    }
}

// ---------------------------------------------------------------------------
// Invocations
// ---------------------------------------------------------------------------
/// A command to run: the program, its arguments, the directory to run it
/// in, the environment variables to set for it, and whether what it prints is
/// wanted at all.
#[derive(Debug, PartialEq, Eq)]
pub struct Invocation {
    pub program: String,
    pub args: Vec<String>,
    /// Working directory; the caller's own if `None`.
    pub dir: Option<String>,
    /// Variables set in addition to the caller's environment.
    pub env: Vec<(String, String)>,
    /// Whether both output streams are discarded: only the exit status counts.
    pub quiet: bool,
}

pub struct InvocationView {
    pub program: Seq<char>,
    pub args: Seq<Seq<char>>,
    pub dir: Option<Seq<char>>,
    pub env: Seq<(Seq<char>, Seq<char>)>,
    pub quiet: bool,
}

impl View for Invocation {
    type V = InvocationView;

    open spec fn view(&self) -> InvocationView {
        InvocationView {
            program: self.program@,
            args: self.args.deep_view(),
            dir: self.dir.deep_view(),
            env: self.env.deep_view(),
            quiet: self.quiet,
        }
    }
}

impl InvocationView {
    /// The bare command: `program` without arguments, run where the caller is.
    pub open spec fn new(program: Seq<char>) -> InvocationView {
        InvocationView {
            program,
            args: Seq::empty(),
            dir: None,
            env: Seq::empty(),
            quiet: false,
        }
    }

    pub open spec fn arg(self, arg: Seq<char>) -> InvocationView {
        InvocationView { args: self.args.push(arg), ..self }
    }

    pub open spec fn current_dir(self, dir: Seq<char>) -> InvocationView {
        InvocationView { dir: Some(dir), ..self }
    }

    pub open spec fn env(self, key: Seq<char>, value: Seq<char>) -> InvocationView {
        InvocationView { env: self.env.push((key, value)), ..self }
    }

    pub open spec fn quiet(self) -> InvocationView {
        InvocationView { quiet: true, ..self }
    }
}

impl Invocation {
    /// The bare command: `program` without arguments, run where the caller is.
    pub fn new(program: &str) -> (cmd: Invocation)
        ensures
            cmd@ == InvocationView::new(program@),
    {
        let cmd = Invocation {
            program: program.to_owned(),
            args: Vec::new(),
            dir: None,
            env: Vec::new(),
            quiet: false,
        };
        assert(cmd.args.deep_view() == Seq::<Seq<char>>::empty());
        assert(cmd.env.deep_view() == Seq::<(Seq<char>, Seq<char>)>::empty());
        cmd
    }

    /// Adds one argument after those already there.
    pub fn arg(&mut self, arg: &str)
        ensures
            final(self)@ == old(self)@.arg(arg@),
    {
        let owned = arg.to_owned();
        self.args.push(owned);
        assert(self.args.deep_view() == old(self).args.deep_view().push(arg@));
    }

    /// Sets the directory to run the command in.
    pub fn current_dir(&mut self, dir: &str)
        ensures
            final(self)@ == old(self)@.current_dir(dir@),
    {
        self.dir = Some(dir.to_owned());
    }

    /// Sets one more environment variable for the command.
    pub fn env(&mut self, key: &str, value: &str)
        ensures
            final(self)@ == old(self)@.env(key@, value@),
    {
        let pair = (key.to_owned(), value.to_owned());
        self.env.push(pair);
        assert(self.env.deep_view() == old(self).env.deep_view().push((key@, value@)));
    }

    /// Discards both output streams of the command.
    pub fn silence(&mut self)
        ensures
            final(self)@ == old(self)@.quiet(),
    {
        self.quiet = true;
    }
}

// ---------------------------------------------------------------------------
// Decoding
// ---------------------------------------------------------------------------
/// What forgiving decoding makes of `bytes`: the text they encode, with
/// U+FFFD in place of each stretch that is not UTF-8.
pub uninterp spec fn lossy_text(bytes: Seq<u8>) -> Seq<char>;

/// How the standard library words its refusal to decode `bytes`.
pub uninterp spec fn decode_problem(bytes: Seq<u8>) -> Seq<char>;

/// `String::from_utf8_lossy` of the standard library. It never fails, its
/// result depends on the bytes alone, and on valid UTF-8 it is the text that
/// the bytes encode.
#[verifier::external_body]
pub(crate) fn decode_lossy(bytes: &Vec<u8>) -> (text: String)
    ensures
        text@ == lossy_text(bytes@),
        valid_utf8(bytes@) ==> text@ == decode_utf8(bytes@),
{
    String::from_utf8_lossy(bytes).into_owned()
}

/// Bytes that are not UTF-8, with the reason they were refused.
#[derive(Debug, PartialEq, Eq)]
pub struct DecodeError {
    /// The bytes as they came.
    pub bytes: Vec<u8>,
    /// Where and why decoding stopped, in words.
    pub problem: String,
}

pub struct DecodeErrorView {
    pub bytes: Seq<u8>,
    pub problem: Seq<char>,
}

impl View for DecodeError {
    type V = DecodeErrorView;

    open spec fn view(&self) -> DecodeErrorView {
        DecodeErrorView { bytes: self.bytes@, problem: self.problem@ }
    }
}

impl Clone for DecodeError {
    fn clone(&self) -> (res: Self)
        ensures
            res@ == self@,
    {
        DecodeError { bytes: self.bytes.clone(), problem: self.problem.clone() }
    }
}

/// What strict decoding makes of `bytes`: their text if they are UTF-8, and
/// otherwise the refusal.
pub open spec fn strict_text(bytes: Seq<u8>) -> Result<Seq<char>, DecodeErrorView> {
    if valid_utf8(bytes) {
        Ok(decode_utf8(bytes))
    } else {
        Err(DecodeErrorView { bytes, problem: decode_problem(bytes) })
    }
}

pub open spec fn text_result_of(r: Result<String, DecodeError>) -> Result<
    Seq<char>,
    DecodeErrorView,
> {
    match r {
        Ok(text) => Ok(text@),
        Err(e) => Err(e@),
    }
}

/// `String::from_utf8` of the standard library. It succeeds exactly on valid
/// UTF-8 and then gives the text that the bytes encode; otherwise its error
/// keeps the bytes, and its `Display` rendering is kept as `problem`.
#[verifier::external_body]
pub(crate) fn decode_strict(bytes: Vec<u8>) -> (res: Result<String, DecodeError>)
    ensures
        match res {
            Ok(text) => valid_utf8(bytes@) && text@ == decode_utf8(bytes@),
            Err(e) => !valid_utf8(bytes@) && e.bytes@ == bytes@ && e.problem@ == decode_problem(
                bytes@,
            ),
        },
{
    match String::from_utf8(bytes) {
        Ok(text) => Ok(text),
        Err(e) => {
            let problem = e.to_string();
            Err(DecodeError { bytes: e.into_bytes(), problem })
        },
    }
}

/// A copy of `r`.
pub fn clone_text_result(r: &Result<String, DecodeError>) -> (res: Result<String, DecodeError>)
    ensures
        text_result_of(res) == text_result_of(*r),
{
    match r {
        Ok(text) => Ok(text.clone()),
        Err(e) => Err(e.clone()),
    }
}

// ---------------------------------------------------------------------------
// Lossy output
// ---------------------------------------------------------------------------
/// The output of a command that is expected to print text, decoded
/// forgivingly. Use it where it does not matter whether the command printed
/// something other than UTF-8; otherwise use [`Utf8CmdOutput`].
#[derive(Debug, PartialEq, Eq)]
pub struct Utf8CmdOutputLossy {
    pub status: ExitStatus,
    pub stdout: String,
    pub stderr: String,
}

pub struct LossyView {
    pub status: ExitStatus,
    pub stdout: Seq<char>,
    pub stderr: Seq<char>,
}

impl View for Utf8CmdOutputLossy {
    type V = LossyView;

    open spec fn view(&self) -> LossyView {
        LossyView { status: self.status, stdout: self.stdout@, stderr: self.stderr@ }
    }
}

impl DeepView for Utf8CmdOutputLossy {
    type V = LossyView;

    open spec fn deep_view(&self) -> LossyView {
        self@
    }
}

/// The forgiving reading of `output`.
pub open spec fn lossy_of(output: OutputView) -> LossyView {
    LossyView {
        status: output.status,
        stdout: lossy_text(output.stdout),
        stderr: lossy_text(output.stderr),
    }
}

impl Utf8CmdOutputLossy {
    /// Decodes both streams of `output` forgivingly. Never fails.
    pub fn from(output: Output) -> (res: Self)
        ensures
            res@ == lossy_of(output@),
            valid_utf8(output@.stdout) ==> res@.stdout == decode_utf8(output@.stdout),
            valid_utf8(output@.stderr) ==> res@.stderr == decode_utf8(output@.stderr),
    {
        let status = output.status;
        let stderr = decode_lossy(&output.stderr);
        let stdout = decode_lossy(&output.stdout);
        Self { status, stdout, stderr }
    }

    /// The lines of standard output.
    pub fn stdout_strings(&self) -> (lines: Vec<String>)
        ensures
            lines.deep_view() == lines_of(self@.stdout),
    {
        tty_strings(self.stdout.as_str())
    }

    /// The lines of standard error.
    pub fn stderr_strings(&self) -> (lines: Vec<String>)
        ensures
            lines.deep_view() == lines_of(self@.stderr),
    {
        tty_strings(self.stderr.as_str())
    }
}

// ---------------------------------------------------------------------------
// Strict output
// ---------------------------------------------------------------------------
/// The output of a command that is expected to print text, decoded strictly:
/// a stream that is not UTF-8 is kept as the [`DecodeError`], beside its
/// forgiving reading. Use it to tell binary garbage from valid, empty output.
#[derive(Debug, PartialEq, Eq)]
pub struct Utf8CmdOutput {
    pub status: ExitStatus,
    pub stdout: Result<String, DecodeError>,
    pub stdout_lossy: String,
    pub stderr: Result<String, DecodeError>,
    pub stderr_lossy: String,
}

pub struct StrictView {
    pub status: ExitStatus,
    pub stdout: Result<Seq<char>, DecodeErrorView>,
    pub stdout_lossy: Seq<char>,
    pub stderr: Result<Seq<char>, DecodeErrorView>,
    pub stderr_lossy: Seq<char>,
}

impl View for Utf8CmdOutput {
    type V = StrictView;

    open spec fn view(&self) -> StrictView {
        StrictView {
            status: self.status,
            stdout: text_result_of(self.stdout),
            stdout_lossy: self.stdout_lossy@,
            stderr: text_result_of(self.stderr),
            stderr_lossy: self.stderr_lossy@,
        }
    }
}

impl DeepView for Utf8CmdOutput {
    type V = StrictView;

    open spec fn deep_view(&self) -> StrictView {
        self@
    }
}

/// The strict reading of `output`.
pub open spec fn strict_of(output: OutputView) -> StrictView {
    StrictView {
        status: output.status,
        stdout: strict_text(output.stdout),
        stdout_lossy: lossy_text(output.stdout),
        stderr: strict_text(output.stderr),
        stderr_lossy: lossy_text(output.stderr),
    }
}

/// The lines of a strictly decoded stream, or its refusal.
pub open spec fn strict_lines(stream: Result<Seq<char>, DecodeErrorView>) -> Result<
    Seq<Seq<char>>,
    DecodeErrorView,
> {
    match stream {
        Ok(text) => Ok(lines_of(text)),
        Err(e) => Err(e),
    }
}

pub open spec fn lines_result_of(r: Result<Vec<String>, DecodeError>) -> Result<
    Seq<Seq<char>>,
    DecodeErrorView,
> {
    match r {
        Ok(lines) => Ok(lines.deep_view()),
        Err(e) => Err(e@),
    }
}

impl StrictView {
    /// The two readings of each stream agree where the stream is text.
    pub open spec fn readings_agree(self) -> bool {
        &&& self.stdout matches Ok(text) ==> text == self.stdout_lossy
        &&& self.stderr matches Ok(text) ==> text == self.stderr_lossy
    }
}

impl Utf8CmdOutput {
    /// The forgiving reading of a stream is its strict reading wherever it
    /// has one.
    pub open spec fn wf(&self) -> bool {
        self@.readings_agree()
    }

    /// Decodes both streams of `output` strictly, and forgivingly beside it.
    pub fn from(output: Output) -> (res: Self)
        ensures
            res@ == strict_of(output@),
            res.wf(),
    {
        let lossy = Utf8CmdOutputLossy::from(output.clone());
        Self {
            status: lossy.status,
            stderr: decode_strict(output.stderr),
            stderr_lossy: lossy.stderr,
            stdout: decode_strict(output.stdout),
            stdout_lossy: lossy.stdout,
        }
    }

    /// The lines of standard output, or why it is not text.
    pub fn stdout_strings(&self) -> (res: Result<Vec<String>, DecodeError>)
        ensures
            lines_result_of(res) == strict_lines(self@.stdout),
    {
        match clone_text_result(&self.stdout) {
            Ok(stdout) => Ok(tty_strings(stdout.as_str())),
            Err(e) => Err(e),
        }
    }

    /// The lines of standard error, or why it is not text.
    pub fn stderr_strings(&self) -> (res: Result<Vec<String>, DecodeError>)
        ensures
            lines_result_of(res) == strict_lines(self@.stderr),
    {
        match clone_text_result(&self.stderr) {
            Ok(stderr) => Ok(tty_strings(stderr.as_str())),
            Err(e) => Err(e),
        }
    }
}

/// The lines of `tty_out`, in order: see [`lines_of`].
pub fn tty_strings(tty_out: &str) -> (lines: Vec<String>)
    ensures
        lines.deep_view() == lines_of(tty_out@),
{
    let chars = chars_of(tty_out);
    split_lines(&chars)
}

} // verus!
