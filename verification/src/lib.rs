//! Answers uniform questions about a directory under version control (what
//! is its top-level directory, is the tree dirty, what is the current
//! revision) without the caller knowing whether Git, Mercurial or Jujutsu
//! manages it.
//!
//! The library runs nothing itself. A question is a function of the outcomes
//! of the commands that were run for it so far: it answers with the next
//! command to run, as an [`cmd::Invocation`], or with the answer. The caller
//! runs the command, adds its [`cmd::CmdResult`] to the list and asks again:
//!
//! ```text
//! seen = []
//! loop:
//!     match Repo::new_driver(dir, seen):
//!         Step::Run(command)        => seen.push(run(command))
//!         Step::Done { answer, .. } => return answer
//! ```
//!
//! - [`cmd`]: commands as plain data, and the output of a finished command
//!   as text.
//! - [`repo`]: the failures, the rules that read an outcome, and the traits
//!   that every driver implements.
//! - [`adapter`]: the drivers for Git, Mercurial and Jujutsu.
//! - [`plexer`]: detection of the tool that manages a directory, and the
//!   handle that passes every question on to that tool's driver.
//! - [`cli`]: what the command line asks and prints.
//! - [`text`]: lines, sub-strings and numerals over sequences of characters.
pub mod adapter;
pub mod cli;
pub mod cmd;
pub mod plexer;
pub mod repo;
pub mod text;
