//! One driver for each tool that the library knows.

/// The driver for Git, <https://git-scm.com>.
pub mod git;

/// The driver for Mercurial, <https://mercurial-scm.org>.
pub mod hg;

/// The driver for Jujutsu, <https://jj-vcs.github.io>.
pub mod jj;
