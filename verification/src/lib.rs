//! Status summary of a git checkout for a shell prompt: the branch with its
//! distance to the upstream, and counts of staged and unstaged changes,
//! rendered as one bracketed line.

pub mod branch_state;
pub mod decimal;
pub mod error;
pub mod file_state;
pub mod git;
pub mod head;
pub mod repository;
pub mod status_line;
pub mod style;
