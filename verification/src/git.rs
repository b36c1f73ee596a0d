//! The calls into git2. Nothing in this file is proved: each function
//! hands one call on, and where it has a contract, that contract is taken
//! from git2's source. What git2 reads from disk can be anything, so most
//! of them promise nothing of their result.

use vstd::prelude::*;
use crate::branch_state::hex_text;
use crate::file_state::FileFlags;

verus! {

/// `std::path::PathBuf`: a path in the file system, handed on unread.
#[verifier::external_type_specification]
#[verifier::external_body]
pub struct ExPathBuf(std::path::PathBuf);

/// `git2::Repository`: an open repository.
#[verifier::external_type_specification]
#[verifier::external_body]
pub struct ExRepository(git2::Repository);

/// `git2::Error`: a failure that git2 reports.
#[verifier::external_type_specification]
#[verifier::external_body]
pub struct ExError(git2::Error);

/// `git2::Reference`: a reference of a repository, such as HEAD.
#[verifier::external_type_specification]
#[verifier::external_body]
pub struct ExReference<'repo>(git2::Reference<'repo>);

/// `git2::Commit`: a commit of a repository.
#[verifier::external_type_specification]
#[verifier::external_body]
pub struct ExCommit<'repo>(git2::Commit<'repo>);

/// `git2::Buf`: bytes that git2 hands out, here a reference name.
#[verifier::external_type_specification]
#[verifier::external_body]
pub struct ExBuf(git2::Buf);

/// `git2::Oid`: the identifier of a commit.
#[verifier::external_type_specification]
#[verifier::external_body]
pub struct ExOid(git2::Oid);

/// `git2::Config`: a configuration, or a snapshot of one.
#[verifier::external_type_specification]
#[verifier::external_body]
pub struct ExConfig(git2::Config);

/// `git2::Statuses`: the list that a status scan gives, one entry for each
/// file that is not clean.
#[verifier::external_type_specification]
#[verifier::external_body]
pub struct ExStatuses<'repo>(git2::Statuses<'repo>);

/// The flags of the files in a status list, in the list's order.
pub uninterp spec fn status_flags(list: &git2::Statuses) -> Seq<FileFlags>;

/// Calls `git2::Repository::discover`, which opens the repository at
/// `start` or at the nearest directory above it that holds one.
#[verifier::external_body]
pub(crate) fn discover(start: &std::path::PathBuf) -> Result<git2::Repository, git2::Error> {
    git2::Repository::discover(start)
}

/// Calls `git2::Repository::is_empty`.
#[verifier::external_body]
pub(crate) fn repo_is_empty(repo: &git2::Repository) -> Result<bool, git2::Error> {
    repo.is_empty()
}

/// Calls `git2::Repository::head`.
#[verifier::external_body]
pub(crate) fn repo_head(repo: &git2::Repository) -> Result<git2::Reference<'_>, git2::Error> {
    repo.head()
}

/// Calls `git2::Repository::head_detached`.
#[verifier::external_body]
pub(crate) fn head_detached(repo: &git2::Repository) -> Result<bool, git2::Error> {
    repo.head_detached()
}

/// Calls `git2::Repository::branch_upstream_name`.
#[verifier::external_body]
pub(crate) fn branch_upstream_name(repo: &git2::Repository, refname: &str) -> Result<
    git2::Buf,
    git2::Error,
> {
    repo.branch_upstream_name(refname)
}

/// Calls `git2::Repository::find_reference`.
#[verifier::external_body]
pub(crate) fn find_reference<'repo>(repo: &'repo git2::Repository, name: &str) -> Result<
    git2::Reference<'repo>,
    git2::Error,
> {
    repo.find_reference(name)
}

/// Calls `git2::Repository::graph_ahead_behind`, which gives the commits
/// that only `local` reaches and those that only `upstream` reaches.
#[verifier::external_body]
pub(crate) fn graph_ahead_behind(
    repo: &git2::Repository,
    local: git2::Oid,
    upstream: git2::Oid,
) -> Result<(usize, usize), git2::Error> {
    repo.graph_ahead_behind(local, upstream)
}

/// Calls `git2::Repository::config`.
#[verifier::external_body]
pub(crate) fn repo_config(repo: &git2::Repository) -> Result<git2::Config, git2::Error> {
    repo.config()
}

/// Calls `git2::Repository::statuses` without options.
#[verifier::external_body]
pub(crate) fn repo_statuses(repo: &git2::Repository) -> Result<git2::Statuses<'_>, git2::Error> {
    repo.statuses(None)
}

/// Calls `git2::Reference::name`.
#[verifier::external_body]
pub(crate) fn reference_name<'a>(reference: &'a git2::Reference<'_>) -> Result<
    &'a str,
    git2::Error,
> {
    reference.name()
}

/// Calls `git2::Reference::shorthand`.
#[verifier::external_body]
pub(crate) fn reference_shorthand<'a>(reference: &'a git2::Reference<'_>) -> Result<
    &'a str,
    git2::Error,
> {
    reference.shorthand()
}

/// Calls `git2::Reference::target`.
#[verifier::external_body]
pub(crate) fn reference_target(reference: &git2::Reference<'_>) -> Option<git2::Oid> {
    reference.target()
}

/// Calls `git2::Reference::peel_to_commit`.
#[verifier::external_body]
pub(crate) fn peel_to_commit<'repo>(reference: &git2::Reference<'repo>) -> Result<
    git2::Commit<'repo>,
    git2::Error,
> {
    reference.peel_to_commit()
}

/// Calls `git2::Commit::id`.
#[verifier::external_body]
pub(crate) fn commit_id(commit: &git2::Commit<'_>) -> git2::Oid {
    commit.id()
}

/// Calls `git2::Oid::as_bytes` and copies the twenty bytes out.
#[verifier::external_body]
pub(crate) fn oid_bytes(oid: git2::Oid) -> [u8; 20] {
    let mut bytes = [0u8; 20];
    bytes.copy_from_slice(oid.as_bytes());
    bytes
}

/// Calls `git2::Oid::from_bytes` on the twenty bytes and formats the `Oid`
/// with its `Display`. The contract claims that `from_bytes` takes any
/// twenty bytes, and that the `Oid` is written with two lower-case
/// hexadecimal digits for each byte, the high half first, forty in all.
#[verifier::external_body]
pub(crate) fn sha_hex(bytes: &[u8; 20]) -> (text: String)
    ensures
        text@ == hex_text(bytes@),
{
    match git2::Oid::from_bytes(bytes) {
        Ok(oid) => oid.to_string(),
        Err(_) => String::new(),
    }
}

/// Calls `git2::Buf::as_str`.
#[verifier::external_body]
pub(crate) fn buf_as_str(buf: &git2::Buf) -> Result<&str, git2::Error> {
    buf.as_str()
}

/// Calls `git2::Config::snapshot`.
#[verifier::external_body]
pub(crate) fn config_snapshot(config: &mut git2::Config) -> Result<git2::Config, git2::Error> {
    config.snapshot()
}

/// Calls `git2::Config::open_global`.
#[verifier::external_body]
pub(crate) fn config_open_global(config: &mut git2::Config) -> Result<git2::Config, git2::Error> {
    config.open_global()
}

/// Calls `git2::Config::get_str`.
#[verifier::external_body]
pub(crate) fn config_get_str<'a>(config: &'a git2::Config, name: &str) -> Result<
    &'a str,
    git2::Error,
> {
    config.get_str(name)
}

/// Calls `git2::Statuses::len`. The contract claims that this is the
/// number of files in the list.
#[verifier::external_body]
pub(crate) fn statuses_len(list: &git2::Statuses<'_>) -> (len: usize)
    ensures
        len == status_flags(list).len(),
{
    list.len()
}

/// Calls `git2::Statuses::get` and `git2::StatusEntry::status`, and asks
/// the `git2::Status` for each of the eight flags. The contract claims that
/// an index below the list's length has an entry, and that these are the
/// flags of the file at that place in the list.
#[verifier::external_body]
pub(crate) fn status_at(list: &git2::Statuses<'_>, index: usize) -> (flags: FileFlags)
    requires
        index < status_flags(list).len(),
    ensures
        flags == status_flags(list)[index as int],
{
    let status = list.get(index).unwrap().status();
    FileFlags {
        wt_new: status.is_wt_new(),
        wt_modified: status.is_wt_modified(),
        wt_deleted: status.is_wt_deleted(),
        wt_renamed: status.is_wt_renamed(),
        index_new: status.is_index_new(),
        index_modified: status.is_index_modified(),
        index_deleted: status.is_index_deleted(),
        index_renamed: status.is_index_renamed(),
    }
}

/// Calls `git2::Error::code` and tells `git2::ErrorCode::NotFound`, the
/// code for what was looked for and is not there, from the other codes.
#[verifier::external_body]
pub(crate) fn is_not_found(error: &git2::Error) -> bool {
    error.code() == git2::ErrorCode::NotFound
}

/// Formats a `git2::Error` with its `Display`: the message, followed by
/// the error's class and code where they are set.
#[verifier::external_body]
pub(crate) fn error_text(error: &git2::Error) -> String {
    error.to_string()
}

} // verus!
