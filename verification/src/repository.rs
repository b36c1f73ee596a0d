//! Reading a repository: which branch is checked out, how far it is from
//! its upstream, and which files changed.
//!
//! What a repository holds is read from disk and can be anything, so no
//! function here can promise to succeed. Each says what holds of its
//! result whatever was read: which shape a success has, and which
//! operation a failure names. What is decided once the repository has
//! answered stands in functions over plain values, with exact contracts.

use vstd::prelude::*;
use vstd::string::*;
use crate::branch_state::{
    default_branch_name,
    setting_view,
    unborn_view,
    BranchState,
    BranchView,
};
use crate::error::{has_context, lemma_context_text_parts, PromptError};
use crate::file_state::{lemma_tally_bound, tally, FileCounts, FileFlags, FileState};
use crate::git::{
    branch_upstream_name,
    buf_as_str,
    commit_id,
    config_get_str,
    config_open_global,
    config_snapshot,
    discover,
    error_text,
    find_reference,
    graph_ahead_behind,
    head_detached,
    is_not_found,
    oid_bytes,
    peel_to_commit,
    reference_name,
    reference_shorthand,
    reference_target,
    repo_config,
    repo_head,
    repo_is_empty,
    repo_statuses,
    status_at,
    status_flags,
    statuses_len,
};
use crate::head::{
    counted,
    is_failed_reading,
    is_missing_part,
    lemma_resolved_failure,
    resolve_head,
    resolved,
    well_compared,
    well_read,
    Comparison,
    HeadReading,
};
use crate::status_line::{line_segments, status_segments, Segment, SegmentView};

verus! {

/// The failure of the operation `context`, caused by what git2 reported.
/// Whatever git2's text is, the message names the context.
fn git_failure(error: git2::Error, context: &str) -> (failure: PromptError)
    ensures
        has_context(failure@, context@),
{
    let cause = error_text(&error);
    proof {
        lemma_context_text_parts(context@, cause@);
    }
    PromptError::with_context(context, cause.as_str())
}

/// The failure of the operation `context`, caused by what git2 reported,
/// as the result of any operation.
pub fn add_context_to_error<T>(e: git2::Error, context: &str) -> (result: Result<T, PromptError>)
    ensures
        result matches Err(error) && has_context(error@, context@),
{
    Err(git_failure(e, context))
}

/// The key of the setting that names the first branch of a repository.
pub fn default_branch_key() -> (key: &'static str)
    ensures
        key@ == "init.defaultBranch"@,
{
    "init.defaultBranch"
}

/// The text that a lookup found, or nothing where the lookup failed for
/// whatever reason.
pub fn found_text(found: Result<&str, git2::Error>) -> (text: Option<String>)
    ensures
        setting_view(text) == match found {
            Ok(value) => Some(value@),
            Err(_) => None,
        },
{
    match found {
        Ok(value) => Some(String::from_str(value)),
        Err(_) => None,
    }
}

/// The value of the default branch's setting in a configuration, where it
/// is set.
fn default_branch_setting(config: &git2::Config) -> Option<String> {
    found_text(config_get_str(config, default_branch_key()))
}

/// Whether `message` names one of the operations on the configuration as
/// the one that failed.
pub open spec fn is_failed_config(message: Seq<char>) -> bool {
    ||| has_context(message, "Unable to get repo config"@)
    ||| has_context(message, "Unable to create config snapshot"@)
    ||| has_context(message, "Unable to get global config"@)
}

/// The branch of a repository without commits. Its name is the default
/// branch: the value of `init.defaultBranch` in the repository's
/// configuration, else in the global one, else `master`. The global
/// configuration is opened only where the repository's does not set it.
pub fn get_empty_repo_branch_info(repo: &git2::Repository) -> (result: Result<
    BranchState,
    PromptError,
>)
    ensures
        result matches Ok(branch) ==> branch@ == unborn_view(branch.name@),
        result matches Err(error) ==> is_failed_config(error@),
{
    let mut live_config = match repo_config(repo) {
        Ok(config) => config,
        Err(e) => return add_context_to_error(e, "Unable to get repo config"),
    };
    let mut config = match config_snapshot(&mut live_config) {
        Ok(snapshot) => snapshot,
        Err(e) => return add_context_to_error(e, "Unable to create config snapshot"),
    };
    let local = default_branch_setting(&config);
    let global = match local {
        Some(_) => None,
        None => {
            let global_config = match config_open_global(&mut config) {
                Ok(opened) => opened,
                Err(e) => return add_context_to_error(e, "Unable to get global config"),
            };
            default_branch_setting(&global_config)
        },
    };
    Ok(BranchState::unborn(default_branch_name(local, global)))
}

/// Compares the history of `local` with that of `upstream`: the commits
/// that only `local` reaches are ahead, those that only `upstream` reaches
/// are behind.
pub fn compare_tips(repo: &git2::Repository, local: git2::Oid, upstream: git2::Oid) -> (comparison:
    Comparison)
    ensures
        comparison is Counted || comparison is Failed,
        well_compared(comparison),
{
    match graph_ahead_behind(repo, local, upstream) {
        Ok(pair) => counted(pair),
        Err(e) => Comparison::Failed(git_failure(e, "Unable to compare with remote branch")),
    }
}

/// Compares the branch that `head` stands for with its upstream: the
/// commit of `head` is the local one, the commit of the upstream's
/// reference the other. A branch whose upstream's name cannot be had has
/// none.
fn compare_with_upstream(
    repo: &git2::Repository,
    head: &git2::Reference<'_>,
    head_fullname: &str,
) -> (comparison: Comparison)
    ensures
        well_compared(comparison),
{
    let remote_name_buf = match branch_upstream_name(repo, head_fullname) {
        Ok(name) => name,
        Err(_) => return Comparison::NoUpstream,
    };
    let remote_reference = match buf_as_str(&remote_name_buf) {
        Ok(name) => match find_reference(repo, name) {
            Ok(reference) => reference,
            Err(e) => return Comparison::UpstreamNotFound(
                git_failure(e, "Unable to find remote branch"),
            ),
        },
        Err(_) => return Comparison::UnnamedUpstream,
    };
    let upstream_oid = match reference_target(&remote_reference) {
        Some(id) => id,
        None => return Comparison::UpstreamWithoutTarget,
    };
    let local_oid = match reference_target(head) {
        Some(id) => id,
        None => return Comparison::HeadWithoutTarget,
    };
    compare_tips(repo, local_oid, upstream_oid)
}

/// Reads of `head`, the resolved HEAD of `repo`, all that the branch state
/// is made of. Without a full name no upstream can be asked for, so the
/// reading then holds none.
fn read_head(repo: &git2::Repository, head: &git2::Reference<'_>) -> (reading: HeadReading)
    ensures
        well_read(reading),
{
    let full_name = found_text(reference_name(head));
    let short_name = found_text(reference_shorthand(head));
    let comparison = match &full_name {
        Some(name) => compare_with_upstream(repo, head, name.as_str()),
        None => Comparison::NoUpstream,
    };
    let is_detached = match head_detached(repo) {
        Ok(detached) => Ok(detached),
        Err(e) => Err(git_failure(e, "Unable to tell whether HEAD is detached")),
    };
    let sha = match peel_to_commit(head) {
        Ok(commit) => Ok(oid_bytes(commit_id(&commit))),
        Err(e) => Err(git_failure(e, "Unable to get HEAD commit")),
    };
    HeadReading { full_name, short_name, comparison, is_detached, sha }
}

/// Whether `message` is one that reading the branch can fail with: a part
/// is missing, or one of the operations failed and is named.
pub open spec fn is_failed_branch(message: Seq<char>) -> bool {
    ||| has_context(message, "Unable to tell whether the repository is empty"@)
    ||| has_context(message, "Unable to get HEAD"@)
    ||| is_failed_config(message)
    ||| is_missing_part(message)
    ||| is_failed_reading(message)
}

/// The branch that is checked out in `repo`.
///
/// In a repository without commits this is the default branch, as
/// [`get_empty_repo_branch_info`] gives it. Otherwise HEAD is resolved and
/// read, and the state is what [`resolve_head`] makes of the reading: HEAD's
/// short name, no distance for a branch without upstream and else the
/// counts of the comparison, whether HEAD is detached, and its commit.
/// Every failure is an error that says which part is missing or names the
/// operation that failed.
pub fn get_branch_info(repo: &git2::Repository) -> (result: Result<BranchState, PromptError>)
    ensures
        result matches Ok(branch) ==> branch@ == unborn_view(branch.name@) || exists|
            reading: HeadReading,
        |
            well_read(reading) && #[trigger] resolved(reading) == Ok::<BranchView, Seq<char>>(
                branch@,
            ),
        result matches Err(error) ==> is_failed_branch(error@),
{
    match repo_is_empty(repo) {
        Ok(true) => return get_empty_repo_branch_info(repo),
        Ok(false) => {},
        Err(e) => return add_context_to_error(
            e,
            "Unable to tell whether the repository is empty",
        ),
    }
    let head = match repo_head(repo) {
        Ok(reference) => reference,
        Err(e) => return add_context_to_error(e, "Unable to get HEAD"),
    };
    let reading = read_head(repo, &head);
    proof {
        lemma_resolved_failure(reading);
    }
    resolve_head(reading)
}

/// Whether the counters hold the changes of so many files for certain: a
/// file adds at most two to a counter.
pub open spec fn countable(files: nat) -> bool {
    2 * files <= usize::MAX
}

/// The counts of a status list.
pub fn count_statuses(list: &git2::Statuses<'_>) -> (state: FileState)
    requires
        countable(status_flags(list).len()),
    ensures
        state@ == tally(status_flags(list)),
{
    let len = statuses_len(list);
    let mut state = FileState::new();
    let mut i: usize = 0;
    while i < len
        invariant
            len == status_flags(list).len(),
            2 * len <= usize::MAX,
            i <= len,
            state@ == tally(status_flags(list).take(i as int)),
        decreases len - i,
    {
        let flags = status_at(list, i);
        proof {
            let before = status_flags(list).take(i as int);
            let after = status_flags(list).take(i + 1);
            lemma_tally_bound(before);
            assert(after.drop_last() =~= before);
            assert(after.last() == flags);
        }
        state.record(flags);
        i += 1;
    }
    assert(status_flags(list).take(i as int) =~= status_flags(list));
    state
}

/// Whether `counts` are the counts of some list of files that the counters
/// hold for certain.
pub open spec fn is_tally(counts: FileCounts) -> bool {
    exists|files: Seq<FileFlags>| countable(files.len()) && counts == #[trigger] tally(files)
}

/// Whether `message` is one that counting the files can fail with: the
/// list is too long for the counters, or the scan failed and is named.
pub open spec fn is_failed_count(message: Seq<char>) -> bool {
    ||| message == "Too many changed files to count"@
    ||| has_context(message, "Unable to get file statuses"@)
}

/// The counts of changed files in `repo`, from a status scan with the
/// default options: the tally of the list that the scan gives. A list too
/// long for the counters is an error, as is a scan that fails.
pub fn get_file_state(repo: &git2::Repository) -> (result: Result<FileState, PromptError>)
    ensures
        result matches Ok(state) ==> is_tally(state@),
        result matches Err(error) ==> is_failed_count(error@),
{
    let statuses = match repo_statuses(repo) {
        Ok(list) => list,
        Err(e) => return add_context_to_error(e, "Unable to get file statuses"),
    };
    if statuses_len(&statuses) > usize::MAX / 2 {
        return Err(PromptError::from_str("Too many changed files to count"));
    }
    let state = count_statuses(&statuses);
    assert(state@ == tally(status_flags(&statuses)));
    Ok(state)
}

/// Whether `segments` are the parts of the status line of some branch and
/// of the counts of some list of files.
pub open spec fn is_status_line(segments: Seq<SegmentView>) -> bool {
    exists|branch: BranchView, files: FileCounts|
        is_tally(files) && segments == #[trigger] line_segments(branch, files)
}

/// The parts of the status line of `repo`: the branch first, then the
/// changed files. Nothing is handed out when either cannot be read; the
/// error is then that of the branch, or else that of the files.
pub fn get_repo_info(repo: &git2::Repository) -> (result: Result<Vec<Segment>, PromptError>)
    ensures
        result matches Ok(segments) ==> is_status_line(segments.deep_view()),
        result matches Err(error) ==> is_failed_branch(error@) || is_failed_count(error@),
{
    let branch_state = match get_branch_info(repo) {
        Ok(state) => state,
        Err(error) => return Err(error),
    };
    let file_state = match get_file_state(repo) {
        Ok(state) => state,
        Err(error) => return Err(error),
    };
    Ok(status_segments(&branch_state, &file_state))
}

/// What a failed search for a repository comes to: where git2 says that
/// there is none, that is no error and nothing is found; every other
/// failure is an error that names the search.
pub fn discovery_failure(not_found: bool, cause: git2::Error) -> (result: Result<
    Option<git2::Repository>,
    PromptError,
>)
    ensures
        not_found ==> result matches Ok(None),
        !not_found ==> (result matches Err(error) && has_context(
            error@,
            "Unable to open repository"@,
        )),
{
    if not_found {
        Ok(None)
    } else {
        add_context_to_error(cause, "Unable to open repository")
    }
}

/// The repository that `start` lies in: the one at `start` or at the
/// nearest directory above it. That there is none is no error; that the
/// search fails otherwise is one.
pub fn locate(start: &std::path::PathBuf) -> (result: Result<Option<git2::Repository>, PromptError>)
    ensures
        result matches Err(error) ==> has_context(error@, "Unable to open repository"@),
{
    match discover(start) {
        Ok(repo) => Ok(Some(repo)),
        Err(e) => {
            let not_found = is_not_found(&e);
            discovery_failure(not_found, e)
        },
    }
}

/// The parts of the status line of the repository that was found, or
/// nothing where none was found.
pub fn prompt_in(found: Option<git2::Repository>) -> (result: Result<
    Option<Vec<Segment>>,
    PromptError,
>)
    ensures
        found is None ==> result matches Ok(None),
        result matches Ok(Some(segments)) ==> is_status_line(segments.deep_view()),
        result matches Ok(None) ==> found is None,
        result matches Err(error) ==> is_failed_branch(error@) || is_failed_count(error@),
{
    match found {
        Some(repo) => match get_repo_info(&repo) {
            Ok(segments) => Ok(Some(segments)),
            Err(error) => Err(error),
        },
        None => Ok(None),
    }
}

/// The parts of the status line for the directory `start`, or nothing
/// where it lies in no repository.
pub fn prompt(start: &std::path::PathBuf) -> (result: Result<Option<Vec<Segment>>, PromptError>)
    ensures
        result matches Ok(Some(segments)) ==> is_status_line(segments.deep_view()),
        result matches Err(error) ==> has_context(error@, "Unable to open repository"@)
            || is_failed_branch(error@) || is_failed_count(error@),
{
    match locate(start) {
        Ok(found) => prompt_in(found),
        Err(error) => Err(error),
    }
}

} // verus!
