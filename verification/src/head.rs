//! What a checkout's HEAD was found to be, and the branch state that
//! follows from it.

use vstd::prelude::*;
use vstd::string::*;
use crate::branch_state::{branch_text, detached_text, BranchState, BranchView};
use crate::error::{has_context, PromptError};

verus! {

/// What came of comparing the checked-out branch with its upstream.
#[derive(Debug)]
pub enum Comparison {
    /// The branch has no upstream, or none could be asked for.
    NoUpstream,
    /// The upstream's name is not valid UTF-8.
    UnnamedUpstream,
    /// The upstream's reference was not found; the failure names the
    /// lookup as its context.
    UpstreamNotFound(PromptError),
    /// The upstream's reference does not point at a commit.
    UpstreamWithoutTarget,
    /// HEAD's reference does not point at a commit.
    HeadWithoutTarget,
    /// The two histories could not be compared; the failure names the
    /// comparison as its context.
    Failed(PromptError),
    /// The commits that only the branch has, and those that only the
    /// upstream has.
    Counted { ahead: usize, behind: usize },
}

/// All that was read of HEAD in a repository with commits.
#[derive(Debug)]
pub struct HeadReading {
    /// The full name of HEAD's reference, where it is valid UTF-8.
    pub full_name: Option<String>,
    /// The short name of HEAD's reference, where it is valid UTF-8.
    pub short_name: Option<String>,
    /// The comparison with the upstream.
    pub comparison: Comparison,
    /// Whether HEAD is detached, or why that could not be read.
    pub is_detached: Result<bool, PromptError>,
    /// The commit that HEAD resolves to, or why there is none.
    pub sha: Result<[u8; 20], PromptError>,
}

/// The distance to the upstream that a comparison stands for, or the
/// message of the failure: a branch without upstream is neither ahead nor
/// behind, and every other comparison that gave no counts is a failure.
pub open spec fn comparison_counts(comparison: Comparison) -> Result<(usize, usize), Seq<char>> {
    match comparison {
        Comparison::NoUpstream => Ok((0, 0)),
        Comparison::UnnamedUpstream => Err("Unable to get remote branch name"@),
        Comparison::UpstreamNotFound(cause) => Err(cause@),
        Comparison::UpstreamWithoutTarget => Err("Unable to get remote branch id"@),
        Comparison::HeadWithoutTarget => Err("Unable to get local branch id"@),
        Comparison::Failed(cause) => Err(cause@),
        Comparison::Counted { ahead, behind } => Ok((ahead, behind)),
    }
}

/// The branch state that a reading stands for, or the message of the
/// failure. What is missing is reported in this order: the full name, the
/// short name, the comparison, the detachment, the commit.
pub open spec fn resolved(reading: HeadReading) -> Result<BranchView, Seq<char>> {
    if reading.full_name is None {
        Err("Unable to get local branch full name"@)
    } else if reading.short_name is None {
        Err("Unable to get local branch short name"@)
    } else {
        match comparison_counts(reading.comparison) {
            Err(message) => Err(message),
            Ok(distance) => match reading.is_detached {
                Err(cause) => Err(cause@),
                Ok(is_detached) => match reading.sha {
                    Err(cause) => Err(cause@),
                    Ok(sha) => Ok(
                        BranchView {
                            name: reading.short_name->0@,
                            ahead: distance.0 as nat,
                            behind: distance.1 as nat,
                            is_detached,
                            sha: sha@,
                        },
                    ),
                },
            },
        }
    }
}

/// Whether the failures that a comparison carries name their operation.
pub open spec fn well_compared(comparison: Comparison) -> bool {
    &&& comparison matches Comparison::UpstreamNotFound(cause) ==> has_context(
        cause@,
        "Unable to find remote branch"@,
    )
    &&& comparison matches Comparison::Failed(cause) ==> has_context(
        cause@,
        "Unable to compare with remote branch"@,
    )
}

/// Whether a reading is one that reading HEAD can give: without a full
/// name no upstream was asked for, and every failure that it carries names
/// its operation.
pub open spec fn well_read(reading: HeadReading) -> bool {
    &&& reading.full_name is None ==> reading.comparison is NoUpstream
    &&& well_compared(reading.comparison)
    &&& reading.is_detached matches Err(cause) ==> has_context(
        cause@,
        "Unable to tell whether HEAD is detached"@,
    )
    &&& reading.sha matches Err(cause) ==> has_context(cause@, "Unable to get HEAD commit"@)
}

/// Whether `message` says that a name or a commit is missing.
pub open spec fn is_missing_part(message: Seq<char>) -> bool {
    ||| message == "Unable to get local branch full name"@
    ||| message == "Unable to get local branch short name"@
    ||| message == "Unable to get remote branch name"@
    ||| message == "Unable to get remote branch id"@
    ||| message == "Unable to get local branch id"@
}

/// Whether `message` names one of the operations on HEAD and its upstream
/// as the one that failed.
pub open spec fn is_failed_reading(message: Seq<char>) -> bool {
    ||| has_context(message, "Unable to find remote branch"@)
    ||| has_context(message, "Unable to compare with remote branch"@)
    ||| has_context(message, "Unable to tell whether HEAD is detached"@)
    ||| has_context(message, "Unable to get HEAD commit"@)
}

/// A reading that does not resolve to a branch state fails with one of the
/// five messages for a missing part, or with a message that names the
/// operation that failed.
pub proof fn lemma_resolved_failure(reading: HeadReading)
    requires
        well_read(reading),
    ensures
        resolved(reading) matches Err(message) ==> is_missing_part(message) || is_failed_reading(
            message,
        ),
{
}

/// The view of counts or a failure.
pub open spec fn counts_view(counts: Result<(usize, usize), PromptError>) -> Result<
    (usize, usize),
    Seq<char>,
> {
    match counts {
        Ok(pair) => Ok(pair),
        Err(error) => Err(error@),
    }
}

/// The view of a branch state or a failure.
pub open spec fn outcome_view(outcome: Result<BranchState, PromptError>) -> Result<
    BranchView,
    Seq<char>,
> {
    match outcome {
        Ok(branch) => Ok(branch@),
        Err(error) => Err(error@),
    }
}

/// A reading resolves to a branch state exactly when both names were
/// read, the branch has no upstream or was compared with it, and the
/// detachment and the commit were read.
pub proof fn lemma_resolved_ok(reading: HeadReading)
    ensures
        resolved(reading) is Ok <==> {
            &&& reading.full_name is Some
            &&& reading.short_name is Some
            &&& (reading.comparison is NoUpstream || reading.comparison is Counted)
            &&& reading.is_detached is Ok
            &&& reading.sha is Ok
        },
{
}

/// A branch without upstream is neither ahead nor behind, whatever else
/// was read, and its text shows no arrow.
pub proof fn lemma_no_upstream_no_distance(reading: HeadReading)
    requires
        reading.comparison is NoUpstream,
    ensures
        resolved(reading) matches Ok(branch) ==> {
            &&& branch.ahead == 0
            &&& branch.behind == 0
            &&& branch_text(branch) == branch.name + detached_text(branch.is_detached, branch.sha)
        },
{
    if let Ok(branch) = resolved(reading) {
        assert(branch_text(branch) =~= branch.name + detached_text(
            branch.is_detached,
            branch.sha,
        ));
    }
}

/// A branch that was compared with its upstream carries the counts of the
/// comparison, and the name, the detachment and the commit as they were
/// read.
pub proof fn lemma_counted_keeps_counts(reading: HeadReading)
    requires
        reading.comparison is Counted,
    ensures
        resolved(reading) matches Ok(branch) ==> {
            &&& branch.ahead == reading.comparison->ahead
            &&& branch.behind == reading.comparison->behind
            &&& branch.name == reading.short_name->0@
            &&& Ok::<bool, PromptError>(branch.is_detached) == reading.is_detached
            &&& branch.sha == reading.sha->Ok_0@
        },
{
}

/// The comparison that gave the pair of counts that git2 hands out: the
/// commits ahead first, the commits behind second.
pub fn counted(pair: (usize, usize)) -> (comparison: Comparison)
    ensures
        comparison == (Comparison::Counted { ahead: pair.0, behind: pair.1 }),
{
    Comparison::Counted { ahead: pair.0, behind: pair.1 }
}

/// The distance to the upstream that a comparison stands for.
pub fn upstream_counts(comparison: Comparison) -> (counts: Result<(usize, usize), PromptError>)
    ensures
        counts_view(counts) == comparison_counts(comparison),
{
    match comparison {
        Comparison::NoUpstream => Ok((0, 0)),
        Comparison::UnnamedUpstream => Err(
            PromptError::from_str("Unable to get remote branch name"),
        ),
        Comparison::UpstreamNotFound(cause) => Err(cause),
        Comparison::UpstreamWithoutTarget => Err(
            PromptError::from_str("Unable to get remote branch id"),
        ),
        Comparison::HeadWithoutTarget => Err(PromptError::from_str("Unable to get local branch id")),
        Comparison::Failed(cause) => Err(cause),
        Comparison::Counted { ahead, behind } => Ok((ahead, behind)),
    }
}

/// The branch state that a reading stands for.
pub fn resolve_head(reading: HeadReading) -> (outcome: Result<BranchState, PromptError>)
    ensures
        outcome_view(outcome) == resolved(reading),
{
    let HeadReading { full_name, short_name, comparison, is_detached, sha } = reading;
    if full_name.is_none() {
        return Err(PromptError::from_str("Unable to get local branch full name"));
    }
    let name = match short_name {
        Some(name) => name,
        None => return Err(PromptError::from_str("Unable to get local branch short name")),
    };
    let distance = match upstream_counts(comparison) {
        Ok(pair) => pair,
        Err(error) => return Err(error),
    };
    let is_detached = match is_detached {
        Ok(detached) => detached,
        Err(error) => return Err(error),
    };
    let sha = match sha {
        Ok(bytes) => bytes,
        Err(error) => return Err(error),
    };
    Ok(BranchState::new(name, distance.0, distance.1, is_detached, sha))
}

} // verus!
