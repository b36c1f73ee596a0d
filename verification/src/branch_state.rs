//! The checkout's identity: its branch or commit, and how far it is from
//! its upstream.

use vstd::prelude::*;
use vstd::string::*;
use crate::decimal::{decimal, digit_char};
use crate::file_state::{push_term, term_text};
use crate::git::sha_hex;

verus! {

/// The character that shows the hexadecimal digit `d`, in lower case.
pub open spec fn hex_digit(d: nat) -> char
    recommends
        d < 16,
{
    if d < 10 {
        digit_char(d)
    } else if d == 10 {
        'a'
    } else if d == 11 {
        'b'
    } else if d == 12 {
        'c'
    } else if d == 13 {
        'd'
    } else if d == 14 {
        'e'
    } else {
        'f'
    }
}

/// The bytes in hexadecimal: two digits for each byte, the high half first.
pub open spec fn hex_text(bytes: Seq<u8>) -> Seq<char> {
    Seq::new(
        2 * bytes.len(),
        |i: int|
            if i % 2 == 0 {
                hex_digit((bytes[i / 2] / 16) as nat)
            } else {
                hex_digit((bytes[i / 2] % 16) as nat)
            },
    )
}

/// The commit identifier of a repository without commits: twenty zero bytes.
pub open spec fn zero_sha() -> Seq<u8> {
    Seq::new(20, |i: int| 0u8)
}

/// A branch state as mathematical values.
pub struct BranchView {
    pub name: Seq<char>,
    pub ahead: nat,
    pub behind: nat,
    pub is_detached: bool,
    pub sha: Seq<u8>,
}

/// The current branch, or the commit that HEAD points at directly.
#[derive(Debug)]
pub struct BranchState {
    /// The short name of the branch.
    pub name: String,
    /// Commits that only the local branch has.
    pub ahead: usize,
    /// Commits that only the upstream has.
    pub behind: usize,
    /// Whether HEAD points at a commit and not at a branch.
    pub is_detached: bool,
    /// The commit that HEAD resolves to.
    pub sha: [u8; 20],
}

impl View for BranchState {
    type V = BranchView;

    open spec fn view(&self) -> BranchView {
        BranchView {
            name: self.name@,
            ahead: self.ahead as nat,
            behind: self.behind as nat,
            is_detached: self.is_detached,
            sha: self.sha@,
        }
    }
}

/// The commit in brackets, for a detached HEAD; nothing otherwise.
pub open spec fn detached_text(is_detached: bool, sha: Seq<u8>) -> Seq<char> {
    if is_detached {
        seq!['('] + hex_text(sha) + seq![')']
    } else {
        Seq::empty()
    }
}

/// The text of a branch state: the name; for a detached HEAD the commit in
/// brackets; ` ↓` and the commits behind, ` ↑` and the commits ahead, each
/// only where the count is not zero.
pub open spec fn branch_text(branch: BranchView) -> Seq<char> {
    branch.name + detached_text(branch.is_detached, branch.sha) + term_text('↓', branch.behind)
        + term_text('↑', branch.ahead)
}

/// The state of the branch of a repository without commits: neither ahead
/// nor behind, not detached, and at the zero commit.
pub open spec fn unborn_view(name: Seq<char>) -> BranchView {
    BranchView { name, ahead: 0, behind: 0, is_detached: false, sha: zero_sha() }
}

/// The name of the first branch of a repository: the local setting, else
/// the global one, else `master`.
pub open spec fn default_branch(local: Option<Seq<char>>, global: Option<Seq<char>>) -> Seq<char> {
    match local {
        Some(name) => name,
        None => match global {
            Some(name) => name,
            None => seq!['m', 'a', 's', 't', 'e', 'r'],
        },
    }
}

/// The default branch is the local setting where there is one, else the
/// global one, else `master`; and the branch of a repository without
/// commits is neither ahead nor behind nor detached, with the zero commit.
pub proof fn lemma_default_branch_order(local: Option<Seq<char>>, global: Option<Seq<char>>)
    ensures
        local is Some ==> default_branch(local, global) == local->0,
        local is None && global is Some ==> default_branch(local, global) == global->0,
        local is None && global is None ==> default_branch(local, global) == "master"@,
        unborn_view(default_branch(local, global)).ahead == 0,
        unborn_view(default_branch(local, global)).behind == 0,
        !unborn_view(default_branch(local, global)).is_detached,
        unborn_view(default_branch(local, global)).sha == zero_sha(),
        branch_text(unborn_view(default_branch(local, global))) == default_branch(local, global),
{
    reveal_strlit("master");
    assert("master"@ =~= seq!['m', 'a', 's', 't', 'e', 'r']);
    let name = default_branch(local, global);
    assert(branch_text(unborn_view(name)) =~= name);
}

/// Hexadecimal text has two characters for each byte: the digit of the
/// byte's high half, then the digit of its low half.
pub proof fn lemma_hex_text_digits(bytes: Seq<u8>)
    ensures
        hex_text(bytes).len() == 2 * bytes.len(),
        forall|i: int|
            0 <= i < bytes.len() ==> {
                &&& #[trigger] hex_text(bytes)[2 * i] == hex_digit((bytes[i] / 16) as nat)
                &&& hex_text(bytes)[2 * i + 1] == hex_digit((bytes[i] % 16) as nat)
            },
{
}

/// The text of a branch state by its cases: the name alone for a branch
/// that is neither detached nor away from its upstream; the commit in
/// brackets after the name for a detached HEAD; the arrow down with the
/// commits behind, then the arrow up with the commits ahead, for those of
/// the two that are not zero.
pub proof fn lemma_branch_text_cases(branch: BranchView)
    ensures
        branch_text(branch) == branch.name + detached_text(branch.is_detached, branch.sha)
            + term_text('↓', branch.behind) + term_text('↑', branch.ahead),
        !branch.is_detached && branch.behind == 0 && branch.ahead == 0 ==> branch_text(branch)
            == branch.name,
        branch.is_detached && branch.behind == 0 && branch.ahead == 0 ==> branch_text(branch)
            == branch.name + seq!['('] + hex_text(branch.sha) + seq![')'],
        !branch.is_detached && branch.behind > 0 && branch.ahead == 0 ==> branch_text(branch)
            == branch.name + seq![' ', '↓'] + decimal(branch.behind),
        !branch.is_detached && branch.behind == 0 && branch.ahead > 0 ==> branch_text(branch)
            == branch.name + seq![' ', '↑'] + decimal(branch.ahead),
        !branch.is_detached && branch.behind > 0 && branch.ahead > 0 ==> branch_text(branch)
            == branch.name + seq![' ', '↓'] + decimal(branch.behind) + seq![' ', '↑'] + decimal(
            branch.ahead,
        ),
{
    let text = branch_text(branch);
    if !branch.is_detached {
        if branch.behind == 0 && branch.ahead == 0 {
            assert(text =~= branch.name);
        } else if branch.behind > 0 && branch.ahead == 0 {
            assert(text =~= branch.name + seq![' ', '↓'] + decimal(branch.behind));
        } else if branch.behind == 0 && branch.ahead > 0 {
            assert(text =~= branch.name + seq![' ', '↑'] + decimal(branch.ahead));
        } else {
            assert(text =~= branch.name + seq![' ', '↓'] + decimal(branch.behind) + seq![
                ' ',
                '↑',
            ] + decimal(branch.ahead));
        }
    } else if branch.behind == 0 && branch.ahead == 0 {
        assert(text =~= branch.name + seq!['('] + hex_text(branch.sha) + seq![')']);
    }
}

/// The view of a setting that may be absent.
pub open spec fn setting_view(setting: Option<String>) -> Option<Seq<char>> {
    match setting {
        Some(name) => Some(name@),
        None => None,
    }
}

/// The name of the first branch of a repository, from the local and the
/// global setting of `init.defaultBranch`.
pub fn default_branch_name(local: Option<String>, global: Option<String>) -> (name: String)
    ensures
        name@ == default_branch(setting_view(local), setting_view(global)),
{
    match local {
        Some(name) => name,
        None => match global {
            Some(name) => name,
            None => {
                proof {
                    reveal_strlit("master");
                }
                let name = String::from_str("master");
                assert(name@ =~= seq!['m', 'a', 's', 't', 'e', 'r']);
                name
            },
        },
    }
}

impl BranchState {
    /// The state of the branch of a repository without commits.
    pub fn unborn(name: String) -> (branch: BranchState)
        ensures
            branch@ == unborn_view(name@),
    {
        let branch = BranchState { name, ahead: 0, behind: 0, is_detached: false, sha: [0u8; 20] };
        assert(branch.sha@ =~= zero_sha());
        branch
    }

    /// The state with these values.
    pub fn new(
        name: String,
        ahead: usize,
        behind: usize,
        is_detached: bool,
        sha: [u8; 20],
    ) -> (branch: BranchState)
        ensures
            branch@ == (BranchView {
                name: name@,
                ahead: ahead as nat,
                behind: behind as nat,
                is_detached,
                sha: sha@,
            }),
    {
        BranchState { name, ahead, behind, is_detached, sha }
    }

    /// The text of this state.
    pub fn as_string(&self) -> (text: String)
        ensures
            text@ == branch_text(self@),
    {
        proof {
            reveal_strlit("(");
            reveal_strlit(")");
            reveal_strlit(" ↓");
            reveal_strlit(" ↑");
        }
        let mut result = self.name.clone();
        if self.is_detached {
            let hex = sha_hex(&self.sha);
            result.append("(");
            result.append(hex.as_str());
            result.append(")");
            assert(result@ =~= self.name@ + detached_text(true, self.sha@));
        } else {
            assert(result@ =~= self.name@ + detached_text(false, self.sha@));
        }
        push_term(&mut result, " ↓", self.behind);
        push_term(&mut result, " ↑", self.ahead);
        assert(result@ =~= branch_text(self@));
        result
    }
}

} // verus!
