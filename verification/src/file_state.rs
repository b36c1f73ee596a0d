//! Counts of changed files, staged and unstaged, and their text.

use vstd::prelude::*;
use vstd::string::*;
use crate::decimal::{decimal, push_decimal, lemma_decimal_digits};

verus! {

/// What the status scan reports of one file: each flag stands on its own,
/// and any of them may be set together.
#[derive(Clone, Copy, Debug)]
pub struct FileFlags {
    /// New in the working tree.
    pub wt_new: bool,
    /// Modified in the working tree.
    pub wt_modified: bool,
    /// Deleted from the working tree.
    pub wt_deleted: bool,
    /// Renamed in the working tree.
    pub wt_renamed: bool,
    /// New in the index.
    pub index_new: bool,
    /// Modified in the index.
    pub index_modified: bool,
    /// Deleted from the index.
    pub index_deleted: bool,
    /// Renamed in the index.
    pub index_renamed: bool,
}

/// The six counters as mathematical numbers.
pub struct FileCounts {
    pub wt_add: nat,
    pub wt_edit: nat,
    pub wt_remove: nat,
    pub index_add: nat,
    pub index_edit: nat,
    pub index_remove: nat,
}

/// Counts of unstaged (`wt_`) and staged (`index_`) additions, edits and
/// removals.
#[derive(Clone, Copy, Debug)]
pub struct FileState {
    pub wt_add: usize,
    pub wt_edit: usize,
    pub wt_remove: usize,
    pub index_add: usize,
    pub index_edit: usize,
    pub index_remove: usize,
}

impl View for FileState {
    type V = FileCounts;

    open spec fn view(&self) -> FileCounts {
        FileCounts {
            wt_add: self.wt_add as nat,
            wt_edit: self.wt_edit as nat,
            wt_remove: self.wt_remove as nat,
            index_add: self.index_add as nat,
            index_edit: self.index_edit as nat,
            index_remove: self.index_remove as nat,
        }
    }
}

/// One for a flag that is set, zero for one that is not.
pub open spec fn unit(flag: bool) -> nat {
    if flag {
        1
    } else {
        0
    }
}

/// The counters with nothing counted.
pub open spec fn no_counts() -> FileCounts {
    FileCounts { wt_add: 0, wt_edit: 0, wt_remove: 0, index_add: 0, index_edit: 0, index_remove: 0 }
}

/// The counters after one more file: every flag that is set adds one to its
/// counter, and a rename counts as an addition and a removal on its side.
pub open spec fn counts_after(counts: FileCounts, flags: FileFlags) -> FileCounts {
    FileCounts {
        wt_add: counts.wt_add + unit(flags.wt_new) + unit(flags.wt_renamed),
        wt_edit: counts.wt_edit + unit(flags.wt_modified),
        wt_remove: counts.wt_remove + unit(flags.wt_deleted) + unit(flags.wt_renamed),
        index_add: counts.index_add + unit(flags.index_new) + unit(flags.index_renamed),
        index_edit: counts.index_edit + unit(flags.index_modified),
        index_remove: counts.index_remove + unit(flags.index_deleted) + unit(flags.index_renamed),
    }
}

/// The counters after a whole list of files.
pub open spec fn tally(files: Seq<FileFlags>) -> FileCounts
    decreases files.len(),
{
    if files.len() == 0 {
        no_counts()
    } else {
        counts_after(tally(files.drop_last()), files.last())
    }
}

/// The text of one counter: nothing for zero, else a blank, the symbol and
/// the count.
pub open spec fn term_text(symbol: char, count: nat) -> Seq<char> {
    if count == 0 {
        Seq::empty()
    } else {
        seq![' ', symbol] + decimal(count)
    }
}

/// The text of one side: additions with `+`, edits with `~`, removals with
/// `-`, in this order, zero counts left out.
pub open spec fn delta_text(add: nat, edit: nat, remove: nat) -> Seq<char> {
    term_text('+', add) + term_text('~', edit) + term_text('-', remove)
}

impl FileCounts {
    /// The text of the staged side.
    pub open spec fn index_text(self) -> Seq<char> {
        delta_text(self.index_add, self.index_edit, self.index_remove)
    }

    /// The text of the unstaged side.
    pub open spec fn wt_text(self) -> Seq<char> {
        delta_text(self.wt_add, self.wt_edit, self.wt_remove)
    }
}

/// A side's text is empty exactly when its three counts are zero.
pub proof fn lemma_delta_text_empty(add: nat, edit: nat, remove: nat)
    ensures
        delta_text(add, edit, remove).len() == 0 <==> add == 0 && edit == 0 && remove == 0,
{
}

/// A side's text is the terms of its non-zero counts and nothing else, in
/// the order additions, edits, removals; each term is a blank, its symbol
/// and the count's numeral, so a term is at least three characters long.
pub proof fn lemma_delta_text_terms(add: nat, edit: nat, remove: nat)
    ensures
        delta_text(add, edit, remove) == term_text('+', add) + term_text('~', edit) + term_text(
            '-',
            remove,
        ),
        forall|symbol: char, count: nat|
            count == 0 ==> #[trigger] term_text(symbol, count) == Seq::<char>::empty(),
        forall|symbol: char, count: nat|
            count > 0 ==> {
                let term = #[trigger] term_text(symbol, count);
                &&& term.len() == 2 + decimal(count).len()
                &&& term.len() >= 3
                &&& term[0] == ' '
                &&& term[1] == symbol
                &&& term.subrange(2, term.len() as int) == decimal(count)
            },
{
    assert forall|symbol: char, count: nat| count > 0 implies {
        let term = #[trigger] term_text(symbol, count);
        &&& term.len() == 2 + decimal(count).len()
        &&& term.len() >= 3
        &&& term[0] == ' '
        &&& term[1] == symbol
        &&& term.subrange(2, term.len() as int) == decimal(count)
    } by {
        lemma_decimal_digits(count);
        let term = term_text(symbol, count);
        assert(term.subrange(2, term.len() as int) =~= decimal(count));
    }
}

/// No counter ever goes down when a file is counted.
pub proof fn lemma_counts_only_grow(counts: FileCounts, flags: FileFlags)
    ensures
        counts_after(counts, flags).wt_add >= counts.wt_add,
        counts_after(counts, flags).wt_edit >= counts.wt_edit,
        counts_after(counts, flags).wt_remove >= counts.wt_remove,
        counts_after(counts, flags).index_add >= counts.index_add,
        counts_after(counts, flags).index_edit >= counts.index_edit,
        counts_after(counts, flags).index_remove >= counts.index_remove,
{
}

/// A renamed file counts twice on its side: as an addition and as a
/// removal, whatever else is set; with nothing else set on that side, each
/// of the two grows by exactly one and the edits stay.
pub proof fn lemma_rename_counts_twice(counts: FileCounts, flags: FileFlags)
    ensures
        flags.index_renamed ==> {
            &&& counts_after(counts, flags).index_add == counts.index_add + 1 + unit(
                flags.index_new,
            )
            &&& counts_after(counts, flags).index_remove == counts.index_remove + 1 + unit(
                flags.index_deleted,
            )
        },
        flags.wt_renamed ==> {
            &&& counts_after(counts, flags).wt_add == counts.wt_add + 1 + unit(flags.wt_new)
            &&& counts_after(counts, flags).wt_remove == counts.wt_remove + 1 + unit(
                flags.wt_deleted,
            )
        },
        flags.index_renamed && !flags.index_new && !flags.index_deleted && !flags.index_modified
            ==> {
            &&& counts_after(counts, flags).index_add == counts.index_add + 1
            &&& counts_after(counts, flags).index_remove == counts.index_remove + 1
            &&& counts_after(counts, flags).index_edit == counts.index_edit
        },
{
}

/// The two sides are counted apart: flags of the working tree leave the
/// staged counters alone, and flags of the index the unstaged ones.
pub proof fn lemma_sides_are_separate(counts: FileCounts, flags: FileFlags)
    ensures
        !flags.index_new && !flags.index_modified && !flags.index_deleted && !flags.index_renamed
            ==> {
            &&& counts_after(counts, flags).index_add == counts.index_add
            &&& counts_after(counts, flags).index_edit == counts.index_edit
            &&& counts_after(counts, flags).index_remove == counts.index_remove
        },
        !flags.wt_new && !flags.wt_modified && !flags.wt_deleted && !flags.wt_renamed ==> {
            &&& counts_after(counts, flags).wt_add == counts.wt_add
            &&& counts_after(counts, flags).wt_edit == counts.wt_edit
            &&& counts_after(counts, flags).wt_remove == counts.wt_remove
        },
{
}

/// No counter exceeds twice the number of files counted.
pub proof fn lemma_tally_bound(files: Seq<FileFlags>)
    ensures
        tally(files).wt_add <= 2 * files.len(),
        tally(files).wt_edit <= files.len(),
        tally(files).wt_remove <= 2 * files.len(),
        tally(files).index_add <= 2 * files.len(),
        tally(files).index_edit <= files.len(),
        tally(files).index_remove <= 2 * files.len(),
    decreases files.len(),
{
    if files.len() > 0 {
        lemma_tally_bound(files.drop_last());
    }
}

/// Counting two lists one after the other adds up their counts.
pub proof fn lemma_tally_concat(first: Seq<FileFlags>, second: Seq<FileFlags>)
    ensures
        tally(first + second).wt_add == tally(first).wt_add + tally(second).wt_add,
        tally(first + second).wt_edit == tally(first).wt_edit + tally(second).wt_edit,
        tally(first + second).wt_remove == tally(first).wt_remove + tally(second).wt_remove,
        tally(first + second).index_add == tally(first).index_add + tally(second).index_add,
        tally(first + second).index_edit == tally(first).index_edit + tally(second).index_edit,
        tally(first + second).index_remove == tally(first).index_remove + tally(
            second,
        ).index_remove,
    decreases second.len(),
{
    if second.len() == 0 {
        assert(first + second =~= first);
    } else {
        assert((first + second).drop_last() =~= first + second.drop_last());
        assert((first + second).last() == second.last());
        lemma_tally_concat(first, second.drop_last());
    }
}

/// The order in which two lists of files are counted does not matter.
pub proof fn lemma_tally_commutes(first: Seq<FileFlags>, second: Seq<FileFlags>)
    ensures
        tally(first + second) == tally(second + first),
{
    lemma_tally_concat(first, second);
    lemma_tally_concat(second, first);
}

/// Appends the text of one counter to `out`.
pub(crate) fn push_term(out: &mut String, symbol: &str, count: usize)
    requires
        symbol@.len() == 2,
        symbol@[0] == ' ',
    ensures
        final(out)@ == old(out)@ + term_text(symbol@[1], count as nat),
{
    if count > 0 {
        out.append(symbol);
        push_decimal(out, count);
        assert(symbol@ =~= seq![' ', symbol@[1]]);
        assert(out@ =~= old(out)@ + term_text(symbol@[1], count as nat));
    } else {
        assert(out@ =~= old(out)@ + term_text(symbol@[1], count as nat));
    }
}

impl FileState {
    /// The state with nothing counted.
    pub fn new() -> (state: FileState)
        ensures
            state@ == no_counts(),
    {
        FileState { wt_add: 0, wt_edit: 0, wt_remove: 0, index_add: 0, index_edit: 0, index_remove: 0 }
    }

    /// Whether every counter leaves room for one more file.
    pub open spec fn has_room(&self) -> bool {
        &&& self.wt_add <= usize::MAX - 2
        &&& self.wt_edit <= usize::MAX - 1
        &&& self.wt_remove <= usize::MAX - 2
        &&& self.index_add <= usize::MAX - 2
        &&& self.index_edit <= usize::MAX - 1
        &&& self.index_remove <= usize::MAX - 2
    }

    /// Counts one more file.
    pub fn record(&mut self, flags: FileFlags)
        requires
            old(self).has_room(),
        ensures
            final(self)@ == counts_after(old(self)@, flags),
    {
        if flags.wt_new {
            self.wt_add += 1;
        }
        if flags.wt_modified {
            self.wt_edit += 1;
        }
        if flags.wt_deleted {
            self.wt_remove += 1;
        }
        if flags.wt_renamed {
            self.wt_add += 1;
            self.wt_remove += 1;
        }
        if flags.index_new {
            self.index_add += 1;
        }
        if flags.index_modified {
            self.index_edit += 1;
        }
        if flags.index_deleted {
            self.index_remove += 1;
        }
        if flags.index_renamed {
            self.index_add += 1;
            self.index_remove += 1;
        }
    }

    /// The text of the unstaged side.
    pub fn wt_as_string(&self) -> (text: String)
        ensures
            text@ == self@.wt_text(),
    {
        FileState::as_string(self.wt_add, self.wt_edit, self.wt_remove)
    }

    /// The text of the staged side.
    pub fn index_as_string(&self) -> (text: String)
        ensures
            text@ == self@.index_text(),
    {
        FileState::as_string(self.index_add, self.index_edit, self.index_remove)
    }

    /// The text of three counts: ` +` and the additions, ` ~` and the
    /// edits, ` -` and the removals, each only where the count is not zero.
    pub fn as_string(add: usize, edit: usize, remove: usize) -> (text: String)
        ensures
            text@ == delta_text(add as nat, edit as nat, remove as nat),
    {
        proof {
            reveal_strlit(" +");
            reveal_strlit(" ~");
            reveal_strlit(" -");
        }
        let mut text = String::new();
        push_term(&mut text, " +", add);
        push_term(&mut text, " ~", edit);
        push_term(&mut text, " -", remove);
        assert(text@ =~= delta_text(add as nat, edit as nat, remove as nat));
        text
    }
}

} // verus!
