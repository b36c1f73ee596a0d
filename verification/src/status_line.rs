//! The status line: `[`, the branch, the staged changes, ` |` where both
//! sides have changes, the unstaged changes, `]`.

use vstd::prelude::*;
use vstd::string::*;
use crate::branch_state::{branch_text, BranchState, BranchView};
use crate::file_state::{lemma_delta_text_empty, FileCounts, FileState};

verus! {

/// How a part of the line is shown. The tones group the parts for the eye
/// and say nothing else.
#[derive(Clone, Copy, Debug, PartialEq, Eq, Structural)]
pub enum Tone {
    /// The brackets, the branch and the separator.
    Frame,
    /// The staged changes.
    Staged,
    /// The unstaged changes.
    Unstaged,
}

/// A part of the line as mathematical values.
pub struct SegmentView {
    pub text: Seq<char>,
    pub tone: Tone,
}

/// A part of the line, shown in one tone.
#[derive(Debug)]
pub struct Segment {
    pub text: String,
    pub tone: Tone,
}

impl DeepView for Segment {
    type V = SegmentView;

    open spec fn deep_view(&self) -> SegmentView {
        SegmentView { text: self.text@, tone: self.tone }
    }
}

/// What stands between the two sides: ` |` where both have text, nothing
/// where either is empty.
pub open spec fn separator_text(index_text: Seq<char>, wt_text: Seq<char>) -> Seq<char> {
    if index_text.len() > 0 && wt_text.len() > 0 {
        seq![' ', '|']
    } else {
        Seq::empty()
    }
}

/// The whole line as text.
pub open spec fn line_text(branch: BranchView, files: FileCounts) -> Seq<char> {
    seq!['['] + branch_text(branch) + files.index_text() + separator_text(
        files.index_text(),
        files.wt_text(),
    ) + files.wt_text() + seq![']']
}

/// One part, or none where its text is empty.
pub open spec fn optional_segment(text: Seq<char>, tone: Tone) -> Seq<SegmentView> {
    if text.len() > 0 {
        seq![SegmentView { text, tone }]
    } else {
        Seq::empty()
    }
}

/// The parts of the line, in order: the opening bracket and the branch as
/// frame; the staged changes, the separator and the unstaged changes, each
/// only where it has text; the closing bracket as frame.
pub open spec fn line_segments(branch: BranchView, files: FileCounts) -> Seq<SegmentView> {
    seq![
        SegmentView { text: seq!['['], tone: Tone::Frame },
        SegmentView { text: branch_text(branch), tone: Tone::Frame },
    ] + optional_segment(files.index_text(), Tone::Staged) + optional_segment(
        separator_text(files.index_text(), files.wt_text()),
        Tone::Frame,
    ) + optional_segment(files.wt_text(), Tone::Unstaged) + seq![
        SegmentView { text: seq![']'], tone: Tone::Frame },
    ]
}

/// The texts of the parts, one after the other.
pub open spec fn joined(segments: Seq<SegmentView>) -> Seq<char>
    decreases segments.len(),
{
    if segments.len() == 0 {
        Seq::empty()
    } else {
        joined(segments.drop_last()) + segments.last().text
    }
}

/// Joining two lists of parts joins their texts.
pub proof fn lemma_joined_concat(first: Seq<SegmentView>, second: Seq<SegmentView>)
    ensures
        joined(first + second) == joined(first) + joined(second),
    decreases second.len(),
{
    if second.len() == 0 {
        assert(first + second =~= first);
        assert(joined(first) + joined(second) =~= joined(first));
    } else {
        assert((first + second).drop_last() =~= first + second.drop_last());
        assert((first + second).last() == second.last());
        lemma_joined_concat(first, second.drop_last());
        assert(joined(first + second) =~= joined(first) + joined(second));
    }
}

/// A list of one part joins to that part's text.
pub proof fn lemma_joined_single(segment: SegmentView)
    ensures
        joined(seq![segment]) == segment.text,
{
    let one = seq![segment];
    assert(one.drop_last() =~= Seq::<SegmentView>::empty());
    assert(joined(one.drop_last()) =~= Seq::<char>::empty());
    assert(joined(one) =~= segment.text);
}

/// A part that may be left out joins to its text in either case.
pub proof fn lemma_joined_optional(text: Seq<char>, tone: Tone)
    ensures
        joined(optional_segment(text, tone)) == text,
{
    if text.len() > 0 {
        lemma_joined_single(SegmentView { text, tone });
    } else {
        assert(joined(optional_segment(text, tone)) =~= text);
    }
}

/// The parts of the line, joined, are the line's text.
pub proof fn lemma_segments_join_to_line(branch: BranchView, files: FileCounts)
    ensures
        joined(line_segments(branch, files)) == line_text(branch, files),
{
    let open = SegmentView { text: seq!['['], tone: Tone::Frame };
    let name = SegmentView { text: branch_text(branch), tone: Tone::Frame };
    let close = SegmentView { text: seq![']'], tone: Tone::Frame };
    let head = seq![open, name];
    let staged = optional_segment(files.index_text(), Tone::Staged);
    let bar = optional_segment(
        separator_text(files.index_text(), files.wt_text()),
        Tone::Frame,
    );
    let unstaged = optional_segment(files.wt_text(), Tone::Unstaged);
    assert(head =~= seq![open] + seq![name]);
    lemma_joined_single(open);
    lemma_joined_single(name);
    lemma_joined_single(close);
    lemma_joined_concat(seq![open], seq![name]);
    lemma_joined_optional(files.index_text(), Tone::Staged);
    lemma_joined_optional(separator_text(files.index_text(), files.wt_text()), Tone::Frame);
    lemma_joined_optional(files.wt_text(), Tone::Unstaged);
    lemma_joined_concat(head, staged);
    lemma_joined_concat(head + staged, bar);
    lemma_joined_concat(head + staged + bar, unstaged);
    lemma_joined_concat(head + staged + bar + unstaged, seq![close]);
}

/// The parts always begin with the opening bracket and the branch and end
/// with the closing bracket, all three as frame; between them stand at
/// most three parts, none of them empty.
pub proof fn lemma_line_segments_shape(branch: BranchView, files: FileCounts)
    ensures
        3 <= line_segments(branch, files).len() <= 6,
        line_segments(branch, files)[0] == (SegmentView { text: seq!['['], tone: Tone::Frame }),
        line_segments(branch, files)[1] == (SegmentView {
            text: branch_text(branch),
            tone: Tone::Frame,
        }),
        line_segments(branch, files).last() == (SegmentView {
            text: seq![']'],
            tone: Tone::Frame,
        }),
        forall|i: int|
            2 <= i < line_segments(branch, files).len() - 1 ==> (#[trigger] line_segments(
                branch,
                files,
            )[i]).text.len() > 0,
{
}

/// The separator stands in the line exactly when something is staged and
/// something is unstaged; otherwise nothing stands in its place.
pub proof fn lemma_separator(files: FileCounts)
    ensures
        separator_text(files.index_text(), files.wt_text()) == if (files.index_add > 0
            || files.index_edit > 0 || files.index_remove > 0) && (files.wt_add > 0 || files.wt_edit
            > 0 || files.wt_remove > 0) {
            seq![' ', '|']
        } else {
            Seq::<char>::empty()
        },
{
    lemma_delta_text_empty(files.index_add, files.index_edit, files.index_remove);
    lemma_delta_text_empty(files.wt_add, files.wt_edit, files.wt_remove);
}

/// The line always stands in its brackets.
pub proof fn lemma_line_in_brackets(branch: BranchView, files: FileCounts)
    ensures
        line_text(branch, files).len() >= 2,
        line_text(branch, files).first() == '[',
        line_text(branch, files).last() == ']',
{
}

/// The parts of the status line for a branch and the counts of changes.
pub fn status_segments(branch: &BranchState, files: &FileState) -> (segments: Vec<Segment>)
    ensures
        segments.deep_view() == line_segments(branch@, files@),
{
    proof {
        reveal_strlit("[");
        reveal_strlit("]");
        reveal_strlit(" |");
    }
    let index_text = files.index_as_string();
    let wt_text = files.wt_as_string();
    let has_index = !index_text.as_str().is_empty();
    let has_wt = !wt_text.as_str().is_empty();
    let mut segments: Vec<Segment> = Vec::new();
    segments.push(Segment { text: String::from_str("["), tone: Tone::Frame });
    segments.push(Segment { text: branch.as_string(), tone: Tone::Frame });
    if has_index {
        segments.push(Segment { text: index_text, tone: Tone::Staged });
        if has_wt {
            segments.push(Segment { text: String::from_str(" |"), tone: Tone::Frame });
        }
    }
    if has_wt {
        segments.push(Segment { text: wt_text, tone: Tone::Unstaged });
    }
    segments.push(Segment { text: String::from_str("]"), tone: Tone::Frame });
    proof {
        assert("["@ =~= seq!['[']);
        assert("]"@ =~= seq![']']);
        assert(" |"@ =~= seq![' ', '|']);
        assert(segments.deep_view() =~= line_segments(branch@, files@));
    }
    segments
}

/// The texts of the parts, one after the other.
pub fn join_segments(segments: &Vec<Segment>) -> (text: String)
    ensures
        text@ == joined(segments.deep_view()),
{
    let mut text = String::new();
    let mut i: usize = 0;
    while i < segments.len()
        invariant
            i <= segments.len(),
            text@ == joined(segments.deep_view().take(i as int)),
        decreases segments.len() - i,
    {
        text.append(segments[i].text.as_str());
        proof {
            let before = segments.deep_view().take(i as int);
            let after = segments.deep_view().take(i + 1);
            assert(after.drop_last() =~= before);
            assert(after.last() == segments[i as int].deep_view());
        }
        i += 1;
    }
    assert(segments.deep_view().take(i as int) =~= segments.deep_view());
    text
}

/// The status line for a branch and the counts of changes, as plain text.
pub fn status_line(branch: &BranchState, files: &FileState) -> (text: String)
    ensures
        text@ == line_text(branch@, files@),
{
    let segments = status_segments(branch, files);
    proof {
        lemma_segments_join_to_line(branch@, files@);
    }
    join_segments(&segments)
}

} // verus!
