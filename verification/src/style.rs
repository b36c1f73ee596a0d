//! The line as a terminal shows it: every part in bold, in the colour of
//! its tone.

use vstd::prelude::*;
use vstd::string::*;
use colored::Colorize;
use crate::error::starts_with;
use crate::status_line::{joined, Segment, SegmentView, Tone};

verus! {

/// The colours that the line uses.
#[derive(Clone, Copy, Debug, PartialEq, Eq, Structural)]
pub enum Colour {
    Cyan,
    Green,
    Red,
}

/// The colour of a tone: cyan for the frame, green for what is staged, red
/// for what is not.
pub open spec fn tone_colour(tone: Tone) -> Colour {
    match tone {
        Tone::Frame => Colour::Cyan,
        Tone::Staged => Colour::Green,
        Tone::Unstaged => Colour::Red,
    }
}

/// The colour of a tone.
pub fn colour_of(tone: Tone) -> (colour: Colour)
    ensures
        colour == tone_colour(tone),
{
    match tone {
        Tone::Frame => Colour::Cyan,
        Tone::Staged => Colour::Green,
        Tone::Unstaged => Colour::Red,
    }
}

/// The character that begins a terminal code.
pub open spec fn escape() -> char {
    '\u{1b}'
}

/// The code that ends all styling: the escape character and `[0m`.
pub open spec fn reset_code() -> Seq<char> {
    seq![escape(), '[', '0', 'm']
}

/// The number of a colour as the colour of text.
pub open spec fn colour_code(colour: Colour) -> Seq<char> {
    match colour {
        Colour::Cyan => seq!['3', '6'],
        Colour::Green => seq!['3', '2'],
        Colour::Red => seq!['3', '1'],
    }
}

/// The code that begins bold text in a colour: the escape character, `[1;`,
/// the colour's number and `m`.
pub open spec fn bold_code(colour: Colour) -> Seq<char> {
    seq![escape(), '[', '1', ';'] + colour_code(colour) + seq!['m']
}

/// Whether `text` ends with `suffix`.
pub open spec fn ends_with(text: Seq<char>, suffix: Seq<char>) -> bool {
    suffix.len() <= text.len() && text.subrange(text.len() - suffix.len(), text.len() as int)
        == suffix
}

/// Whether `shown` is `text` in bold and in `colour`, as one terminal or
/// another gets it. Where colours are off, it is the text as it stands.
/// Where they are on, it begins with the code for bold in the colour, ends
/// with the reset code, and holds the text between them; a text without
/// escape character stands there unchanged.
pub open spec fn is_styling_of(shown: Seq<char>, text: Seq<char>, colour: Colour) -> bool {
    ||| shown == text
    ||| {
        &&& starts_with(shown, bold_code(colour))
        &&& ends_with(shown, reset_code())
        &&& shown.len() >= bold_code(colour).len() + text.len() + reset_code().len()
        &&& !text.contains(escape()) ==> shown == bold_code(colour) + text + reset_code()
    }
}

/// Whether `line` is the parts of `segments` one after the other, each in
/// bold and in the colour of its tone as one terminal or another gets it.
pub open spec fn is_styled_line(line: Seq<char>, segments: Seq<SegmentView>) -> bool
    decreases segments.len(),
{
    if segments.len() == 0 {
        line.len() == 0
    } else {
        exists|cut: int|
            {
                &&& 0 <= cut <= line.len()
                &&& is_styled_line(#[trigger] line.take(cut), segments.drop_last())
                &&& is_styling_of(
                    line.skip(cut),
                    segments.last().text,
                    tone_colour(segments.last().tone),
                )
            }
    }
}

/// A styled line grows by one part when the styling of that part is put
/// behind it.
pub proof fn lemma_styled_line_push(
    line: Seq<char>,
    segments: Seq<SegmentView>,
    shown: Seq<char>,
    segment: SegmentView,
)
    requires
        is_styled_line(line, segments),
        is_styling_of(shown, segment.text, tone_colour(segment.tone)),
    ensures
        is_styled_line(line + shown, segments.push(segment)),
{
    let longer = line + shown;
    let cut = line.len() as int;
    assert(longer.take(cut) =~= line);
    assert(longer.skip(cut) =~= shown);
    assert(segments.push(segment).drop_last() =~= segments);
    assert(segments.push(segment).last() == segment);
}

/// Where colours are off, the styled line is the plain one: the texts of
/// the parts, joined, are a styling of them.
pub proof fn lemma_plain_line_is_styled(segments: Seq<SegmentView>)
    ensures
        is_styled_line(joined(segments), segments),
    decreases segments.len(),
{
    if segments.len() > 0 {
        lemma_plain_line_is_styled(segments.drop_last());
        lemma_styled_line_push(
            joined(segments.drop_last()),
            segments.drop_last(),
            segments.last().text,
            segments.last(),
        );
        assert(segments.drop_last().push(segments.last()) =~= segments);
    }
}

/// A styled line is no shorter than the plain one.
pub proof fn lemma_styled_line_len(line: Seq<char>, segments: Seq<SegmentView>)
    requires
        is_styled_line(line, segments),
    ensures
        line.len() >= joined(segments).len(),
    decreases segments.len(),
{
    if segments.len() > 0 {
        let cut = choose|cut: int|
            {
                &&& 0 <= cut <= line.len()
                &&& is_styled_line(#[trigger] line.take(cut), segments.drop_last())
                &&& is_styling_of(
                    line.skip(cut),
                    segments.last().text,
                    tone_colour(segments.last().tone),
                )
            };
        lemma_styled_line_len(line.take(cut), segments.drop_last());
    }
}

/// Calls colored's `Colorize::color` and `Colorize::bold` on `text` and
/// formats the `ColoredString` they give. Whether colours are on depends on
/// the terminal and on the environment, so the contract claims only what
/// holds either way: the text comes back as it is, or between the code for
/// bold in the colour and the reset code, where colored repeats the code
/// behind every reset code that the text itself holds.
#[verifier::external_body]
pub(crate) fn bold_string(text: &str, colour: Colour) -> (shown: String)
    ensures
        is_styling_of(shown@, text@, colour),
{
    let colour = match colour {
        Colour::Cyan => colored::Color::Cyan,
        Colour::Green => colored::Color::Green,
        Colour::Red => colored::Color::Red,
    };
    format!("{}", text.color(colour).bold())
}

/// The line for a terminal: the parts one after the other, each in bold
/// and in the colour of its tone. Whether the codes for that are written
/// is up to the terminal and the environment.
pub fn styled_line(segments: &Vec<Segment>) -> (text: String)
    ensures
        is_styled_line(text@, segments.deep_view()),
{
    let mut text = String::new();
    let mut i: usize = 0;
    while i < segments.len()
        invariant
            i <= segments.len(),
            is_styled_line(text@, segments.deep_view().take(i as int)),
        decreases segments.len() - i,
    {
        let part = bold_string(segments[i].text.as_str(), colour_of(segments[i].tone));
        proof {
            let done = segments.deep_view().take(i as int);
            let segment = segments[i as int].deep_view();
            lemma_styled_line_push(text@, done, part@, segment);
            assert(done.push(segment) =~= segments.deep_view().take(i + 1));
        }
        text.append(part.as_str());
        i += 1;
    }
    assert(segments.deep_view().take(i as int) =~= segments.deep_view());
    text
}

} // verus!
