//! The one error of this library: a message, with the failed operation in
//! front of its cause where the cause came from the repository.

use vstd::prelude::*;
use vstd::string::*;

verus! {

/// A failure that ends the run, as the text to show for it.
#[derive(Debug)]
pub struct PromptError {
    pub message: String,
}

impl View for PromptError {
    type V = Seq<char>;

    open spec fn view(&self) -> Seq<char> {
        self.message@
    }
}

/// What stands between the failed operation and its cause.
pub open spec fn cause_mark() -> Seq<char> {
    seq!['.', ' ', 'E', 'r', 'r', 'o', 'r', ':', ' ']
}

/// The message of a failure with its context: the context, `. Error: `,
/// and the cause.
pub open spec fn context_text(context: Seq<char>, cause: Seq<char>) -> Seq<char> {
    context + cause_mark() + cause
}

/// Whether `text` begins with `prefix`.
pub open spec fn starts_with(text: Seq<char>, prefix: Seq<char>) -> bool {
    prefix.len() <= text.len() && text.subrange(0, prefix.len() as int) == prefix
}

/// Whether `message` names `context` as the operation that failed: it
/// begins with the context and `. Error: `, and the cause follows.
pub open spec fn has_context(message: Seq<char>, context: Seq<char>) -> bool {
    starts_with(message, context + cause_mark())
}

/// A message with its context begins with the context and the mark, and
/// the cause is what follows them.
pub proof fn lemma_context_text_parts(context: Seq<char>, cause: Seq<char>)
    ensures
        has_context(context_text(context, cause), context),
        context_text(context, cause).len() == context.len() + 9 + cause.len(),
        context_text(context, cause).subrange(
            (context.len() + 9) as int,
            context_text(context, cause).len() as int,
        ) == cause,
{
    let text = context_text(context, cause);
    assert(text.subrange(0, (context + cause_mark()).len() as int) =~= context + cause_mark());
    assert(text.subrange((context.len() + 9) as int, text.len() as int) =~= cause);
}

impl PromptError {
    /// The failure with `message` as its whole text.
    pub fn from_str(message: &str) -> (error: PromptError)
        ensures
            error@ == message@,
    {
        PromptError { message: String::from_str(message) }
    }

    /// The failure of the operation `context`, caused by `cause`.
    pub fn with_context(context: &str, cause: &str) -> (error: PromptError)
        ensures
            error@ == context_text(context@, cause@),
    {
        proof {
            reveal_strlit(". Error: ");
        }
        let mut message = String::from_str(context);
        message.append(". Error: ");
        message.append(cause);
        assert(". Error: "@ =~= cause_mark());
        assert(message@ =~= context_text(context@, cause@));
        PromptError { message }
    }

    /// The text to show for this failure.
    pub fn message(&self) -> (text: &str)
        ensures
            text@ == self@,
    {
        self.message.as_str()
    }
}

} // verus!
