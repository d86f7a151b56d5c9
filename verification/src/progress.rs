//! Printing the messages of the commands that move and rename files. The
//! worker sends "." for each file it handles, which is printed as one more
//! dot of a progress bar on the same line.

use vstd::prelude::*;

verus! {

/// What to print for one received message.
#[derive(Debug)]
pub enum ProgressAction {
    /// Print a dot of the progress bar, without a line break.
    PrintDot,
    /// End the line of the progress bar (the message itself is not printed,
    /// as the tool has it: the first message after the dots only ends
    /// their line).
    EndLine,
    /// Print the message on a line of its own.
    PrintLine(String),
}

impl View for ProgressAction {
    type V = Option<Option<Seq<char>>>;

    /// `None` for a dot, `Some(None)` for the end of a line, and
    /// `Some(Some(m))` for a printed line `m`.
    open spec fn view(&self) -> Option<Option<Seq<char>>> {
        match self {
            ProgressAction::PrintDot => None,
            ProgressAction::EndLine => Some(None),
            ProgressAction::PrintLine(m) => Some(Some(m@)),
        }
    }
}

/// The message that marks one step of the progress bar.
pub open spec fn is_progress_dot(message: Seq<char>) -> bool {
    message == seq!['.']
}

/// The next state (whether the last thing printed was a dot of the
/// progress bar) and the action for one message: a dot is printed inline
/// and sets the state; the first other message after dots only ends their
/// line and clears the state; any other message is printed on its own line.
pub open spec fn spec_on_message(is_last_progress_bar: bool, message: Seq<char>) -> (
    bool,
    Option<Option<Seq<char>>>,
) {
    if is_progress_dot(message) {
        (true, None)
    } else if is_last_progress_bar {
        (false, Some(None))
    } else {
        (false, Some(Some(message)))
    }
}

/// Decides what to print for one received message, and the new state.
pub fn on_message(is_last_progress_bar: bool, message: String) -> (r: (bool, ProgressAction))
    ensures
        (r.0, r.1@) == spec_on_message(is_last_progress_bar, message@),
{
    let s = message.as_str();
    let is_dot = s.unicode_len() == 1 && s.get_char(0) == '.';
    assert(is_dot == is_progress_dot(message@)) by {
        if message@.len() == 1 && message@[0] == '.' {
            assert(message@ =~= seq!['.']);
        }
    }
    if is_dot {
        (true, ProgressAction::PrintDot)
    } else if is_last_progress_bar {
        (false, ProgressAction::EndLine)
    } else {
        (false, ProgressAction::PrintLine(message))
    }
}

/// A dot always leaves the state set; any other message clears it, so at
/// most one message after a run of dots goes unprinted, and a message is
/// printed on its own line whenever the message before it was not a dot.
pub proof fn lemma_progress_bar_line_ends_once(is_last_progress_bar: bool, message: Seq<char>)
    ensures
        spec_on_message(is_last_progress_bar, message).0 <==> is_progress_dot(message),
        !is_last_progress_bar && !is_progress_dot(message) ==> spec_on_message(
            is_last_progress_bar,
            message,
        ).1 == Some(Some(message)),
{
}

} // verus!
