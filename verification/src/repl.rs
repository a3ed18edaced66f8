//! The decisions of a read-eval-print loop over the scanner. Reading
//! lines and printing tokens is left to the caller; what to do with each
//! line read is decided here.

use crate::grammar::tokens;
use crate::lexer::tokenize;
use crate::text::same_text;
use crate::token::Token;
use vstd::prelude::*;

verus! {

/// What the loop does after one attempt to read a line.
#[derive(Debug)]
pub enum Step {
    /// End the session.
    Stop,
    /// Print these tokens, one after the other, and read on.
    Print(Vec<Token>),
}

/// The text of a line that holds a line feed and nothing else.
pub open spec fn blank_line() -> Seq<char> {
    seq!['\n']
}

/// Decides the step after a read. `line` is the line as it was read, with
/// its line ending, or `None` where reading failed. The session ends on a
/// failed read and on a line that is only a line feed; any other line is
/// scanned from its start, and its tokens are to be printed.
pub fn step(line: Option<&str>) -> (next: Step)
    ensures
        match next {
            Step::Stop => line is None || line->0@ == blank_line(),
            Step::Print(found) => {
                &&& line is Some
                &&& line->0@ != blank_line()
                &&& found.deep_view() == tokens(line->0@)
            },
        },
{
    match line {
        None => Step::Stop,
        Some(text) => {
            proof {
                reveal_strlit("\n");
                assert("\n"@ == blank_line());
            }
            if same_text(text, "\n") {
                Step::Stop
            } else {
                Step::Print(tokenize(text))
            }
        },
    }
}

} // verus!
