//! The interactive mode: what is done with each line that the operator
//! types between two runs of the conversation.
use crate::text::{to_chars, trim, trimmed};
use vstd::prelude::*;
use vstd::string::*;

verus! {

/// What is done with a line of input.
#[derive(Debug)]
pub enum ReplStep {
    /// The line is empty: ask for another.
    Again,
    /// The line is a request: put it to the model.
    Submit(String),
    /// The interactive mode ends. `announce` says whether the operator is
    /// told so.
    Exit { announce: bool },
}

/// A [`ReplStep`] with its text as a sequence of characters.
pub enum ReplStepView {
    Again,
    Submit(Seq<char>),
    Exit { announce: bool },
}

impl View for ReplStep {
    type V = ReplStepView;

    open spec fn view(&self) -> ReplStepView {
        match self {
            ReplStep::Again => ReplStepView::Again,
            ReplStep::Submit(text) => ReplStepView::Submit(text@),
            ReplStep::Exit { announce } => ReplStepView::Exit { announce: *announce },
        }
    }
}

/// The small letter for a capital letter of the Latin alphabet; any other
/// character as it is.
pub open spec fn small(c: char) -> char {
    if 'A' <= c <= 'Z' {
        ((c as u8) + 32) as char
    } else {
        c
    }
}

/// Whether `text` is `word`, whatever the case of its Latin letters.
pub open spec fn spells(text: Seq<char>, word: Seq<char>) -> bool {
    text.len() == word.len() && forall|i: int| 0 <= i < text.len() ==> small(text[i]) == word[i]
}

/// Whether `text` asks to leave: it is `quit` or `exit`, in any case.
pub open spec fn asks_to_leave(text: Seq<char>) -> bool {
    spells(text, "quit"@) || spells(text, "exit"@)
}

/// What is done with what the operator typed. `interrupted` says whether the
/// operator has asked to stop since the last line; `input` is the line, or
/// `None` where the prompt was abandoned.
///
/// A request to stop that came before the prompt ends the mode without
/// prompting. An abandoned prompt ends the mode; the operator is told only
/// if a request to stop came with it. White space around a line does not
/// count. An empty line is passed over, `quit` and `exit` end the mode, and
/// anything else is a request.
pub open spec fn interpreted(interrupted: bool, input: Option<Seq<char>>) -> ReplStepView {
    match input {
        None => ReplStepView::Exit { announce: interrupted },
        Some(line) => {
            let text = trimmed(line);
            if text.len() == 0 {
                ReplStepView::Again
            } else if asks_to_leave(text) {
                ReplStepView::Exit { announce: true }
            } else {
                ReplStepView::Submit(text)
            }
        },
    }
}

fn to_small(c: char) -> (s: char)
    ensures
        s == small(c),
{
    if 'A' <= c && c <= 'Z' {
        ((c as u8) + 32) as char
    } else {
        c
    }
}

fn spells_word(text: &Vec<char>, word: &str) -> (same: bool)
    ensures
        same == spells(text@, word@),
{
    let letters = to_chars(word);
    if text.len() != letters.len() {
        return false;
    }
    let mut i: usize = 0;
    while i < text.len()
        invariant
            i <= text.len(),
            text.len() == letters.len(),
            letters@ == word@,
            forall|k: int| 0 <= k < i ==> small(text@[k]) == letters@[k],
        decreases text.len() - i,
    {
        if to_small(text[i]) != letters[i] {
            return false;
        }
        i += 1;
    }
    true
}

/// Decides what is done with what the operator typed.
pub fn interpret(interrupted: bool, input: Option<&str>) -> (step: ReplStep)
    ensures
        step@ == interpreted(
            interrupted,
            match input {
                Some(line) => Some(line@),
                None => None,
            },
        ),
{
    match input {
        None => ReplStep::Exit { announce: interrupted },
        Some(line) => {
            let text = trim(line);
            let letters = to_chars(text.as_str());
            if letters.len() == 0 {
                ReplStep::Again
            } else if spells_word(&letters, "quit") || spells_word(&letters, "exit") {
                ReplStep::Exit { announce: true }
            } else {
                ReplStep::Submit(text)
            }
        },
    }
}

} // verus!
