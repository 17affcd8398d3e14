//! The embedded shell's observable events and the input and echo handling
//! around it. The shell process itself, its pipes and threads belong to the
//! caller; its output buffer is a `RollingBuffer` with the marks below.

use vstd::prelude::*;

use crate::strutil::{concat2, trim, trim_spec};

verus! {

/// Lines the shell's output buffer keeps at most.
pub const TERMINAL_HIGH_WATER: usize = 2000;

/// Lines one trimming batch leaves in the shell's output buffer.
pub const TERMINAL_LOW_WATER: usize = 1500;

/// One observable occurrence of the embedded shell.
#[derive(Debug)]
pub enum TerminalEvent {
    Output(String),
    Error(String),
    Exited(i32),
}

/// The mathematical image of a `TerminalEvent`.
pub enum TerminalEventView {
    Output(Seq<char>),
    Error(Seq<char>),
    Exited(i32),
}

impl View for TerminalEvent {
    type V = TerminalEventView;

    open spec fn view(&self) -> TerminalEventView {
        match self {
            TerminalEvent::Output(s) => TerminalEventView::Output(s@),
            TerminalEvent::Error(s) => TerminalEventView::Error(s@),
            TerminalEvent::Exited(c) => TerminalEventView::Exited(*c),
        }
    }
}

impl Clone for TerminalEvent {
    fn clone(&self) -> (r: Self)
        ensures
            r@ == self@,
    {
        match self {
            TerminalEvent::Output(s) => TerminalEvent::Output(s.clone()),
            TerminalEvent::Error(s) => TerminalEvent::Error(s.clone()),
            TerminalEvent::Exited(c) => TerminalEvent::Exited(*c),
        }
    }
}

/// What is handed to the shell: the input with exactly one trailing newline.
pub open spec fn input_with_newline_spec(input: Seq<char>) -> Seq<char> {
    if input.len() > 0 && input.last() == '\n' {
        input
    } else {
        input + "\n"@
    }
}

/// Appends a newline to the input unless it already ends in one.
pub fn input_with_newline(input: &str) -> (r: String)
    ensures
        r@ == input_with_newline_spec(input@),
{
    let n = input.unicode_len();
    if n > 0 && input.get_char(n - 1) == '\n' {
        input.to_owned()
    } else {
        concat2(input, "\n")
    }
}

/// What the output pane echoes for one input: a prompt and the trimmed
/// input.
pub open spec fn echo_line_spec(input: Seq<char>) -> Seq<char> {
    "$ "@ + trim_spec(input)
}

/// Renders the echo of one input line.
pub fn echo_line(input: &str) -> (r: String)
    ensures
        r@ == echo_line_spec(input@),
{
    let trimmed = trim(input);
    concat2("$ ", trimmed.as_str())
}

} // verus!
