//! One turn of the console: what a polled keyboard event does to the line
//! being typed, and what is to be written to the output for it.

use vstd::prelude::*;
use vstd::string::StringExecFns;
use crate::decoder::{DecoderState, KBInputDecoder};
use crate::event::{KeyboardEvent, VirtualKeyCode};

verus! {

/// `String::push` of the standard library: the string afterwards is the
/// string before with `ch` added at its end. Stated without proof.
pub assume_specification[ String::push ](text: &mut String, ch: char)
    ensures
        final(text)@ == old(text)@.push(ch),
;

/// The marker that follows a committed line on the output.
pub open spec fn prompt() -> Seq<char> {
    seq!['\n', '>', ' ']
}

/// What the console asks to have done after a turn.
#[derive(Debug, PartialEq, Eq)]
pub enum ConsoleAction {
    /// A character was typed: it is to be echoed at once.
    Echo(char),
    /// The line was committed: it is to be written out, followed by the
    /// prompt marker. The console has already started a new, empty line.
    Commit(String),
    /// Nothing is to be written.
    Idle,
}

impl ConsoleAction {
    /// The characters that the action puts on the output.
    pub open spec fn text(self) -> Seq<char> {
        match self {
            ConsoleAction::Echo(c) => seq![c],
            ConsoleAction::Commit(line) => line@ + prompt(),
            ConsoleAction::Idle => Seq::empty(),
        }
    }

    /// The text to write to the output for this action.
    pub fn output(&self) -> (text: String)
        ensures
            text@ == self.text(),
    {
        match self {
            ConsoleAction::Echo(c) => {
                let mut text = String::new();
                text.push(*c);
                text
            },
            ConsoleAction::Commit(line) => {
                let mut text = line.clone();
                proof {
                    reveal_strlit("\n> ");
                }
                text.append("\n> ");
                text
            },
            ConsoleAction::Idle => String::new(),
        }
    }
}

/// The console as a mathematical value: the decoder's flags and the line
/// typed so far.
pub struct ConsoleState {
    pub decoder: DecoderState,
    pub line: Seq<char>,
}

impl ConsoleState {
    /// A console at its start: a fresh decoder and an empty line.
    pub open spec fn initial() -> ConsoleState {
        ConsoleState { decoder: DecoderState::initial(), line: Seq::empty() }
    }

    /// The console after a turn on `event` in which the decoder gave
    /// `decoded`. A decoded character joins the line; without one, a commit
    /// signal empties the line and any other event leaves it alone.
    pub open spec fn after(self, event: KeyboardEvent, decoded: Option<char>) -> ConsoleState {
        ConsoleState {
            decoder: self.decoder.after(event),
            line: match decoded {
                Some(c) => self.line.push(c),
                None => if self.decoder.is_commit_signal(event) {
                    Seq::empty()
                } else {
                    self.line
                },
            },
        }
    }
}

/// The decoder together with the line that is being typed.
#[derive(Debug, PartialEq, Eq)]
pub struct Console {
    decoder: KBInputDecoder,
    line: String,
}

impl View for Console {
    type V = ConsoleState;

    closed spec fn view(&self) -> ConsoleState {
        ConsoleState { decoder: self.decoder@, line: self.line@ }
    }
}

impl Console {
    /// A console with a fresh decoder and an empty line.
    pub fn new() -> (console: Self)
        ensures
            console@ == ConsoleState::initial(),
    {
        Console { decoder: KBInputDecoder::new(), line: String::new() }
    }

    /// The line typed since the last commit.
    pub fn line(&self) -> (line: &str)
        ensures
            line@ == self@.line,
    {
        self.line.as_str()
    }

    /// The decoder as it stands.
    pub fn decoder(&self) -> (decoder: &KBInputDecoder)
        ensures
            decoder@ == self@.decoder,
    {
        &self.decoder
    }

    /// One turn of the console loop on what the event source gave. With no
    /// event the console is unchanged and idle. An event is decoded first: a
    /// character that it yields is added to the line and echoed. Failing
    /// that, a commit signal hands the line out and starts an empty one.
    /// Any other event only passes through the decoder.
    pub fn turn<F>(&mut self, polled: Option<KeyboardEvent>, table: F) -> (action: ConsoleAction)
        where F: Fn(VirtualKeyCode, bool, bool, bool, bool) -> char
        requires
            polled matches Some(event) ==> (old(self)@.decoder.lookup(event) matches Some(query)
                ==> table.requires(query)),
        ensures
            match polled {
                None => final(self)@ == old(self)@ && action is Idle,
                Some(event) => match old(self)@.decoder.lookup(event) {
                    Some(query) => {
                        &&& action matches ConsoleAction::Echo(c)
                        &&& table.ensures(query, c)
                        &&& final(self)@ == old(self)@.after(event, Some(c))
                    },
                    None => {
                        &&& final(self)@ == old(self)@.after(event, None)
                        &&& if old(self)@.decoder.is_commit_signal(event) {
                            action matches ConsoleAction::Commit(line) && line@ == old(self)@.line
                        } else {
                            action is Idle
                        }
                    },
                },
            },
    {
        match polled {
            None => ConsoleAction::Idle,
            Some(event) => {
                if let Some(c) = self.decoder.parse_char(&event, table) {
                    self.line.push(c);
                    ConsoleAction::Echo(c)
                } else if self.decoder.ret(&event) {
                    let mut line = String::new();
                    core::mem::swap(&mut self.line, &mut line);
                    ConsoleAction::Commit(line)
                } else {
                    ConsoleAction::Idle
                }
            },
        }
    }
}

} // verus!
