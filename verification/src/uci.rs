use vstd::prelude::*;
use vstd::string::*;
use crate::text::{chars_of, split_words, views_of, word_is, words};

verus! {

/// A command of the UCI protocol that Ladybug understands.
pub enum UciCommand {
    /// `uci`
    Uci,
    /// `isready`
    IsReady,
    /// `position` with the words that follow it
    Position(Vec<Vec<char>>),
    /// `go perft` with the depth word
    GoPerft(Vec<char>),
    /// `quit`
    Quit,
    /// `help`
    Help,
    /// `display`
    Display,
}

/// The model of a UCI command: words as character sequences.
pub enum UciCommandView {
    Uci,
    IsReady,
    Position(Seq<Seq<char>>),
    GoPerft(Seq<char>),
    Quit,
    Help,
    Display,
}

impl View for UciCommand {
    type V = UciCommandView;

    open spec fn view(&self) -> UciCommandView {
        match self {
            UciCommand::Uci => UciCommandView::Uci,
            UciCommand::IsReady => UciCommandView::IsReady,
            UciCommand::Position(args) => UciCommandView::Position(views_of(args@)),
            UciCommand::GoPerft(d) => UciCommandView::GoPerft(d@),
            UciCommand::Quit => UciCommandView::Quit,
            UciCommand::Help => UciCommandView::Help,
            UciCommand::Display => UciCommandView::Display,
        }
    }
}

/// The command the words of an input line name, by its first word: `uci`, `isready`,
/// `position` (with all following words), `go perft <depth>` (exactly three words),
/// `quit`, `help` or `display`.
pub open spec fn command_of_words(w: Seq<Seq<char>>) -> Option<UciCommandView> {
    if w.len() == 0 {
        None
    } else if w[0] == "uci"@ {
        Some(UciCommandView::Uci)
    } else if w[0] == "isready"@ {
        Some(UciCommandView::IsReady)
    } else if w[0] == "position"@ {
        Some(UciCommandView::Position(w.skip(1)))
    } else if w[0] == "go"@ {
        if w.len() == 3 && w[1] == "perft"@ {
            Some(UciCommandView::GoPerft(w[2]))
        } else {
            None
        }
    } else if w[0] == "quit"@ {
        Some(UciCommandView::Quit)
    } else if w[0] == "help"@ {
        Some(UciCommandView::Help)
    } else if w[0] == "display"@ {
        Some(UciCommandView::Display)
    } else {
        None
    }
}

/// The message for input that names no command.
pub open spec fn unknown_command_text() -> Seq<char> {
    "info string unknown command"@
}

/// The message for input that names no command.
pub fn unknown_command() -> (s: String)
    ensures
        s@ == unknown_command_text(),
{
    String::from_str("info string unknown command")
}

fn rest_words(w: Vec<Vec<char>>) -> (rest: Vec<Vec<char>>)
    requires
        w.len() > 0,
    ensures
        views_of(rest@) == views_of(w@).skip(1),
{
    let mut rest = w;
    let _first = rest.remove(0);
    assert(views_of(rest@) =~= views_of(w@).skip(1));
    rest
}

/// Parses a line of input into a UCI command; input that names no command is answered
/// with the message `info string unknown command`.
pub fn parse_uci(input: &str) -> (command: Result<UciCommand, String>)
    ensures
        match command {
            Ok(c) => command_of_words(words(input@)) == Some(c@),
            Err(m) => command_of_words(words(input@)) is None && m@ == unknown_command_text(),
        },
{
    let chars = chars_of(input);
    let w = split_words(&chars);
    let ghost ws = words(input@);
    assert(views_of(w@) == ws);
    if w.len() == 0 {
        return Err(unknown_command());
    }
    assert(w[0]@ == ws[0]);
    if word_is(&w[0], "uci") {
        Ok(UciCommand::Uci)
    } else if word_is(&w[0], "isready") {
        Ok(UciCommand::IsReady)
    } else if word_is(&w[0], "position") {
        Ok(UciCommand::Position(rest_words(w)))
    } else if word_is(&w[0], "go") {
        if w.len() == 3 && word_is(&w[1], "perft") {
            assert(w[1]@ == ws[1] && w[2]@ == ws[2]);
            let mut w = w;
            let depth = w.remove(2);
            Ok(UciCommand::GoPerft(depth))
        } else {
            assert(w.len() == 3 ==> w[1]@ == ws[1]);
            Err(unknown_command())
        }
    } else if word_is(&w[0], "quit") {
        Ok(UciCommand::Quit)
    } else if word_is(&w[0], "help") {
        Ok(UciCommand::Help)
    } else if word_is(&w[0], "display") {
        Ok(UciCommand::Display)
    } else {
        Err(unknown_command())
    }
}

} // verus!
