//! The words that the main menu understands.

use crate::text::{is_word, trim, trimmed};
use vstd::prelude::*;

verus! {

/// What a line typed at the main menu asks for.
#[derive(Debug, Clone, Copy, PartialEq, Eq, Structural)]
pub enum Command {
    /// `feed`: give the pet a meal.
    Feed,
    /// `game` or `play`: start the guessing game.
    Game,
    /// `tools`: open the tools.
    Tools,
    /// `status`: show how the pet is doing.
    Status,
    /// `quit` or `q`: end the session.
    Quit,
    /// Any other line.
    Unknown,
}

/// The command that `line` spells. The line is trimmed and must then be one
/// of the menu's words, whole and in lower case.
pub open spec fn command_of(line: Seq<char>) -> Command {
    let word = trimmed(line);
    if word == "feed"@ {
        Command::Feed
    } else if word == "game"@ || word == "play"@ {
        Command::Game
    } else if word == "tools"@ {
        Command::Tools
    } else if word == "status"@ {
        Command::Status
    } else if word == "quit"@ || word == "q"@ {
        Command::Quit
    } else {
        Command::Unknown
    }
}

/// Reads a line typed at the main menu.
pub fn parse_command(line: &str) -> (command: Command)
    ensures
        command == command_of(line@),
{
    let word = trim(line);
    if is_word(&word, "feed") {
        Command::Feed
    } else if is_word(&word, "game") || is_word(&word, "play") {
        Command::Game
    } else if is_word(&word, "tools") {
        Command::Tools
    } else if is_word(&word, "status") {
        Command::Status
    } else if is_word(&word, "quit") || is_word(&word, "q") {
        Command::Quit
    } else {
        Command::Unknown
    }
}

/// Whether `line`, once trimmed, is exactly `word`.
pub fn line_is(line: &str, word: &str) -> (same: bool)
    ensures
        same == (trimmed(line@) == word@),
{
    let text = trim(line);
    is_word(&text, word)
}

} // verus!
