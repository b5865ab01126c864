//! The number-guessing game: a secret number, a count of the guesses made,
//! and an answer to each guess.

use crate::random::{draw_secret, CONGRATULATIONS, SECRET_MAX, SECRET_MIN};
use crate::text::{parse_guess, parsed_u32, trimmed};
use vstd::prelude::*;

verus! {

/// How a guess stands to the secret number.
#[derive(Debug, Clone, Copy, PartialEq, Eq, Structural)]
pub enum Hint {
    /// The guess is below the secret number.
    TooSmall,
    /// The guess is above the secret number.
    TooBig,
    /// The guess is the secret number.
    Correct,
}

/// What the pet says to the winner.
#[derive(Debug, Clone, Copy, PartialEq, Eq, Structural)]
pub enum WinMessage {
    /// The first guess was right.
    GotItInOne,
    /// The secret number was thirteen.
    Spooky,
    /// One of the ordinary congratulations, by its place among them.
    Congratulations(u32),
}

/// The answer to one line typed during a game.
#[derive(Debug, Clone, Copy, PartialEq, Eq, Structural)]
pub enum GuessOutcome {
    /// The line spells no number. It does not count as a guess and is
    /// passed over in silence.
    Ignored,
    /// The number guessed is too small.
    TooSmall(u32),
    /// The number guessed is too big.
    TooBig(u32),
    /// The number guessed is the secret number: the game is over.
    Won(u32, WinMessage),
}

/// A game in progress.
#[derive(Debug, Clone, Copy, PartialEq, Eq, Structural)]
pub struct GuessingGame {
    /// The number to be found.
    pub secret: u32,
    /// How many numbers have been guessed so far.
    pub guesses: u32,
}

/// How `guess` stands to `secret`.
pub open spec fn hint_of(secret: int, guess: int) -> Hint {
    if guess < secret {
        Hint::TooSmall
    } else if guess > secret {
        Hint::TooBig
    } else {
        Hint::Correct
    }
}

/// The message for a win with the `num_guesses`-th guess. A win at the first
/// guess comes before a secret of thirteen, and both come before the
/// ordinary congratulations, of which `pick` chooses one.
pub open spec fn win_message(num_guesses: int, secret_number: int, pick: u32) -> WinMessage {
    if num_guesses == 1 {
        WinMessage::GotItInOne
    } else if secret_number == 13 {
        WinMessage::Spooky
    } else {
        WinMessage::Congratulations(pick)
    }
}

/// The text of the ordinary congratulation at place `pick`.
pub open spec fn congratulation_text(pick: u32) -> Seq<char> {
    if pick == 0 {
        "Meow, yes! You got it!"@
    } else if pick == 1 {
        "Yep! Mrrrrow you got it!"@
    } else if pick == 2 {
        "Not bad, meow, That was it!"@
    } else if pick == 3 {
        "Ding ding ding! Winner winner chicken dinner! Also... I'd like a chicken dinner"@
    } else {
        "That's it! Mee-WOW, we've got a winner over here!"@
    }
}

impl WinMessage {
    /// Whether the message is one that there is a text for.
    pub open spec fn valid(self) -> bool {
        self matches WinMessage::Congratulations(pick) ==> pick < CONGRATULATIONS
    }

    /// The words of the message.
    pub open spec fn spec_text(self) -> Seq<char> {
        match self {
            WinMessage::GotItInOne => "Mee-WOWOWOWOW! YOU GOT IT IN ONE GUESS!!! Are you psychic? We're really in sync."@,
            WinMessage::Spooky => "SpooOoOoOoky! The secret number was 13. Don't worry buddy, it's not bad luck. Good guess!"@,
            WinMessage::Congratulations(pick) => congratulation_text(pick),
        }
    }

    /// The words of the message.
    pub fn text(&self) -> (words: &'static str)
        requires
            self.valid(),
        ensures
            words@ == self.spec_text(),
    {
        match self {
            WinMessage::GotItInOne => "Mee-WOWOWOWOW! YOU GOT IT IN ONE GUESS!!! Are you psychic? We're really in sync.",
            WinMessage::Spooky => "SpooOoOoOoky! The secret number was 13. Don't worry buddy, it's not bad luck. Good guess!",
            WinMessage::Congratulations(pick) => congratulation(*pick),
        }
    }
}

/// The ordinary congratulation at place `pick`.
pub fn congratulation(pick: u32) -> (words: &'static str)
    requires
        pick < CONGRATULATIONS,
    ensures
        words@ == congratulation_text(pick),
{
    if pick == 0 {
        "Meow, yes! You got it!"
    } else if pick == 1 {
        "Yep! Mrrrrow you got it!"
    } else if pick == 2 {
        "Not bad, meow, That was it!"
    } else if pick == 3 {
        "Ding ding ding! Winner winner chicken dinner! Also... I'd like a chicken dinner"
    } else {
        "That's it! Mee-WOW, we've got a winner over here!"
    }
}

/// Chooses the message for a win with the `num_guesses`-th guess.
pub fn win_guessing_game(num_guesses: u32, secret_number: u32, pick: u32) -> (message: WinMessage)
    ensures
        message == win_message(num_guesses as int, secret_number as int, pick),
        pick < CONGRATULATIONS ==> message.valid(),
{
    if num_guesses == 1 {
        WinMessage::GotItInOne
    } else if secret_number == 13 {
        WinMessage::Spooky
    } else {
        WinMessage::Congratulations(pick)
    }
}

impl GuessingGame {
    /// Whether the secret number is one that a game can have.
    pub open spec fn wf(self) -> bool {
        SECRET_MIN <= self.secret <= SECRET_MAX
    }

    /// Whether the count of guesses can go up by one.
    pub open spec fn can_count(self) -> bool {
        self.guesses < u32::MAX
    }

    /// The answer to the number `number`, `pick` choosing the congratulation
    /// in case one is due.
    pub open spec fn answer(self, number: u32, pick: u32) -> GuessOutcome {
        match hint_of(self.secret as int, number as int) {
            Hint::TooSmall => GuessOutcome::TooSmall(number),
            Hint::TooBig => GuessOutcome::TooBig(number),
            Hint::Correct => GuessOutcome::Won(
                number,
                win_message(self.guesses + 1, self.secret as int, pick),
            ),
        }
    }

    /// The game with one more guess counted.
    pub open spec fn counted(self) -> GuessingGame
        recommends
            self.can_count(),
    {
        GuessingGame { secret: self.secret, guesses: (self.guesses + 1) as u32 }
    }

    /// The answer to the line `line`: that to the number it spells once
    /// trimmed, and none where it spells no number.
    pub open spec fn outcome(self, line: Seq<char>, pick: u32) -> GuessOutcome {
        match parsed_u32(trimmed(line)) {
            Some(number) => self.answer(number, pick),
            None => GuessOutcome::Ignored,
        }
    }

    /// The game after the line `line`: only a number counts as a guess.
    pub open spec fn after(self, line: Seq<char>) -> GuessingGame {
        if parsed_u32(trimmed(line)) is Some {
            self.counted()
        } else {
            self
        }
    }

    /// Whether the line `line` can be taken: a number needs room in the
    /// count of guesses.
    pub open spec fn takes(self, line: Seq<char>) -> bool {
        parsed_u32(trimmed(line)) is Some ==> self.can_count()
    }

    /// A game with the given secret number and no guess made, if the number
    /// lies between 1 and 100.
    pub fn new(secret: u32) -> (game: Option<GuessingGame>)
        ensures
            game == if SECRET_MIN <= secret <= SECRET_MAX {
                Some(GuessingGame { secret, guesses: 0 })
            } else {
                None
            },
    {
        if SECRET_MIN <= secret && secret <= SECRET_MAX {
            Some(GuessingGame { secret, guesses: 0 })
        } else {
            None
        }
    }

    /// A game with a secret number drawn at random and no guess made.
    pub fn start() -> (game: GuessingGame)
        ensures
            game.wf(),
            game.guesses == 0,
    {
        GuessingGame { secret: draw_secret(), guesses: 0 }
    }

    /// Whether the line `line` can be taken.
    pub fn can_take(&self, line: &str) -> (ok: bool)
        ensures
            ok == self.takes(line@),
    {
        match parse_guess(line) {
            Some(_) => self.guesses < u32::MAX,
            None => true,
        }
    }

    /// How `number` stands to the secret number.
    pub fn hint(&self, number: u32) -> (hint: Hint)
        ensures
            hint == hint_of(self.secret as int, number as int),
    {
        if number < self.secret {
            Hint::TooSmall
        } else if number > self.secret {
            Hint::TooBig
        } else {
            Hint::Correct
        }
    }

    /// Counts the guess `number` and answers it.
    pub fn guess_number(&mut self, number: u32, pick: u32) -> (outcome: GuessOutcome)
        requires
            old(self).can_count(),
        ensures
            outcome == old(self).answer(number, pick),
            *final(self) == old(self).counted(),
    {
        self.guesses = self.guesses + 1;
        match self.hint(number) {
            Hint::TooSmall => GuessOutcome::TooSmall(number),
            Hint::TooBig => GuessOutcome::TooBig(number),
            Hint::Correct => GuessOutcome::Won(
                number,
                win_guessing_game(self.guesses, self.secret, pick),
            ),
        }
    }

    /// Answers one line typed during the game. A line that spells no number
    /// changes nothing and is not counted.
    pub fn guess(&mut self, line: &str, pick: u32) -> (outcome: GuessOutcome)
        requires
            old(self).takes(line@),
        ensures
            outcome == old(self).outcome(line@, pick),
            *final(self) == old(self).after(line@),
    {
        match parse_guess(line) {
            Some(number) => self.guess_number(number, pick),
            None => GuessOutcome::Ignored,
        }
    }
}

} // verus!
