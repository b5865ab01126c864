//! Players who search for the secret number by rule, and how many guesses
//! they need.

use crate::guessing::{hint_of, win_message, GuessOutcome, GuessingGame, Hint, WinMessage};
use crate::random::{CONGRATULATIONS, SECRET_MAX, SECRET_MIN};
use vstd::prelude::*;

verus! {

/// A rule for the next guess, given that the secret number lies between two
/// bounds.
#[derive(Debug, Clone, Copy, PartialEq, Eq, Structural)]
pub enum Search {
    /// Guess the smallest number that is still possible.
    Linear,
    /// Guess the number in the middle of those still possible.
    Binary,
}

impl Search {
    /// The number guessed when the secret lies in `low..=high`.
    pub open spec fn next_guess(self, low: int, high: int) -> int {
        match self {
            Search::Linear => low,
            Search::Binary => low + (high - low) / 2,
        }
    }
}

/// How many guesses the rule `search` makes until it hits `secret`, starting
/// from the knowledge that it lies in `low..=high` and narrowing the bounds
/// by each hint. That this is well defined is the game's termination for
/// such a player.
pub open spec fn guesses_needed(search: Search, secret: int, low: int, high: int) -> nat
    decreases high - low,
{
    if low <= secret <= high {
        let guess = search.next_guess(low, high);
        match hint_of(secret, guess) {
            Hint::Correct => 1,
            Hint::TooSmall => 1 + guesses_needed(search, secret, guess + 1, high),
            Hint::TooBig => 1 + guesses_needed(search, secret, low, guess - 1),
        }
    } else {
        0
    }
}

/// Two to the power `exponent`.
pub open spec fn two_to(exponent: nat) -> nat
    decreases exponent,
{
    if exponent == 0 {
        1
    } else {
        2 * two_to((exponent - 1) as nat)
    }
}

/// Counting up from `low` finds `secret` with the guess that names it.
pub proof fn lemma_linear_search_from(secret: int, low: int, high: int)
    requires
        low <= secret <= high,
    ensures
        guesses_needed(Search::Linear, secret, low, high) == secret - low + 1,
    decreases secret - low,
{
    if low < secret {
        lemma_linear_search_from(secret, low + 1, high);
    }
}

/// Halving finds `secret` within `rounds` guesses when fewer than two to the
/// power `rounds` numbers are possible.
pub proof fn lemma_binary_search_within(secret: int, low: int, high: int, rounds: nat)
    requires
        low <= secret <= high,
        high - low + 1 < two_to(rounds),
    ensures
        1 <= guesses_needed(Search::Binary, secret, low, high) <= rounds,
    decreases rounds,
{
    let guess = Search::Binary.next_guess(low, high);
    if rounds == 0 {
    } else if guess < secret {
        lemma_binary_search_within(secret, guess + 1, high, (rounds - 1) as nat);
    } else if guess > secret {
        lemma_binary_search_within(secret, low, guess - 1, (rounds - 1) as nat);
    }
}

/// A player who tries 1, 2, 3 and so on wins a game on 1 to 100 with the
/// guess that names the secret number, so after at most a hundred guesses:
/// every smaller number is answered as too small, and the secret number
/// itself as a win.
pub proof fn lemma_linear_search_wins(game: GuessingGame)
    requires
        game.wf(),
    ensures
        guesses_needed(Search::Linear, game.secret as int, SECRET_MIN as int, SECRET_MAX as int)
            == game.secret,
        guesses_needed(Search::Linear, game.secret as int, SECRET_MIN as int, SECRET_MAX as int)
            <= 100,
        forall|number: u32, pick: u32|
            number < game.secret ==> #[trigger] game.answer(number, pick) == GuessOutcome::TooSmall(
                number,
            ),
        forall|pick: u32| #[trigger] game.answer(game.secret, pick) is Won,
{
    lemma_linear_search_from(game.secret as int, SECRET_MIN as int, SECRET_MAX as int);
}

/// A player who halves the range of possible numbers wins a game on 1 to 100
/// after at most seven guesses.
pub proof fn lemma_binary_search_wins(game: GuessingGame)
    requires
        game.wf(),
    ensures
        1 <= guesses_needed(Search::Binary, game.secret as int, SECRET_MIN as int, SECRET_MAX as int)
            <= 7,
{
    assert(two_to(7) == 128) by {
        reveal_with_fuel(two_to, 8);
    }
    lemma_binary_search_within(game.secret as int, SECRET_MIN as int, SECRET_MAX as int, 7);
}

/// Whoever names the secret number with the first guess of a game is told
/// that they got it in one, whatever the secret and whatever congratulation
/// chance would have picked.
pub proof fn lemma_first_guess_right(game: GuessingGame, pick: u32)
    requires
        game.guesses == 0,
    ensures
        game.answer(game.secret, pick) == GuessOutcome::Won(game.secret, WinMessage::GotItInOne),
{
}

/// A secret of thirteen found with any guess but the first earns the spooky
/// message. Any other secret found with a later guess earns one of the
/// ordinary congratulations: the one that `pick` names, which has a text.
pub proof fn lemma_later_win_message(num_guesses: int, secret_number: int, pick: u32)
    requires
        pick < CONGRATULATIONS,
    ensures
        num_guesses != 1 && secret_number == 13 ==> win_message(num_guesses, secret_number, pick)
            == WinMessage::Spooky,
        num_guesses > 1 && secret_number != 13 ==> win_message(num_guesses, secret_number, pick)
            == WinMessage::Congratulations(pick),
        win_message(num_guesses, secret_number, pick).valid(),
{
}

} // verus!
