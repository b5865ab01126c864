//! Numbers drawn at random.

use rand::Rng;
use vstd::prelude::*;

verus! {

/// Smallest secret number of the guessing game.
pub const SECRET_MIN: u32 = 1;

/// Largest secret number of the guessing game.
pub const SECRET_MAX: u32 = 100;

/// How many congratulations there are to pick from.
pub const CONGRATULATIONS: u32 = 5;

/// A number drawn uniformly from `low..high`, by `Rng::gen_range` of the
/// `rand` crate on the generator that `rand::thread_rng` hands out.
///
/// Believed, not proved: the number is at least `low` and less than `high`.
/// Which number it is depends on chance, so nothing more is said of it.
/// `gen_range` panics when `low >= high`; such bounds are not accepted.
/// `thread_rng` panics where the system has no randomness to seed the
/// generator with, which no argument decides.
#[verifier::external_body]
fn random_in_range(low: u32, high: u32) -> (number: u32)
    requires
        low < high,
    ensures
        low <= number < high,
{
    rand::thread_rng().gen_range(low, high)
}

/// The numbers that chance contributes to one step of a session: the secret
/// of a game that may start, and which congratulation a win may earn.
#[derive(Debug, Clone, Copy, PartialEq, Eq, Structural)]
pub struct Draws {
    /// The secret number for a new game.
    pub secret: u32,
    /// The place of a congratulation among those there are.
    pub pick: u32,
}

impl Draws {
    /// Whether both numbers are in their ranges.
    pub open spec fn valid(self) -> bool {
        &&& SECRET_MIN <= self.secret <= SECRET_MAX
        &&& self.pick < CONGRATULATIONS
    }

    /// Whether both numbers are in their ranges.
    pub fn is_valid(&self) -> (ok: bool)
        ensures
            ok == self.valid(),
    {
        SECRET_MIN <= self.secret && self.secret <= SECRET_MAX && self.pick < CONGRATULATIONS
    }

    /// Fresh numbers, each uniform over its range.
    pub fn roll() -> (draws: Draws)
        ensures
            draws.valid(),
    {
        Draws { secret: draw_secret(), pick: draw_pick() }
    }
}

/// A secret number, uniform over 1 to 100.
pub fn draw_secret() -> (secret: u32)
    ensures
        SECRET_MIN <= secret <= SECRET_MAX,
{
    random_in_range(SECRET_MIN, SECRET_MAX + 1)
}

/// The place of a congratulation, uniform over those there are.
pub fn draw_pick() -> (pick: u32)
    ensures
        pick < CONGRATULATIONS,
{
    random_in_range(0, CONGRATULATIONS)
}

} // verus!
