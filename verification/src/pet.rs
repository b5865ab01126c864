//! The pet and what a meal does to it.

use vstd::prelude::*;

verus! {

/// Happiness of a pet that was just created.
pub const INITIAL_HAPPINESS: i32 = 50;

/// Fullness of a pet that was just created, in hundredths of a full stomach.
pub const INITIAL_STOMACH: u32 = 50;

/// Happiness that one meal adds.
pub const MEAL_HAPPINESS: i32 = 10;

/// Fullness that one meal adds, in hundredths of a full stomach.
pub const MEAL_STOMACH: u32 = 5;

/// The pet. Nothing caps its happiness or its fullness.
#[derive(Debug, Clone)]
pub struct Pet {
    /// The name it is shown under.
    pub name: String,
    /// How happy it is.
    pub happiness: i32,
    /// How full it is, in hundredths of a full stomach: 50 is half full.
    pub stomach: u32,
    /// Whether it does as it is told. Nothing depends on it.
    pub obedient: bool,
}

impl Pet {
    /// Whether one more meal keeps both counters within their types.
    pub open spec fn can_eat(self) -> bool {
        self.happiness + MEAL_HAPPINESS <= i32::MAX && self.stomach + MEAL_STOMACH <= u32::MAX
    }

    /// The pet after one meal.
    pub open spec fn fed(self) -> Pet
        recommends
            self.can_eat(),
    {
        Pet {
            happiness: (self.happiness + MEAL_HAPPINESS) as i32,
            stomach: (self.stomach + MEAL_STOMACH) as u32,
            ..self
        }
    }

    /// The pet after `meals` meals in a row.
    pub open spec fn fed_times(self, meals: nat) -> Pet
        decreases meals,
    {
        if meals == 0 {
            self
        } else {
            self.fed_times((meals - 1) as nat).fed()
        }
    }

    /// A new pet: half full, moderately happy and obedient.
    pub fn new(name: String) -> (pet: Pet)
        ensures
            pet.name == name,
            pet.happiness == INITIAL_HAPPINESS,
            pet.stomach == INITIAL_STOMACH,
            pet.obedient,
    {
        Pet { name, happiness: INITIAL_HAPPINESS, stomach: INITIAL_STOMACH, obedient: true }
    }

    /// Whether the pet can take one more meal without a counter running over.
    pub fn has_room(&self) -> (room: bool)
        ensures
            room == self.can_eat(),
    {
        self.happiness <= i32::MAX - MEAL_HAPPINESS && self.stomach <= u32::MAX - MEAL_STOMACH
    }

    /// One meal: ten more happiness, five hundredths more fullness.
    pub fn feed(&mut self)
        requires
            old(self).can_eat(),
        ensures
            *final(self) == old(self).fed(),
            final(self).happiness == old(self).happiness + 10,
            final(self).stomach == old(self).stomach + 5,
    {
        self.happiness = self.happiness + MEAL_HAPPINESS;
        self.stomach = self.stomach + MEAL_STOMACH;
    }

    /// Fullness as a percentage of a full stomach.
    pub fn stomach_percent(&self) -> (percent: u32)
        ensures
            percent == self.stomach,
    {
        self.stomach
    }
}

/// Meals add up: after `meals` meals the pet is ten times that number
/// happier and five hundredths times that number fuller, whatever the
/// number, as long as the counters can hold the sums. Name and obedience
/// stay as they were.
pub proof fn lemma_meals_add_up(pet: Pet, meals: nat)
    requires
        pet.happiness + 10 * meals <= i32::MAX,
        pet.stomach + 5 * meals <= u32::MAX,
    ensures
        pet.fed_times(meals).happiness == pet.happiness + 10 * meals,
        pet.fed_times(meals).stomach == pet.stomach + 5 * meals,
        pet.fed_times(meals).name == pet.name,
        pet.fed_times(meals).obedient == pet.obedient,
        meals > 0 ==> pet.fed_times((meals - 1) as nat).can_eat(),
    decreases meals,
{
    if meals > 0 {
        lemma_meals_add_up(pet, (meals - 1) as nat);
    }
}

} // verus!
