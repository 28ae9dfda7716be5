//! The pet: its attributes, and what caring for it does.

use vstd::prelude::*;

use crate::clock::now;
use crate::gauge::{lowered, raised};

verus! {

/// How the pet stands with its keeper. A dead pet has no status of its own:
/// it is one whose health is 0.
#[derive(Clone, Copy, PartialEq, Eq, Debug, Structural)]
pub enum PetStatus {
    Alive,
    Sick,
    Abandoned,
}

#[derive(Debug)]
pub struct Pet {
    pub name: String,
    pub age: u32,
    pub health: u8,
    pub hunger: u8,
    pub cleanliness: u8,
    pub mood: u8,
    pub is_sleeping: bool,
    pub status: PetStatus,
    /// The last moment at which the simulation was known to be live, in UTC.
    pub last_seen: chrono::NaiveDateTime,
    pub debug_mode: bool,
}

/// What a pet is, in mathematical terms: the name as a sequence of
/// characters, the counters as unbounded integers.
pub struct PetModel {
    pub name: Seq<char>,
    pub age: int,
    pub health: int,
    pub hunger: int,
    pub cleanliness: int,
    pub mood: int,
    pub is_sleeping: bool,
    pub status: PetStatus,
    pub last_seen: chrono::NaiveDateTime,
    pub debug_mode: bool,
}

impl PetModel {
    /// A newly created pet called `name`, first seen at `born`.
    pub open spec fn fresh(name: Seq<char>, born: chrono::NaiveDateTime) -> PetModel {
        PetModel {
            name,
            age: 0,
            health: 100,
            hunger: 0,
            cleanliness: 100,
            mood: 100,
            is_sleeping: false,
            status: PetStatus::Alive,
            last_seen: born,
            debug_mode: false,
        }
    }

    /// Every gauge lies between 0 and 255, and the age fits in 32 bits.
    pub open spec fn well_formed(self) -> bool {
        &&& 0 <= self.age <= u32::MAX
        &&& 0 <= self.health <= 255
        &&& 0 <= self.hunger <= 255
        &&& 0 <= self.cleanliness <= 255
        &&& 0 <= self.mood <= 255
    }

    pub open spec fn is_elderly(self) -> bool {
        self.age > 50
    }

    pub open spec fn is_dead(self) -> bool {
        self.health == 0
    }

    pub open spec fn fed(self) -> PetModel {
        PetModel { hunger: lowered(self.hunger, 20), health: raised(self.health, 5), ..self }
    }

    pub open spec fn washed(self) -> PetModel {
        PetModel { cleanliness: 100, ..self }
    }

    pub open spec fn played(self) -> PetModel {
        PetModel { mood: raised(self.mood, 10), hunger: raised(self.hunger, 5), ..self }
    }

    pub open spec fn sleep_toggled(self) -> PetModel {
        PetModel { is_sleeping: !self.is_sleeping, ..self }
    }

    pub open spec fn trained(self) -> PetModel {
        PetModel {
            health: raised(self.health, 3),
            mood: raised(self.mood, 5),
            hunger: raised(self.hunger, 10),
            ..self
        }
    }
}

/// The name of the stage of life that a pet of the given age is in.
pub open spec fn stage_name(age: int) -> Seq<char> {
    if age > 50 {
        "elderly"@
    } else if age > 20 {
        "adult"@
    } else {
        "young"@
    }
}

impl View for Pet {
    type V = PetModel;

    open spec fn view(&self) -> PetModel {
        PetModel {
            name: self.name@,
            age: self.age as int,
            health: self.health as int,
            hunger: self.hunger as int,
            cleanliness: self.cleanliness as int,
            mood: self.mood as int,
            is_sleeping: self.is_sleeping,
            status: self.status,
            last_seen: self.last_seen,
            debug_mode: self.debug_mode,
        }
    }
}

impl Pet {
    /// A pet with the default gauges, first seen at the instant `born`.
    pub fn born_at(name: String, born: chrono::NaiveDateTime) -> (pet: Pet)
        ensures
            pet@ == PetModel::fresh(name@, born),
    {
        Pet {
            name,
            age: 0,
            health: 100,
            hunger: 0,
            cleanliness: 100,
            mood: 100,
            is_sleeping: false,
            status: PetStatus::Alive,
            last_seen: born,
            debug_mode: false,
        }
    }

    /// A pet with the default gauges, first seen at the present moment,
    /// whenever that is.
    pub fn new(name: String) -> (pet: Pet)
        ensures
            pet@ == PetModel::fresh(name@, pet.last_seen),
    {
        Pet::born_at(name, now())
    }

    /// Feeding stills hunger by 20 and restores 5 health.
    pub fn feed(&mut self)
        ensures
            final(self)@ == old(self)@.fed(),
    {
        self.hunger = self.hunger.saturating_sub(20);
        self.health = self.health.saturating_add(5);
    }

    /// Washing sets cleanliness to 100, whatever it was.
    pub fn wash(&mut self)
        ensures
            final(self)@ == old(self)@.washed(),
    {
        self.cleanliness = 100;
    }

    /// Playing lifts the mood by 10 and costs 5 hunger.
    pub fn play(&mut self)
        ensures
            final(self)@ == old(self)@.played(),
    {
        self.mood = self.mood.saturating_add(10);
        self.hunger = self.hunger.saturating_add(5);
    }

    /// Puts the pet to sleep, or wakes it.
    pub fn sleep(&mut self)
        ensures
            final(self)@ == old(self)@.sleep_toggled(),
    {
        self.is_sleeping = !self.is_sleeping;
    }

    /// Training gains 3 health and 5 mood at the price of 10 hunger.
    pub fn train(&mut self)
        ensures
            final(self)@ == old(self)@.trained(),
    {
        self.health = self.health.saturating_add(3);
        self.mood = self.mood.saturating_add(5);
        self.hunger = self.hunger.saturating_add(10);
    }

    /// Past 50 the pet is elderly, past 20 an adult, and young until then.
    pub fn life_stage(&self) -> (stage: &'static str)
        ensures
            stage@ == stage_name(self@.age),
    {
        if self.age > 50 {
            "elderly"
        } else if self.age > 20 {
            "adult"
        } else {
            "young"
        }
    }

    /// Whether the pet is past 50.
    pub fn is_elderly(&self) -> (elderly: bool)
        ensures
            elderly == self@.is_elderly(),
    {
        self.age > 50
    }
}

} // verus!
