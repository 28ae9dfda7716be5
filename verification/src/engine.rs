//! How the pet changes as time passes.
//!
//! One rule, [`after_interval`], says what three seconds of neglect do. It is
//! applied by the live clock ([`tick`], once a second) and by the catch-up
//! after an absence ([`apply_elapsed_time_effects`]), so that the two cannot
//! drift apart.

use vstd::prelude::*;

use crate::gauge::{lowered, raised, GAUGE_MAX};
use crate::pet::{Pet, PetModel, PetStatus};

verus! {

/// The interval rule applies once for every this many seconds.
pub const INTERVAL_SECONDS: i64 = 3;

/// The pet grows one unit older for every this many seconds.
pub const AGING_SECONDS: i64 = 300;

/// The mood lost with every second.
pub const MOOD_DECAY: u8 = 2;

/// The health that an interval costs a pet this hungry.
pub open spec fn hunger_penalty(hunger: int) -> int {
    if hunger > 90 {
        3
    } else if hunger > 80 {
        2
    } else if hunger > 70 {
        1
    } else {
        0
    }
}

/// The health that an interval costs a pet whose cleanliness, or whose mood,
/// has sunk to `gauge`.
pub open spec fn neglect_penalty(gauge: int) -> int {
    if gauge < 10 {
        3
    } else if gauge < 20 {
        2
    } else if gauge < 30 {
        1
    } else {
        0
    }
}

/// The further health that an interval costs an elderly pet that is hungry,
/// dirty or unhappy.
pub open spec fn frailty_penalty(m: PetModel) -> int {
    if m.is_elderly() && (m.hunger > 60 || m.cleanliness < 40 || m.mood < 40) {
        1
    } else {
        0
    }
}

/// All the health that one interval costs a pet in state `m`.
pub open spec fn interval_penalty(m: PetModel) -> int {
    hunger_penalty(m.hunger) + neglect_penalty(m.cleanliness) + neglect_penalty(m.mood)
        + frailty_penalty(m)
}

/// The pet after one interval: hungrier by 2 and dirtier by 3, then poorer in
/// health by what its new state costs, and sick if that leaves a live pet
/// with less than 20 health.
pub open spec fn after_interval(m: PetModel) -> PetModel {
    let worn = PetModel {
        hunger: raised(m.hunger, 2),
        cleanliness: lowered(m.cleanliness, 3),
        ..m
    };
    let health = lowered(m.health, interval_penalty(worn));
    PetModel {
        health,
        status: if health < 20 && m.status == PetStatus::Alive {
            PetStatus::Sick
        } else {
            m.status
        },
        ..worn
    }
}

/// The pet after up to `count` intervals in a row: a dead pet is left as it
/// is, so that the intervals end with the one that kills it.
pub open spec fn after_intervals(m: PetModel, count: nat) -> PetModel
    decreases count,
{
    if count == 0 || m.is_dead() {
        m
    } else {
        after_intervals(after_interval(m), (count - 1) as nat)
    }
}

/// How many of `count` intervals are applied before the pet is dead.
pub open spec fn intervals_applied(m: PetModel, count: nat) -> nat
    decreases count,
{
    if count == 0 || m.is_dead() {
        0
    } else {
        1 + intervals_applied(after_interval(m), (count - 1) as nat)
    }
}

/// An age after `periods` more units, stopping at the largest 32-bit number.
pub open spec fn aged(age: int, periods: int) -> int {
    if age + periods > u32::MAX {
        u32::MAX as int
    } else {
        age + periods
    }
}

/// The pet after one second asleep: it has gained 1 health, which an elderly
/// pet has lost again at once.
pub open spec fn after_resting_second(m: PetModel) -> PetModel {
    let healed = raised(m.health, 1);
    PetModel {
        health: if m.is_elderly() {
            lowered(healed, 1)
        } else {
            healed
        },
        ..m
    }
}

/// The pet after `seconds` seconds asleep, one after the other.
pub open spec fn rested(m: PetModel, seconds: int) -> PetModel
    decreases seconds,
{
    if seconds <= 0 {
        m
    } else {
        rested(after_resting_second(m), seconds - 1)
    }
}

/// The pet after `seconds` went by in one piece. A pet awake goes through one
/// interval for every three whole seconds; asleep, it is spared them. Then it
/// ages by one for every 300 whole seconds and loses 2 mood for every second,
/// and a sleeper rests, at the age it has reached. A span that is not
/// positive changes nothing.
pub open spec fn after_elapsed(m: PetModel, seconds: int) -> PetModel {
    if seconds <= 0 {
        m
    } else {
        let worn = if m.is_sleeping {
            m
        } else {
            after_intervals(m, (seconds / 3) as nat)
        };
        let older = PetModel {
            age: aged(worn.age, seconds / 300),
            mood: lowered(worn.mood, 2 * seconds),
            ..worn
        };
        if older.is_sleeping {
            rested(older, seconds)
        } else {
            older
        }
    }
}

/// The pet after the second that brings the session's count of seconds to
/// `counter`. In debug mode nothing moves. Otherwise the pet ages when the
/// count reaches a multiple of 300; a sleeper rests; a pet awake loses 2
/// mood, and goes through an interval when the count is a multiple of 3.
pub open spec fn after_tick(m: PetModel, counter: int) -> PetModel {
    if m.debug_mode {
        m
    } else {
        let older = PetModel {
            age: if counter > 0 && counter % 300 == 0 {
                aged(m.age, 1)
            } else {
                m.age
            },
            ..m
        };
        if older.is_sleeping {
            after_resting_second(older)
        } else {
            let moody = PetModel { mood: lowered(older.mood, 2), ..older };
            if counter % 3 == 0 {
                after_interval(moody)
            } else {
                moody
            }
        }
    }
}

/// The pet after the first `count` seconds of a session, one tick each.
pub open spec fn after_ticks(m: PetModel, count: nat) -> PetModel
    decreases count,
{
    if count == 0 {
        m
    } else {
        after_tick(after_ticks(m, (count - 1) as nat), count as int)
    }
}

/// Applies the interval rule once.
pub fn apply_interval(pet: &mut Pet)
    ensures
        final(pet)@ == after_interval(old(pet)@),
{
    pet.hunger = pet.hunger.saturating_add(2);
    pet.cleanliness = pet.cleanliness.saturating_sub(3);

    if pet.hunger > 90 {
        pet.health = pet.health.saturating_sub(3);
    } else if pet.hunger > 80 {
        pet.health = pet.health.saturating_sub(2);
    } else if pet.hunger > 70 {
        pet.health = pet.health.saturating_sub(1);
    }

    if pet.cleanliness < 10 {
        pet.health = pet.health.saturating_sub(3);
    } else if pet.cleanliness < 20 {
        pet.health = pet.health.saturating_sub(2);
    } else if pet.cleanliness < 30 {
        pet.health = pet.health.saturating_sub(1);
    }

    if pet.mood < 10 {
        pet.health = pet.health.saturating_sub(3);
    } else if pet.mood < 20 {
        pet.health = pet.health.saturating_sub(2);
    } else if pet.mood < 30 {
        pet.health = pet.health.saturating_sub(1);
    }

    if pet.is_elderly() && (pet.hunger > 60 || pet.cleanliness < 40 || pet.mood < 40) {
        pet.health = pet.health.saturating_sub(1);
    }

    if pet.health < 20 && pet.status == PetStatus::Alive {
        pet.status = PetStatus::Sick;
    }
}

/// Sleep in closed form. A pet that is not elderly has gained 1 health for
/// every second, up to 255. An elderly pet has gained nothing: its health is
/// what it was, or 254 if it was 255.
pub proof fn lemma_rest_in_closed_form(m: PetModel, seconds: int)
    requires
        0 <= m.health <= 255,
    ensures
        rested(m, seconds) == (PetModel {
            health: if seconds <= 0 {
                m.health
            } else if m.is_elderly() {
                lowered(raised(m.health, 1), 1)
            } else {
                raised(m.health, seconds)
            },
            ..m
        }),
    decreases seconds,
{
    if seconds > 0 {
        lemma_rest_in_closed_form(after_resting_second(m), seconds - 1);
    }
}

/// Lets the pet sleep for a second.
fn rest_a_second(pet: &mut Pet)
    ensures
        final(pet)@ == after_resting_second(old(pet)@),
{
    pet.health = pet.health.saturating_add(1);
    if pet.is_elderly() {
        pet.health = pet.health.saturating_sub(1);
    }
}

/// Lets the pet sleep for `seconds`.
fn rest(pet: &mut Pet, seconds: i64)
    ensures
        final(pet)@ == rested(old(pet)@, seconds as int),
{
    proof {
        lemma_rest_in_closed_form(pet@, seconds as int);
    }
    if seconds <= 0 {
    } else if pet.is_elderly() {
        rest_a_second(pet);
    } else if seconds > 255 {
        pet.health = GAUGE_MAX;
    } else {
        pet.health = pet.health.saturating_add(seconds as u8);
    }
}

/// Catches the pet up on `elapsed_seconds` that went by while nobody was
/// looking.
pub fn apply_elapsed_time_effects(pet: &mut Pet, elapsed_seconds: i64)
    ensures
        final(pet)@ == after_elapsed(old(pet)@, elapsed_seconds as int),
{
    if elapsed_seconds <= 0 {
        return ;
    }
    if !pet.is_sleeping {
        let intervals: i64 = elapsed_seconds / INTERVAL_SECONDS;
        let mut done: i64 = 0;
        while done < intervals && pet.health > 0
            invariant
                0 <= done <= intervals,
                after_intervals(pet@, (intervals - done) as nat) == after_intervals(
                    old(pet)@,
                    intervals as nat,
                ),
            decreases intervals - done,
        {
            apply_interval(pet);
            done = done + 1;
        }
    }
    let periods: i64 = elapsed_seconds / AGING_SECONDS;
    if periods > 0xffff_ffff {
        pet.age = u32::MAX;
    } else {
        pet.age = pet.age.saturating_add(periods as u32);
    }

    if elapsed_seconds > 127 {
        pet.mood = 0;
    } else {
        pet.mood = pet.mood.saturating_sub(elapsed_seconds as u8 * MOOD_DECAY);
    }

    if pet.is_sleeping {
        rest(pet, elapsed_seconds);
    }
}

/// Moves the pet through the second that brings the session's count of
/// seconds to `seconds_elapsed`.
pub fn tick(pet: &mut Pet, seconds_elapsed: u64)
    ensures
        final(pet)@ == after_tick(old(pet)@, seconds_elapsed as int),
{
    if pet.debug_mode {
        return ;
    }
    if seconds_elapsed > 0 && seconds_elapsed % 300 == 0 {
        pet.age = pet.age.saturating_add(1);
    }
    if pet.is_sleeping {
        rest_a_second(pet);
    } else {
        pet.mood = pet.mood.saturating_sub(MOOD_DECAY);
        if seconds_elapsed % 3 == 0 {
            apply_interval(pet);
        }
    }
}

} // verus!
