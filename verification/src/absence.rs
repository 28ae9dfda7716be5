//! The beginning and the end of a session: what an absence did to the pet,
//! and whether the pet is worth keeping when the keeper leaves.

use vstd::prelude::*;

use crate::clock::{elapsed_seconds, now, seconds_between};
use crate::engine::{after_elapsed, apply_elapsed_time_effects};
use crate::pet::{Pet, PetModel, PetStatus};

verus! {

/// A pet left alone for more than this many seconds (three days) runs away.
pub const ABANDON_SECONDS: i64 = 3 * 24 * 60 * 60;

/// The name of a pet whose keeper gave it none.
pub open spec fn default_name() -> Seq<char> {
    "Petty"@
}

/// The pet as its keeper finds it after `elapsed` seconds away. Past the
/// threshold it has run away, and is otherwise left as it was. Up to the
/// threshold a pet is caught up on the time, be it well or sick; one that
/// is dead, or had run away before, is found unchanged.
pub open spec fn after_absence(m: PetModel, elapsed: int) -> PetModel {
    if elapsed > ABANDON_SECONDS {
        PetModel { status: PetStatus::Abandoned, ..m }
    } else if m.status != PetStatus::Abandoned && m.health > 0 {
        after_elapsed(m, elapsed)
    } else {
        m
    }
}

/// The name that a new pet gets: the given one, or the default.
pub open spec fn name_or_default(name: Option<String>) -> Seq<char> {
    match name {
        Some(given) => given@,
        None => default_name(),
    }
}

/// A pet that ran away or died: nothing of it is kept for the next session.
pub open spec fn is_lost(m: PetModel) -> bool {
    m.status == PetStatus::Abandoned || m.health == 0
}

/// What becomes of the saved state when a session ends.
#[derive(Clone, Copy, PartialEq, Eq, Debug, Structural)]
pub enum Farewell {
    /// The pet is lost: clear what was saved, so that the next session
    /// starts afresh.
    Forget,
    /// Save the pet.
    Keep,
}

/// The pet to start a session with at the instant `now`: the saved one if
/// there is one, else a new one, first seen at `now`, under the given name or
/// under the default name.
pub fn restore_at(saved: Option<Pet>, name: Option<String>, now: chrono::NaiveDateTime) -> (pet:
    Pet)
    ensures
        match saved {
            Some(kept) => pet == kept,
            None => pet@ == PetModel::fresh(name_or_default(name), now),
        },
{
    match saved {
        Some(kept) => kept,
        None => match name {
            Some(given) => Pet::born_at(given, now),
            None => Pet::born_at("Petty".to_owned(), now),
        },
    }
}

/// The pet to start a session with: the saved one if there is one, else a new
/// one, first seen at the present moment, under the given name or under the
/// default name.
pub fn restore(saved: Option<Pet>, name: Option<String>) -> (pet: Pet)
    ensures
        match saved {
            Some(kept) => pet == kept,
            None => pet@ == PetModel::fresh(name_or_default(name), pet.last_seen),
        },
{
    match saved {
        Some(kept) => kept,
        None => restore_at(None, name, now()),
    }
}

/// Brings the pet up to date after `elapsed_seconds` without its keeper: it
/// has run away after more than three days, and is caught up on the time
/// otherwise, unless it is dead or had run away before.
pub fn catch_up(pet: &mut Pet, elapsed_seconds: i64)
    ensures
        final(pet)@ == after_absence(old(pet)@, elapsed_seconds as int),
{
    if elapsed_seconds > ABANDON_SECONDS {
        pet.status = PetStatus::Abandoned;
    } else if pet.status != PetStatus::Abandoned && pet.health > 0 {
        apply_elapsed_time_effects(pet, elapsed_seconds);
    }
}

/// Brings the pet up to date at the instant `now`, by the time that has
/// passed since it was last seen.
pub fn resume_at(pet: &mut Pet, now: &chrono::NaiveDateTime)
    ensures
        final(pet)@ == after_absence(old(pet)@, seconds_between(*now, old(pet).last_seen)),
{
    let elapsed = elapsed_seconds(now, &pet.last_seen);
    catch_up(pet, elapsed);
}

/// Brings the pet up to date at the present moment, whenever that is.
pub fn resume(pet: &mut Pet)
    ensures
        exists|instant: chrono::NaiveDateTime|
            final(pet)@ == after_absence(
                old(pet)@,
                #[trigger] seconds_between(instant, old(pet).last_seen),
            ),
{
    let instant = now();
    resume_at(pet, &instant);
}

/// Ends the session at the instant `now`. A lost pet is left as it is and is
/// to be forgotten; any other is marked as seen at `now` and is to be kept.
pub fn conclude_at(pet: &mut Pet, now: chrono::NaiveDateTime) -> (farewell: Farewell)
    ensures
        is_lost(old(pet)@) ==> farewell == Farewell::Forget && final(pet)@ == old(pet)@,
        !is_lost(old(pet)@) ==> farewell == Farewell::Keep && final(pet)@ == (PetModel {
            last_seen: now,
            ..old(pet)@
        }),
{
    if pet.status == PetStatus::Abandoned || pet.health == 0 {
        Farewell::Forget
    } else {
        pet.last_seen = now;
        Farewell::Keep
    }
}

/// Ends the session at the present moment, whenever that is. A lost pet is
/// left as it is and is to be forgotten; any other is marked as seen at that
/// moment and is to be kept.
pub fn conclude(pet: &mut Pet) -> (farewell: Farewell)
    ensures
        is_lost(old(pet)@) ==> farewell == Farewell::Forget && final(pet)@ == old(pet)@,
        !is_lost(old(pet)@) ==> farewell == Farewell::Keep && final(pet)@ == (PetModel {
            last_seen: final(pet).last_seen,
            ..old(pet)@
        }),
{
    if pet.status == PetStatus::Abandoned || pet.health == 0 {
        Farewell::Forget
    } else {
        conclude_at(pet, now())
    }
}

} // verus!
