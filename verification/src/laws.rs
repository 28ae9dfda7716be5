//! What holds of the pet however long it is kept.

use vstd::prelude::*;

use crate::absence::{after_absence, ABANDON_SECONDS};
use crate::engine::{
    after_elapsed, after_interval, after_intervals, after_tick, after_ticks, aged,
    intervals_applied, lemma_rest_in_closed_form,
};
use crate::gauge::{lowered, raised};
use crate::pet::{PetModel, PetStatus};
use crate::session::{
    after_care_key, after_debug_key, after_event, after_feeding, after_playing, after_washing,
    Event, Key, SessionModel,
};

verus! {

/// Whether time has left alone in `after` what only the keeper may change in
/// `before`: the name, the sleep, the debug mode and the moment it was last
/// seen. The pet has not grown younger either.
pub open spec fn untouched_by_time(before: PetModel, after: PetModel) -> bool {
    &&& after.name == before.name
    &&& after.last_seen == before.last_seen
    &&& after.is_sleeping == before.is_sleeping
    &&& after.debug_mode == before.debug_mode
    &&& after.age >= before.age
}

/// Whether `after` has kept what no care changes in `before`: the name, the
/// age, the status and the moment it was last seen.
pub open spec fn kept_by_care(before: PetModel, after: PetModel) -> bool {
    &&& after.name == before.name
    &&& after.age == before.age
    &&& after.status == before.status
    &&& after.last_seen == before.last_seen
}

/// Whether the status `after` can follow the status `before` as time goes
/// by: it stays, or a live pet has fallen sick.
pub open spec fn status_follows(before: PetStatus, after: PetStatus) -> bool {
    after == before || (before == PetStatus::Alive && after == PetStatus::Sick)
}

/// Whether the catch-up over `seconds` ends, because the pet dies, before the
/// last of its intervals, while hunger or cleanliness had still room to move.
pub open spec fn catch_up_is_cut_short(m: PetModel, seconds: nat) -> bool {
    let due = seconds / 3;
    let done = intervals_applied(m, due);
    done < due && (m.hunger + 2 * done < 255 || m.cleanliness - 3 * done > 0)
}

/// Care keeps every gauge between 0 and 255: feeding, washing, playing,
/// training and the toggling of sleep saturate and never wrap around. They
/// leave the name, the age, the status and the moment last seen alone.
pub proof fn lemma_care_keeps_gauges_in_range(m: PetModel)
    requires
        m.well_formed(),
    ensures
        m.fed().well_formed(),
        m.washed().well_formed(),
        m.played().well_formed(),
        m.trained().well_formed(),
        m.sleep_toggled().well_formed(),
        after_feeding(m).well_formed(),
        after_washing(m).well_formed(),
        after_playing(m).well_formed(),
        forall|key: Key| #[trigger] after_care_key(m, key).well_formed(),
        forall|key: Key| #[trigger] after_debug_key(m, key).well_formed(),
        forall|key: Key| kept_by_care(m, #[trigger] after_care_key(m, key)),
        forall|key: Key| kept_by_care(m, #[trigger] after_debug_key(m, key)),
{
}

/// One interval keeps every gauge between 0 and 255, moves hunger and
/// cleanliness by at most its fixed steps, never adds health, and leaves
/// everything else but the status alone.
pub proof fn lemma_interval_is_bounded(m: PetModel)
    requires
        m.well_formed(),
    ensures
        after_interval(m).well_formed(),
        after_interval(m).hunger == raised(m.hunger, 2),
        after_interval(m).cleanliness == lowered(m.cleanliness, 3),
        after_interval(m).mood == m.mood,
        after_interval(m).age == m.age,
        m.health - 10 <= after_interval(m).health <= m.health,
        untouched_by_time(m, after_interval(m)),
        status_follows(m.status, after_interval(m).status),
{
}

/// A run of intervals in closed form. Hunger and cleanliness have moved by
/// their steps once for every interval that was applied; mood and age have
/// not moved; health has not risen. Where fewer intervals were applied than
/// were due, the pet is dead.
pub proof fn lemma_intervals_in_closed_form(m: PetModel, count: nat)
    requires
        m.well_formed(),
    ensures
        after_intervals(m, count).well_formed(),
        intervals_applied(m, count) <= count,
        intervals_applied(m, count) < count ==> after_intervals(m, count).is_dead(),
        after_intervals(m, count).hunger == raised(
            m.hunger,
            2 * (intervals_applied(m, count) as int),
        ),
        after_intervals(m, count).cleanliness == lowered(
            m.cleanliness,
            3 * (intervals_applied(m, count) as int),
        ),
        after_intervals(m, count).mood == m.mood,
        after_intervals(m, count).age == m.age,
        after_intervals(m, count).health <= m.health,
        untouched_by_time(m, after_intervals(m, count)),
        status_follows(m.status, after_intervals(m, count).status),
    decreases count,
{
    if count == 0 || m.is_dead() {
    } else {
        lemma_interval_is_bounded(m);
        lemma_intervals_in_closed_form(after_interval(m), (count - 1) as nat);
    }
}

/// Death ends the batch: once a run of intervals has left the pet dead, no
/// longer run changes anything.
pub proof fn lemma_death_ends_the_intervals(m: PetModel, count: nat, more: nat)
    requires
        after_intervals(m, count).is_dead(),
    ensures
        after_intervals(m, count + more) == after_intervals(m, count),
    decreases count,
{
    if m.is_dead() {
    } else if count == 0 {
    } else {
        lemma_death_ends_the_intervals(after_interval(m), (count - 1) as nat, more);
    }
}

/// A pet that starves, and wants for nothing else, loses exactly 3 health
/// with every interval until it is dead: with hunger of 89 or more, not
/// elderly, its mood at 30 or more and its cleanliness at 30 or more to the
/// end, it is dead after `count` intervals exactly when three times `count`
/// reaches its health.
pub proof fn lemma_starvation_costs_three_an_interval(m: PetModel, count: nat)
    requires
        m.well_formed(),
        m.hunger >= 89,
        !m.is_elderly(),
        m.mood >= 30,
        m.cleanliness - 3 * count >= 30,
    ensures
        after_intervals(m, count).health == lowered(m.health, 3 * (count as int)),
        after_intervals(m, count).is_dead() <==> 3 * count >= m.health,
    decreases count,
{
    if count == 0 || m.is_dead() {
    } else {
        lemma_interval_is_bounded(m);
        lemma_starvation_costs_three_an_interval(after_interval(m), (count - 1) as nat);
    }
}

/// A catch-up keeps the pet well formed, leaves alone what only the keeper
/// may change, and never makes a sick pet well again, nor an abandoned one
/// anything but abandoned.
pub proof fn lemma_catch_up_is_bounded(m: PetModel, seconds: int)
    requires
        m.well_formed(),
    ensures
        after_elapsed(m, seconds).well_formed(),
        untouched_by_time(m, after_elapsed(m, seconds)),
        status_follows(m.status, after_elapsed(m, seconds).status),
{
    if seconds > 0 {
        if m.is_sleeping {
            let older = PetModel {
                age: aged(m.age, seconds / 300),
                mood: lowered(m.mood, 2 * seconds),
                ..m
            };
            lemma_rest_in_closed_form(older, seconds);
        } else {
            lemma_intervals_in_closed_form(m, (seconds / 3) as nat);
        }
    }
}

/// A tick keeps the pet well formed, leaves alone what only the keeper may
/// change, and never makes a sick pet well again.
pub proof fn lemma_tick_is_bounded(m: PetModel, counter: int)
    requires
        m.well_formed(),
    ensures
        after_tick(m, counter).well_formed(),
        untouched_by_time(m, after_tick(m, counter)),
        status_follows(m.status, after_tick(m, counter).status),
{
}

/// A session of ticks in closed form, for a pet that is awake and not in
/// debug mode: hunger and cleanliness have moved once for every third
/// second, and the mood has sunk by 2 for every second.
pub proof fn lemma_ticks_in_closed_form(m: PetModel, seconds: nat)
    requires
        m.well_formed(),
        !m.debug_mode,
        !m.is_sleeping,
    ensures
        after_ticks(m, seconds).well_formed(),
        untouched_by_time(m, after_ticks(m, seconds)),
        status_follows(m.status, after_ticks(m, seconds).status),
        after_ticks(m, seconds).hunger == raised(m.hunger, 2 * (seconds as int / 3)),
        after_ticks(m, seconds).cleanliness == lowered(
            m.cleanliness,
            3 * (seconds as int / 3),
        ),
        after_ticks(m, seconds).mood == lowered(m.mood, 2 * (seconds as int)),
    decreases seconds,
{
    if seconds > 0 {
        let before = after_ticks(m, (seconds - 1) as nat);
        lemma_ticks_in_closed_form(m, (seconds - 1) as nat);
        lemma_tick_is_bounded(before, seconds as int);
    }
}

/// The catch-up over a number of seconds and as many ticks of a new session
/// agree on the mood, and agree on hunger and cleanliness unless the catch-up
/// was cut short by the pet's death. This holds of a pet that is awake and
/// not in debug mode.
pub proof fn lemma_catch_up_agrees_with_ticks(m: PetModel, seconds: nat)
    requires
        m.well_formed(),
        !m.debug_mode,
        !m.is_sleeping,
    ensures
        after_elapsed(m, seconds as int).mood == after_ticks(m, seconds).mood,
        !catch_up_is_cut_short(m, seconds) <==> {
            &&& after_elapsed(m, seconds as int).hunger == after_ticks(m, seconds).hunger
            &&& after_elapsed(m, seconds as int).cleanliness == after_ticks(m, seconds).cleanliness
        },
{
    lemma_ticks_in_closed_form(m, seconds);
    lemma_intervals_in_closed_form(m, seconds / 3);
}

/// Sleep pauses hunger and dirt: neither the catch-up nor any number of
/// ticks moves the hunger or the cleanliness of a sleeping pet.
pub proof fn lemma_sleep_pauses_decay(m: PetModel, seconds: nat)
    requires
        m.well_formed(),
        m.is_sleeping,
    ensures
        after_elapsed(m, seconds as int).hunger == m.hunger,
        after_elapsed(m, seconds as int).cleanliness == m.cleanliness,
        after_ticks(m, seconds).hunger == m.hunger,
        after_ticks(m, seconds).cleanliness == m.cleanliness,
        after_ticks(m, seconds).mood == m.mood,
        after_ticks(m, seconds).is_sleeping,
        after_ticks(m, seconds).well_formed(),
    decreases seconds,
{
    if seconds > 0 {
        lemma_sleep_pauses_decay(m, (seconds - 1) as nat);
        lemma_catch_up_is_bounded(m, seconds as int);
        let older = PetModel {
            age: aged(m.age, seconds as int / 300),
            mood: lowered(m.mood, 2 * (seconds as int)),
            ..m
        };
        lemma_rest_in_closed_form(older, seconds as int);
    }
}

/// The pet runs away after more than the threshold, and not at the
/// threshold: a pet that had not run away before has done so after an absence
/// exactly when the absence was longer than three days.
pub proof fn lemma_abandonment_is_strict(m: PetModel, elapsed: int)
    requires
        m.well_formed(),
        m.status != PetStatus::Abandoned,
    ensures
        after_absence(m, elapsed).status == PetStatus::Abandoned <==> elapsed > ABANDON_SECONDS,
        after_absence(m, elapsed).well_formed(),
{
    lemma_catch_up_is_bounded(m, elapsed);
}

/// A sick pet does not get well by itself: whatever time does to a pet that
/// is sick, it is sick afterwards, unless it has run away meanwhile.
pub proof fn lemma_sickness_stays(m: PetModel, count: nat, seconds: int)
    requires
        m.well_formed(),
        m.status == PetStatus::Sick,
    ensures
        after_interval(m).status == PetStatus::Sick,
        after_intervals(m, count).status == PetStatus::Sick,
        after_elapsed(m, seconds).status == PetStatus::Sick,
        after_tick(m, seconds).status == PetStatus::Sick,
        after_absence(m, seconds).status == PetStatus::Sick || after_absence(m, seconds).status
            == PetStatus::Abandoned,
{
    lemma_intervals_in_closed_form(m, count);
    lemma_catch_up_is_bounded(m, seconds);
}

/// An abandoned pet is frozen: no event of a session changes it.
pub proof fn lemma_abandoned_pet_is_frozen(s: SessionModel, m: PetModel, event: Event)
    requires
        m.status == PetStatus::Abandoned,
    ensures
        after_event(s, m, event).0 == s,
        after_event(s, m, event).1 == m,
{
}

/// No event of a session carries a gauge out of its range.
pub proof fn lemma_events_keep_gauges_in_range(s: SessionModel, m: PetModel, event: Event)
    requires
        m.well_formed(),
    ensures
        after_event(s, m, event).1.well_formed(),
        after_event(s, m, event).1.name == m.name,
        after_event(s, m, event).1.last_seen == m.last_seen,
        after_event(s, m, event).1.age >= m.age,
{
}

} // verus!
