//! A virtual pet whose vital statistics decay with time and answer to care.
//!
//! - [`pet`] holds the pet and what caring for it does.
//! - [`gauge`] is the saturating arithmetic of its gauges.
//! - [`engine`] moves the pet through time, second by second or in one
//!   piece after an absence.
//! - [`absence`] begins and ends a session: it finds out what an absence did
//!   to the pet, and whether the pet is to be kept.
//! - [`session`] reads the events of a session, one at a time.
//! - [`looks`] chooses what the pet shows of itself.
//! - [`clock`] reads the wall clock.
//! - [`laws`] proves what holds of the pet however long it is kept.

pub mod absence;
pub mod clock;
pub mod engine;
pub mod gauge;
pub mod laws;
pub mod looks;
pub mod pet;
pub mod session;
