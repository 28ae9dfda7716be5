//! A session with the pet, one event at a time.
//!
//! The session waits for the next second or the next key, hands it to
//! [`Session::handle`], and does what the answer says. Whoever runs the
//! session keeps the terminal; the session keeps the rules.

use vstd::prelude::*;

use crate::engine::{after_tick, tick};
use crate::gauge::{lowered, raised};
use crate::pet::{Pet, PetModel, PetStatus};

verus! {

/// The step by which a key of the debug mode moves a gauge.
pub const DEBUG_STEP: u8 = 10;

/// A key, as far as the session tells keys apart.
#[derive(Clone, Copy, PartialEq, Eq, Debug)]
pub enum Key {
    Char(char),
    Esc,
    Other,
}

/// One key event.
#[derive(Clone, Copy, PartialEq, Eq, Debug)]
pub struct KeyPress {
    pub key: Key,
    /// Control, and no other modifier, was held.
    pub control: bool,
    /// The key went down (it was not released, nor is it repeating).
    pub pressed: bool,
}

/// What a session waits for.
#[derive(Clone, Copy, PartialEq, Eq, Debug)]
pub enum Event {
    /// One more second has passed.
    Tick,
    Key(KeyPress),
}

/// What the session asks of whoever runs it.
#[derive(Clone, Copy, PartialEq, Eq, Debug, Structural)]
pub enum Action {
    /// Wait for the next event.
    Continue,
    /// Leave the session.
    Quit,
    /// Give the terminal back until the process is resumed.
    Suspend,
}

#[derive(Debug)]
pub struct Session {
    /// The seconds counted since the session began.
    pub seconds_elapsed: u64,
    /// The characters typed since the keeper last pressed a key that is no
    /// character, or last entered the debug mode.
    pub input_buffer: Vec<char>,
}

/// A session in mathematical terms.
pub struct SessionModel {
    pub seconds_elapsed: int,
    pub input_buffer: Seq<char>,
}

impl View for Session {
    type V = SessionModel;

    open spec fn view(&self) -> SessionModel {
        SessionModel { seconds_elapsed: self.seconds_elapsed as int, input_buffer: self.input_buffer@ }
    }
}

/// The word that opens the debug mode.
pub open spec fn debug_word() -> Seq<char> {
    seq!['d', 'e', 'b', 'u', 'g']
}

/// Whether the last characters typed spell the word that opens the debug
/// mode.
pub open spec fn ends_with_debug(typed: Seq<char>) -> bool {
    typed.len() >= 5 && typed.subrange(typed.len() - 5, typed.len() as int) == debug_word()
}

/// `q` quits, and so does `c` with control.
pub open spec fn is_quit(press: KeyPress) -> bool {
    press.key == Key::Char('q') || (press.key == Key::Char('c') && press.control)
}

/// `z` with control suspends.
pub open spec fn is_suspend(press: KeyPress) -> bool {
    press.key == Key::Char('z') && press.control
}

/// The pet after a key was pressed in debug mode: `h` and `j` move hunger up
/// and down by 10, `m` and `n` the mood, `c` and `v` cleanliness; escape
/// leaves the debug mode; any other key does nothing.
pub open spec fn after_debug_key(m: PetModel, key: Key) -> PetModel {
    match key {
        Key::Char(c) => if c == 'h' {
            PetModel { hunger: raised(m.hunger, 10), ..m }
        } else if c == 'j' {
            PetModel { hunger: lowered(m.hunger, 10), ..m }
        } else if c == 'm' {
            PetModel { mood: raised(m.mood, 10), ..m }
        } else if c == 'n' {
            PetModel { mood: lowered(m.mood, 10), ..m }
        } else if c == 'c' {
            PetModel { cleanliness: raised(m.cleanliness, 10), ..m }
        } else if c == 'v' {
            PetModel { cleanliness: lowered(m.cleanliness, 10), ..m }
        } else {
            m
        },
        Key::Esc => PetModel { debug_mode: false, ..m },
        Key::Other => m,
    }
}

/// A pet fed by its keeper: an elderly one loses 2 health over it.
pub open spec fn after_feeding(m: PetModel) -> PetModel {
    let fed = m.fed();
    if fed.is_elderly() {
        PetModel { health: lowered(fed.health, 2), ..fed }
    } else {
        fed
    }
}

/// A pet washed by its keeper: an elderly one loses 5 mood over it.
pub open spec fn after_washing(m: PetModel) -> PetModel {
    let washed = m.washed();
    if washed.is_elderly() {
        PetModel { mood: lowered(washed.mood, 5), ..washed }
    } else {
        washed
    }
}

/// A pet played with by its keeper: an elderly one loses 3 health over it.
pub open spec fn after_playing(m: PetModel) -> PetModel {
    let played = m.played();
    if played.is_elderly() {
        PetModel { health: lowered(played.health, 3), ..played }
    } else {
        played
    }
}

/// The pet after a key was pressed in normal mode: `f` feeds, `w` washes,
/// `p` plays, `s` puts the pet to sleep or wakes it. A sleeping pet answers to
/// `s` alone.
pub open spec fn after_care_key(m: PetModel, key: Key) -> PetModel {
    if m.is_sleeping && key != Key::Char('s') {
        m
    } else {
        match key {
            Key::Char(c) => if c == 'f' {
                after_feeding(m)
            } else if c == 'w' {
                after_washing(m)
            } else if c == 'p' {
                after_playing(m)
            } else if c == 's' {
                m.sleep_toggled()
            } else {
                m
            },
            _ => m,
        }
    }
}

/// Whether `key`, typed after `typed`, completes the word that opens the
/// debug mode.
pub open spec fn completes_debug_word(typed: Seq<char>, key: Key) -> bool {
    match key {
        Key::Char(c) => ends_with_debug(typed.push(c)),
        _ => false,
    }
}

/// What has been typed once `key` follows `typed`: a character is added, any
/// other key forgets everything, and so does the completed word.
pub open spec fn after_typing(typed: Seq<char>, key: Key) -> Seq<char> {
    match key {
        Key::Char(c) => if ends_with_debug(typed.push(c)) {
            Seq::empty()
        } else {
            typed.push(c)
        },
        _ => Seq::empty(),
    }
}

/// The session, the pet and what to do next after one event.
///
/// An abandoned pet is frozen: time does not touch it and the only key that
/// counts is one that quits. Otherwise a tick adds a second to the session
/// and moves the pet through it. A key counts when it goes down: it quits,
/// suspends, or is read by the mode that the pet is in.
pub open spec fn after_event(s: SessionModel, m: PetModel, event: Event) -> (
    SessionModel,
    PetModel,
    Action,
) {
    match event {
        Event::Tick => if m.status == PetStatus::Abandoned {
            (s, m, Action::Continue)
        } else {
            let counted = if s.seconds_elapsed < u64::MAX {
                s.seconds_elapsed + 1
            } else {
                s.seconds_elapsed
            };
            (
                SessionModel { seconds_elapsed: counted, ..s },
                after_tick(m, counted),
                Action::Continue,
            )
        },
        Event::Key(press) => if m.status == PetStatus::Abandoned {
            (
                s,
                m,
                if is_quit(press) {
                    Action::Quit
                } else {
                    Action::Continue
                },
            )
        } else if !press.pressed {
            (s, m, Action::Continue)
        } else if is_quit(press) {
            (s, m, Action::Quit)
        } else if is_suspend(press) {
            (s, m, Action::Suspend)
        } else if m.debug_mode {
            (
                if press.key == Key::Esc {
                    SessionModel { input_buffer: Seq::empty(), ..s }
                } else {
                    s
                },
                after_debug_key(m, press.key),
                Action::Continue,
            )
        } else {
            (
                SessionModel { input_buffer: after_typing(s.input_buffer, press.key), ..s },
                after_care_key(
                    if completes_debug_word(s.input_buffer, press.key) {
                        PetModel { debug_mode: true, ..m }
                    } else {
                        m
                    },
                    press.key,
                ),
                Action::Continue,
            )
        },
    }
}

/// Whether the key is the character `c`.
fn is_char(key: Key, c: char) -> (same: bool)
    ensures
        same == (key == Key::Char(c)),
{
    match key {
        Key::Char(d) => d == c,
        _ => false,
    }
}

/// Whether what was typed ends with the word that opens the debug mode.
pub fn spells_debug(typed: &Vec<char>) -> (spelled: bool)
    ensures
        spelled == ends_with_debug(typed@),
{
    let n = typed.len();
    if n < 5 {
        return false;
    }
    let spelled = typed[n - 5] == 'd' && typed[n - 4] == 'e' && typed[n - 3] == 'b' && typed[n
        - 2] == 'u' && typed[n - 1] == 'g';
    proof {
        let tail = typed@.subrange(n - 5, n as int);
        if spelled {
            assert(tail =~= debug_word());
        } else {
            assert(tail[0] == typed@[n - 5]);
            assert(tail[1] == typed@[n - 4]);
            assert(tail[2] == typed@[n - 3]);
            assert(tail[3] == typed@[n - 2]);
            assert(tail[4] == typed@[n - 1]);
        }
    }
    spelled
}

/// Feeds the pet as its keeper does.
pub fn feed_pet(pet: &mut Pet)
    ensures
        final(pet)@ == after_feeding(old(pet)@),
{
    pet.feed();
    if pet.is_elderly() {
        pet.health = pet.health.saturating_sub(2);
    }
}

/// Washes the pet as its keeper does.
pub fn wash_pet(pet: &mut Pet)
    ensures
        final(pet)@ == after_washing(old(pet)@),
{
    pet.wash();
    if pet.is_elderly() {
        pet.mood = pet.mood.saturating_sub(5);
    }
}

/// Plays with the pet as its keeper does.
pub fn play_with_pet(pet: &mut Pet)
    ensures
        final(pet)@ == after_playing(old(pet)@),
{
    pet.play();
    if pet.is_elderly() {
        pet.health = pet.health.saturating_sub(3);
    }
}

/// Reads a key in debug mode.
pub fn press_debug_key(pet: &mut Pet, key: Key)
    ensures
        final(pet)@ == after_debug_key(old(pet)@, key),
{
    match key {
        Key::Char(c) => {
            if c == 'h' {
                pet.hunger = pet.hunger.saturating_add(DEBUG_STEP);
            } else if c == 'j' {
                pet.hunger = pet.hunger.saturating_sub(DEBUG_STEP);
            } else if c == 'm' {
                pet.mood = pet.mood.saturating_add(DEBUG_STEP);
            } else if c == 'n' {
                pet.mood = pet.mood.saturating_sub(DEBUG_STEP);
            } else if c == 'c' {
                pet.cleanliness = pet.cleanliness.saturating_add(DEBUG_STEP);
            } else if c == 'v' {
                pet.cleanliness = pet.cleanliness.saturating_sub(DEBUG_STEP);
            }
        },
        Key::Esc => {
            pet.debug_mode = false;
        },
        Key::Other => {},
    }
}

/// Reads a key in normal mode.
pub fn press_care_key(pet: &mut Pet, key: Key)
    ensures
        final(pet)@ == after_care_key(old(pet)@, key),
{
    if pet.is_sleeping && !is_char(key, 's') {
        return ;
    }
    match key {
        Key::Char(c) => {
            if c == 'f' {
                feed_pet(pet);
            } else if c == 'w' {
                wash_pet(pet);
            } else if c == 'p' {
                play_with_pet(pet);
            } else if c == 's' {
                pet.sleep();
            }
        },
        _ => {},
    }
}

impl Session {
    /// A session that has just begun.
    pub fn new() -> (session: Session)
        ensures
            session@ == (SessionModel { seconds_elapsed: 0, input_buffer: Seq::empty() }),
    {
        Session { seconds_elapsed: 0, input_buffer: Vec::new() }
    }

    /// Takes note of a key typed in normal mode, and says whether it
    /// completes the word that opens the debug mode.
    fn type_key(&mut self, key: Key) -> (opened: bool)
        ensures
            opened == completes_debug_word(old(self)@.input_buffer, key),
            final(self)@ == (SessionModel {
                input_buffer: after_typing(old(self)@.input_buffer, key),
                ..old(self)@
            }),
    {
        match key {
            Key::Char(c) => {
                self.input_buffer.push(c);
                if spells_debug(&self.input_buffer) {
                    self.input_buffer.clear();
                    true
                } else {
                    false
                }
            },
            _ => {
                self.input_buffer.clear();
                false
            },
        }
    }

    /// Handles one event, and says what to do next.
    pub fn handle(&mut self, pet: &mut Pet, event: Event) -> (action: Action)
        ensures
            (final(self)@, final(pet)@, action) == after_event(old(self)@, old(pet)@, event),
    {
        match event {
            Event::Tick => {
                if pet.status != PetStatus::Abandoned {
                    if self.seconds_elapsed < u64::MAX {
                        self.seconds_elapsed = self.seconds_elapsed + 1;
                    }
                    tick(pet, self.seconds_elapsed);
                }
                Action::Continue
            },
            Event::Key(press) => {
                let quits = is_char(press.key, 'q') || (is_char(press.key, 'c') && press.control);
                if pet.status == PetStatus::Abandoned {
                    if quits {
                        Action::Quit
                    } else {
                        Action::Continue
                    }
                } else if !press.pressed {
                    Action::Continue
                } else if quits {
                    Action::Quit
                } else if is_char(press.key, 'z') && press.control {
                    Action::Suspend
                } else if pet.debug_mode {
                    press_debug_key(pet, press.key);
                    match press.key {
                        Key::Esc => {
                            self.input_buffer.clear();
                        },
                        _ => {},
                    }
                    Action::Continue
                } else {
                    if self.type_key(press.key) {
                        pet.debug_mode = true;
                    }
                    press_care_key(pet, press.key);
                    Action::Continue
                }
            },
        }
    }
}

} // verus!
