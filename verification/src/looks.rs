//! What the pet shows of itself: which face it makes, and whether there is
//! still a pet to show.

use vstd::prelude::*;

use crate::pet::{Pet, PetModel, PetStatus};

verus! {

/// The faces that the pet can make.
#[derive(Clone, Copy, PartialEq, Eq, Debug, Structural)]
pub enum Face {
    /// Poked at in debug mode.
    Teased,
    Asleep,
    Elderly,
    Adult,
    /// A young pet in low spirits.
    Sad,
    /// A young pet that wants feeding.
    Hungry,
    /// A young pet that wants washing.
    Dirty,
    /// A young pet in high spirits.
    Happy,
    /// A young pet with nothing to report.
    Calm,
}

/// What there is to show.
#[derive(Clone, Copy, PartialEq, Eq, Debug, Structural)]
pub enum Scene {
    /// The pet has run away: only a farewell is left.
    Farewell,
    /// The pet is at home, making this face.
    Home(Face),
}

/// The face of the pet. The debug mode comes before sleep, sleep before age,
/// and only a young pet shows how it feels: sad below 20 mood, else hungry
/// above 60 hunger, else dirty below 40 cleanliness, else happy above 80
/// mood.
pub open spec fn face_of(m: PetModel) -> Face {
    if m.debug_mode {
        Face::Teased
    } else if m.is_sleeping {
        Face::Asleep
    } else if m.age > 50 {
        Face::Elderly
    } else if m.age > 20 {
        Face::Adult
    } else if m.mood < 20 {
        Face::Sad
    } else if m.hunger > 60 {
        Face::Hungry
    } else if m.cleanliness < 40 {
        Face::Dirty
    } else if m.mood > 80 {
        Face::Happy
    } else {
        Face::Calm
    }
}

/// What there is to show of the pet.
pub open spec fn scene_of(m: PetModel) -> Scene {
    if m.status == PetStatus::Abandoned {
        Scene::Farewell
    } else {
        Scene::Home(face_of(m))
    }
}

/// The face that the pet makes.
pub fn face(pet: &Pet) -> (face: Face)
    ensures
        face == face_of(pet@),
{
    if pet.debug_mode {
        Face::Teased
    } else if pet.is_sleeping {
        Face::Asleep
    } else if pet.age > 50 {
        Face::Elderly
    } else if pet.age > 20 {
        Face::Adult
    } else if pet.mood < 20 {
        Face::Sad
    } else if pet.hunger > 60 {
        Face::Hungry
    } else if pet.cleanliness < 40 {
        Face::Dirty
    } else if pet.mood > 80 {
        Face::Happy
    } else {
        Face::Calm
    }
}

/// What to show of the pet.
pub fn scene(pet: &Pet) -> (scene: Scene)
    ensures
        scene == scene_of(pet@),
{
    if pet.status == PetStatus::Abandoned {
        Scene::Farewell
    } else {
        Scene::Home(face(pet))
    }
}

} // verus!
