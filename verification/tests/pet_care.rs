use petty::pet::{Pet, PetStatus};

#[test]
fn test_pet_creation() {
    let pet = Pet::new("TestPet".to_string());
    assert_eq!(pet.name, "TestPet");
    assert_eq!(pet.age, 0);
    assert_eq!(pet.health, 100);
}

#[test]
fn test_life_stage() {
    let mut pet = Pet::new("TestPet".to_string());

    pet.age = 10;
    assert_eq!(pet.life_stage(), "young");

    pet.age = 30;
    assert_eq!(pet.life_stage(), "adult");

    pet.age = 60;
    assert_eq!(pet.life_stage(), "elderly");
}

#[test]
fn test_feed() {
    let mut pet = Pet::new("TestPet".to_string());
    pet.hunger = 50;
    pet.feed();
    assert_eq!(pet.hunger, 30);
}

#[test]
fn test_wash() {
    let mut pet = Pet::new("TestPet".to_string());
    pet.cleanliness = 50;
    pet.wash();
    assert_eq!(pet.cleanliness, 100);
}

#[test]
fn test_play() {
    let mut pet = Pet::new("TestPet".to_string());
    let initial_hunger = pet.hunger;
    let initial_mood = pet.mood;
    pet.play();
    assert_eq!(pet.mood, initial_mood + 10);
    assert_eq!(pet.hunger, initial_hunger + 5);
}

#[test]
fn test_sleep() {
    let mut pet = Pet::new("TestPet".to_string());
    assert!(!pet.is_sleeping);
    pet.sleep();
    assert!(pet.is_sleeping);
    pet.sleep();
    assert!(!pet.is_sleeping);
}

#[test]
fn test_health_decline_rules() {
    let mut pet = Pet::new("TestPet".to_string());
    pet.health = 100;

    pet.hunger = 95;
    assert!(pet.hunger > 90);

    pet.hunger = 85;
    assert!(pet.hunger > 80);
    assert!(pet.hunger <= 90);

    pet.hunger = 75;
    assert!(pet.hunger > 70);
    assert!(pet.hunger <= 80);

    pet.cleanliness = 5;
    assert!(pet.cleanliness < 10);

    pet.cleanliness = 15;
    assert!(pet.cleanliness < 20);
    assert!(pet.cleanliness >= 10);

    pet.cleanliness = 25;
    assert!(pet.cleanliness < 30);
    assert!(pet.cleanliness >= 20);

    pet.mood = 5;
    assert!(pet.mood < 10);

    pet.mood = 15;
    assert!(pet.mood < 20);
    assert!(pet.mood >= 10);

    pet.mood = 25;
    assert!(pet.mood < 30);
    assert!(pet.mood >= 20);
}

#[test]
fn test_sickness_and_death() {
    let mut pet = Pet::new("TestPet".to_string());

    assert_eq!(pet.status, PetStatus::Alive);

    pet.health = 15;
    if pet.health < 20 && pet.status == PetStatus::Alive {
        pet.status = PetStatus::Sick;
    }
    assert_eq!(pet.status, PetStatus::Sick);

    pet.health = 0;
    assert_eq!(pet.health, 0);
}

#[test]
fn test_pet_death_handling() {
    let mut pet = Pet::new("TestPet".to_string());

    pet.health = 0;

    assert_eq!(pet.health, 0);

    let should_delete_state = pet.health == 0;
    assert!(should_delete_state);
}

#[test]
fn test_apply_elapsed_time_effects() {
    let mut pet = Pet::new("TestPet".to_string());
    pet.health = 100;
    pet.hunger = 50;
    pet.cleanliness = 50;
    pet.mood = 50;

    let intervals = 10 / 3;
    for _ in 0..intervals {
        pet.hunger = pet.hunger.saturating_add(2);
        pet.cleanliness = pet.cleanliness.saturating_sub(3);
    }

    let mood_decline = 10 * 2;
    pet.mood = pet.mood.saturating_sub(mood_decline as u8);

    assert_eq!(pet.hunger, 56);
    assert_eq!(pet.cleanliness, 41);
    assert_eq!(pet.mood, 30);
}

#[test]
fn test_train() {
    let mut pet = Pet::new("TrainPet".to_string());
    let initial_health = pet.health;
    let initial_mood = pet.mood;
    let initial_hunger = pet.hunger;

    pet.train();

    assert_eq!(pet.health, initial_health + 3);
    assert_eq!(pet.mood, initial_mood + 5);
    assert_eq!(pet.hunger, initial_hunger + 10);
}

#[test]
fn test_custom_name() {
    let pet = Pet::new("Fluffy".to_string());
    assert_eq!(pet.name, "Fluffy");
}

#[test]
fn new_pet_has_the_default_gauges() {
    let pet = Pet::new("Momo".to_string());
    assert_eq!(pet.name, "Momo");
    assert_eq!(pet.age, 0);
    assert_eq!(pet.health, 100);
    assert_eq!(pet.hunger, 0);
    assert_eq!(pet.cleanliness, 100);
    assert_eq!(pet.mood, 100);
    assert!(!pet.is_sleeping);
    assert_eq!(pet.status, PetStatus::Alive);
    assert!(!pet.debug_mode);
}

#[test]
fn pet_is_born_at_the_instant_given() {
    let born = chrono::DateTime::from_timestamp(1_700_000_000, 123).unwrap().naive_utc();
    let pet = Pet::born_at("Momo".to_string(), born);
    assert_eq!(pet.name, "Momo");
    assert_eq!(pet.last_seen, born);
    assert_eq!(pet.age, 0);
    assert_eq!(pet.health, 100);
    assert_eq!(pet.hunger, 0);
    assert_eq!(pet.cleanliness, 100);
    assert_eq!(pet.mood, 100);
    assert!(!pet.is_sleeping);
    assert_eq!(pet.status, PetStatus::Alive);
    assert!(!pet.debug_mode);
}

#[test]
fn name_is_taken_as_it_is() {
    let born = chrono::DateTime::from_timestamp(0, 0).unwrap().naive_utc();
    assert_eq!(Pet::born_at(String::new(), born).name, "");
    assert_eq!(Pet::born_at("  Momo ".to_string(), born).name, "  Momo ");
    assert_eq!(Pet::new(String::new()).name, "");
}

#[test]
fn new_pet_is_seen_now() {
    let before = chrono::Utc::now().naive_utc();
    let pet = Pet::new("Momo".to_string());
    let after = chrono::Utc::now().naive_utc();
    assert!(before <= pet.last_seen);
    assert!(pet.last_seen <= after);
}

#[test]
fn feeding_stills_hunger_and_heals() {
    let mut pet = Pet::new("Momo".to_string());
    pet.hunger = 50;
    pet.health = 40;
    pet.feed();
    assert_eq!(pet.hunger, 30);
    assert_eq!(pet.health, 45);
}

#[test]
fn feeding_stops_at_no_hunger() {
    let mut pet = Pet::new("Momo".to_string());
    pet.hunger = 5;
    pet.feed();
    assert_eq!(pet.hunger, 0);
}

#[test]
fn feeding_stops_at_full_health() {
    let mut pet = Pet::new("Momo".to_string());
    pet.health = 253;
    pet.feed();
    assert_eq!(pet.health, 255);
}

#[test]
fn washing_resets_whatever_was_there() {
    let mut pet = Pet::new("Momo".to_string());
    pet.cleanliness = 200;
    pet.wash();
    assert_eq!(pet.cleanliness, 100);
    pet.cleanliness = 0;
    pet.wash();
    assert_eq!(pet.cleanliness, 100);
}

#[test]
fn playing_saturates() {
    let mut pet = Pet::new("Momo".to_string());
    pet.mood = 250;
    pet.hunger = 252;
    pet.play();
    assert_eq!(pet.mood, 255);
    assert_eq!(pet.hunger, 255);
}

#[test]
fn training_saturates() {
    let mut pet = Pet::new("Momo".to_string());
    pet.health = 254;
    pet.mood = 251;
    pet.hunger = 250;
    pet.train();
    assert_eq!(pet.health, 255);
    assert_eq!(pet.mood, 255);
    assert_eq!(pet.hunger, 255);
}

#[test]
fn care_leaves_the_rest_alone() {
    let mut pet = Pet::new("Momo".to_string());
    pet.age = 7;
    let seen = pet.last_seen;
    pet.feed();
    pet.wash();
    pet.play();
    pet.train();
    assert_eq!(pet.name, "Momo");
    assert_eq!(pet.age, 7);
    assert_eq!(pet.last_seen, seen);
    assert_eq!(pet.status, PetStatus::Alive);
    assert!(!pet.is_sleeping);
    assert!(!pet.debug_mode);
}

#[test]
fn life_stage_changes_after_20_and_after_50() {
    let mut pet = Pet::new("Momo".to_string());
    pet.age = 20;
    assert_eq!(pet.life_stage(), "young");
    assert!(!pet.is_elderly());
    pet.age = 21;
    assert_eq!(pet.life_stage(), "adult");
    pet.age = 50;
    assert_eq!(pet.life_stage(), "adult");
    assert!(!pet.is_elderly());
    pet.age = 51;
    assert_eq!(pet.life_stage(), "elderly");
    assert!(pet.is_elderly());
    pet.age = 0;
    assert_eq!(pet.life_stage(), "young");
    pet.age = u32::MAX;
    assert_eq!(pet.life_stage(), "elderly");
}
