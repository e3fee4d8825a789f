use fuite::resources::levels::{LevelInfo, LevelResource};
use fuite::resources::messages::GameMessage;
use fuite::systems::text::{format_i32, message_reads_level, joke_text, message_texts, new_joke, passengers_text, texts_for_message};

const ENDINGS: [&str; 6] = [
    " went to meet his creator",
    " learned to fly",
    ": SSSPPPAAAAAAACCCEEEEE",
    ": To infinity and beyond!",
    ": Look! Look! I can fly! I can fly!",
    ": Bye, losers!.",
];

fn level() -> LevelResource {
    let mut r = LevelResource::default();
    r.levels = vec![
        LevelInfo { name: "Nice and easy".into(), comment: "Bring them home".into(), take_off: "Go go go!".into() },
        LevelInfo { name: "Hard core".into(), comment: "Sacrifices must be made".into(), take_off: "Lift off!".into() },
    ];
    r.current_level = Some(1);
    r
}

#[test]
fn integers_are_written_in_decimal() {
    for n in [0, 7, 10, 42, 99, 100, 1234567, -1, -10, -305, i32::MAX, i32::MIN] {
        assert_eq!(format_i32(n), n.to_string());
    }
    assert_eq!(format_i32(i32::MIN), "-2147483648");
}

#[test]
fn decimal_roundtrip_on_values() {
    for n in [-99999, -1, 0, 5, 10, 65536] {
        assert_eq!(format_i32(n).parse::<i32>().unwrap(), n);
    }
}

#[test]
fn passengers_are_counted_over_needed() {
    assert_eq!(passengers_text(3, 5), "Passengers: 3/5");
    assert_eq!(passengers_text(12, 10), "Passengers: 12/10");
    assert_eq!(passengers_text(-1, 0), "Passengers: -1/0");
}

#[test]
fn jokes_by_number() {
    assert_eq!(joke_text("Bob", 0), "Bob went to meet his creator");
    assert_eq!(joke_text("Bob", 1), "Bob learned to fly");
    assert_eq!(joke_text("Bob", 2), "Bob: SSSPPPAAAAAAACCCEEEEE");
    assert_eq!(joke_text("Bob", 3), "Bob: To infinity and beyond!");
    assert_eq!(joke_text("Bob", 4), "Bob: Look! Look! I can fly! I can fly!");
    assert_eq!(joke_text("Bob", 5), "Bob: Bye, losers!.");
    assert_eq!(joke_text("Bob", 17), "Bob: Bye, losers!.");
    assert_eq!(joke_text("Bob", -3), "Bob: Bye, losers!.");
}

#[test]
fn random_joke_is_one_of_six_about_the_hum() {
    for _ in 0..200 {
        let joke = new_joke("A nice Hum");
        assert!(joke.starts_with("A nice Hum"));
        let ending = &joke["A nice Hum".len()..];
        assert!(ENDINGS.contains(&ending), "unexpected joke {:?}", joke);
    }
}

#[test]
fn level_start_shows_level_texts() {
    let u = message_texts(&GameMessage::LevelStarted, &level(), 0);
    assert_eq!(u.name.as_deref(), Some("Hard core"));
    assert_eq!(u.comment.as_deref(), Some("Sacrifices must be made"));
    assert_eq!(u.passengers.as_deref(), Some("Passengers: 0/?"));
    assert_eq!(u.health.as_deref(), Some("Health: N/A"));
}

#[test]
fn dead_hums_get_a_joke() {
    let u = message_texts(&GameMessage::DeadGoodBot, &LevelResource::default(), 1);
    assert_eq!(u.comment.as_deref(), Some("A nice Hum learned to fly"));
    assert!(u.name.is_none() && u.passengers.is_none() && u.health.is_none());
    let u = message_texts(&GameMessage::DeadBadBot, &LevelResource::default(), 3);
    assert_eq!(u.comment.as_deref(), Some("A bad Hum: To infinity and beyond!"));
    let u = texts_for_message(&GameMessage::DeadBadBot, &LevelResource::default());
    let comment = u.comment.unwrap();
    assert!(comment.starts_with("A bad Hum"));
    assert!(ENDINGS.contains(&&comment["A bad Hum".len()..]));
}

#[test]
fn rocket_messages_update_counts() {
    let u = message_texts(&GameMessage::NewBotInRocket(2, 4), &LevelResource::default(), 0);
    assert_eq!(u.comment.as_deref(), Some("A new Hum joined the Rocket!"));
    assert_eq!(u.passengers.as_deref(), Some("Passengers: 2/4"));
    assert!(u.name.is_none() && u.health.is_none());
    let u = message_texts(&GameMessage::RocketFullEnough(4, 4), &level(), 0);
    assert_eq!(u.comment.as_deref(), Some("Lift off!"));
    assert_eq!(u.passengers.as_deref(), Some("Passengers: 4/4"));
}

#[test]
fn destroyed_rocket_texts() {
    let u = message_texts(&GameMessage::RocketDestroyed, &LevelResource::default(), 0);
    assert_eq!(u.name.as_deref(), Some("The Rocket is dead!"));
    assert_eq!(u.comment.as_deref(), Some("Press R"));
    assert_eq!(u.passengers.as_deref(), Some("Passengers: DEAD"));
    assert_eq!(u.health.as_deref(), Some("Health: KO"));
}

#[test]
fn other_messages_change_no_text() {
    for m in [GameMessage::LevelLoaded, GameMessage::ReloadLevel, GameMessage::ReloadLevels] {
        let u = message_texts(&m, &LevelResource::default(), 0);
        assert!(u.name.is_none() && u.comment.is_none() && u.passengers.is_none() && u.health.is_none());
    }
}

#[test]
fn level_reading_messages() {
    assert!(message_reads_level(&GameMessage::LevelStarted));
    assert!(message_reads_level(&GameMessage::RocketFullEnough(1, 2)));
    assert!(!message_reads_level(&GameMessage::NewBotInRocket(1, 2)));
    assert!(!message_reads_level(&GameMessage::DeadGoodBot));
    let mut r = level();
    assert!(r.has_valid_current());
    r.current_level = Some(2);
    assert!(!r.has_valid_current());
    r.current_level = None;
    assert!(!r.has_valid_current());
}

#[test]
fn non_joke_messages_are_exact() {
    let u = texts_for_message(&GameMessage::NewBotInRocket(1, 3), &LevelResource::default());
    assert_eq!(u.passengers.as_deref(), Some("Passengers: 1/3"));
    assert_eq!(u.comment.as_deref(), Some("A new Hum joined the Rocket!"));
}
