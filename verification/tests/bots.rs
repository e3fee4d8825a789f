use fuite::components::bots::CurrentAction;
use fuite::components::rocket::RocketCrew;
use fuite::resources::messages::GameMessage;
use fuite::systems::bots::{
    action_after_fight, click_action, death_message, first_attack_target, is_enemy, seek,
    should_hop, Fighter, MouseButton, Seek, Sighting, Target,
};
use fuite::systems::fps::fps_refresh_due;

fn good(entity: u64) -> Fighter {
    Fighter { entity, bad: false }
}

fn bad(entity: u64) -> Fighter {
    Fighter { entity, bad: true }
}

#[test]
fn enemies_are_other_entities_of_the_other_camp() {
    assert!(is_enemy(&good(1), &bad(2)));
    assert!(is_enemy(&bad(2), &good(1)));
    assert!(!is_enemy(&good(1), &good(2)));
    assert!(!is_enemy(&bad(3), &bad(3)));
    assert!(!is_enemy(&good(4), &Fighter { entity: 4, bad: false }));
}

#[test]
fn attacker_hits_first_enemy_within_reach() {
    let targets = vec![
        Target { fighter: bad(1), within_reach: true },  // itself
        Target { fighter: bad(2), within_reach: true },  // friend
        Target { fighter: good(3), within_reach: false }, // too far
        Target { fighter: good(4), within_reach: true },
        Target { fighter: good(5), within_reach: true },
    ];
    assert_eq!(first_attack_target(&bad(1), &targets), Some(3));
    assert_eq!(first_attack_target(&bad(1), &targets[..3].to_vec()), None);
    assert_eq!(first_attack_target(&bad(1), &vec![]), None);
}

#[test]
fn attacker_without_target_becomes_idle() {
    assert_eq!(action_after_fight(CurrentAction::Attacking, None), CurrentAction::Idle);
    assert_eq!(action_after_fight(CurrentAction::Attacking, Some(0)), CurrentAction::Attacking);
    assert_eq!(action_after_fight(CurrentAction::GoingLeft, None), CurrentAction::GoingLeft);
}

#[test]
fn bad_hum_seeks_nearest_enemy() {
    assert_eq!(seek(None, false), Seek { action: Some(CurrentAction::Idle), record_change: false });
    let close = Sighting { within_reach: true, on_the_left: true };
    assert_eq!(seek(Some(close), true), Seek { action: Some(CurrentAction::Attacking), record_change: false });
    let left = Sighting { within_reach: false, on_the_left: true };
    let right = Sighting { within_reach: false, on_the_left: false };
    assert_eq!(seek(Some(left), false), Seek { action: Some(CurrentAction::GoingLeft), record_change: true });
    assert_eq!(seek(Some(right), false), Seek { action: Some(CurrentAction::GoingRight), record_change: true });
    assert_eq!(seek(Some(right), true), Seek { action: None, record_change: false });
}

#[test]
fn only_idle_resting_hums_hop() {
    assert!(should_hop(true, CurrentAction::Idle, true));
    assert!(!should_hop(false, CurrentAction::Idle, true));
    assert!(!should_hop(true, CurrentAction::GoingLeft, true));
    assert!(!should_hop(true, CurrentAction::Idle, false));
}

#[test]
fn death_is_announced_by_camp() {
    assert_eq!(death_message(true), GameMessage::DeadBadBot);
    assert_eq!(death_message(false), GameMessage::DeadGoodBot);
}

#[test]
fn clicks_send_hums_sideways() {
    assert_eq!(click_action(MouseButton::Left), CurrentAction::GoingLeft);
    assert_eq!(click_action(MouseButton::Right), CurrentAction::GoingRight);
}

#[test]
fn rocket_boarding_counts_and_takes_off() {
    let mut crew = RocketCrew::new(2);
    assert_eq!(crew.passengers, 0);
    let b = crew.board();
    assert_eq!(b.joined, GameMessage::NewBotInRocket(1, 2));
    assert_eq!(b.full_enough, None);
    let b = crew.board();
    assert_eq!(b.joined, GameMessage::NewBotInRocket(2, 2));
    assert_eq!(b.full_enough, Some(GameMessage::RocketFullEnough(2, 2)));
    // Full stays full.
    let b = crew.board();
    assert_eq!(b.full_enough, Some(GameMessage::RocketFullEnough(3, 2)));
    assert_eq!(crew.passengers, 3);
    assert_eq!(crew.min_passengers, 2);
}

#[test]
fn rocket_needing_nobody_takes_off_at_first_boarding() {
    let mut crew = RocketCrew::new(0);
    assert_eq!(crew.board().full_enough, Some(GameMessage::RocketFullEnough(1, 0)));
}

#[test]
fn fps_text_refreshes_every_twenty_frames() {
    assert!(fps_refresh_due(0));
    assert!(!fps_refresh_due(19));
    assert!(fps_refresh_due(20));
    assert!(!fps_refresh_due(21));
    assert!(fps_refresh_due(400));
}
