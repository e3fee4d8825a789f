use fuite::resources::levels::{clone_levels, LevelInfo, LevelResource, LevelResourceState, LevelsConfig};
use fuite::resources::messages::GameMessage;
use fuite::states::level_loading::{LevelLoader, LoadingState, LoadingStep};
use fuite::systems::levels::{load_level, load_levels, restart_level, unload_level, LevelManager, LevelOrder};

fn info(name: &str) -> LevelInfo {
    LevelInfo {
        name: name.to_string(),
        comment: format!("{} comment", name),
        take_off: format!("{} take off", name),
    }
}

fn config(names: &[&str], start_level: usize) -> LevelsConfig {
    LevelsConfig { start_level, levels: names.iter().map(|n| info(n)).collect() }
}

#[test]
fn default_resource_is_just_created() {
    let r = LevelResource::default();
    assert_eq!(r.state, LevelResourceState::JustCreated);
    assert_eq!(r.current_level, None);
    assert!(r.levels.is_empty());
    assert!(!r.finished);
    let c = LevelsConfig::default();
    assert_eq!(c.start_level, 0);
    assert!(c.levels.is_empty());
}

#[test]
fn clone_levels_copies_every_text() {
    let c = config(&["a", "b"], 0);
    let copy = clone_levels(&c.levels);
    assert_eq!(copy.len(), 2);
    assert_eq!(copy[1].name, "b");
    assert_eq!(copy[1].comment, "b comment");
    assert_eq!(copy[0].take_off, "a take off");
}

#[test]
fn manager_lifecycle_orders() {
    let mut m = LevelManager::new();
    let mut r = LevelResource::default();
    let c = config(&["house"], 0);

    assert_eq!(m.run(r.state, &vec![]), vec![LevelOrder::LoadLevels]);
    load_levels(&mut r, &c);
    assert_eq!(r.state, LevelResourceState::ConfigLoaded);
    assert_eq!(r.current_level, Some(0));
    assert_eq!(r.levels[0].name, "house");

    assert_eq!(m.run(r.state, &vec![]), vec![LevelOrder::LoadLevel]);
    assert!(m.level_just_loaded);
    assert_eq!(load_level(&mut r), 0);
    assert_eq!(r.state, LevelResourceState::Loaded);

    // LevelLoaded is announced once.
    assert_eq!(m.run(r.state, &vec![]), vec![LevelOrder::Send(GameMessage::LevelLoaded)]);
    assert_eq!(m.run(r.state, &vec![]), vec![]);
}

#[test]
fn manager_reads_messages_only_when_loaded() {
    assert!(LevelManager::reads_messages(LevelResourceState::Loaded));
    assert!(!LevelManager::reads_messages(LevelResourceState::JustCreated));
    assert!(!LevelManager::reads_messages(LevelResourceState::ConfigLoaded));
    assert!(!LevelManager::reads_messages(LevelResourceState::ReloadNeeded));
}

#[test]
fn manager_turns_messages_into_orders() {
    let mut m = LevelManager { level_just_loaded: true };
    let msgs = vec![
        GameMessage::DeadGoodBot,
        GameMessage::ReloadLevel,
        GameMessage::LevelStarted,
        GameMessage::ReloadLevels,
    ];
    assert_eq!(
        m.run(LevelResourceState::Loaded, &msgs),
        vec![
            LevelOrder::Send(GameMessage::LevelLoaded),
            LevelOrder::RestartLevel,
            LevelOrder::ReloadLevels,
        ]
    );
    assert!(!m.level_just_loaded);
    // A reload needed leads to a level load.
    assert_eq!(m.run(LevelResourceState::ReloadNeeded, &msgs), vec![LevelOrder::LoadLevel]);
    assert!(m.level_just_loaded);
}

#[test]
fn restart_then_load_restores_the_level() {
    let mut r = LevelResource::default();
    load_levels(&mut r, &config(&["house"], 0));
    load_level(&mut r);
    assert_eq!(restart_level(&mut r), Some(0));
    assert_eq!(r.state, LevelResourceState::ReloadNeeded);
    // Nothing loaded: a second unload changes nothing.
    assert_eq!(unload_level(&mut r), None);
    assert_eq!(r.state, LevelResourceState::ReloadNeeded);
    assert_eq!(load_level(&mut r), 0);
    assert_eq!(r.state, LevelResourceState::Loaded);
    assert_eq!(r.current_level, Some(0));
}

#[test]
fn unload_without_level_does_nothing() {
    let mut r = LevelResource::default();
    assert_eq!(unload_level(&mut r), None);
    assert_eq!(r.state, LevelResourceState::JustCreated);
}

#[test]
fn finish_level_marks_only_finished() {
    let mut r = LevelResource::default();
    r.finish_level();
    assert!(r.finished);
    assert_eq!(r.state, LevelResourceState::JustCreated);
}

#[test]
fn fresh_loading_screen_builds_start_level() {
    let mut loader = LevelLoader::new();
    let mut r = LevelResource::default();
    let c = config(&["one", "two", "three"], 1);
    assert_eq!(loader.update(&mut r, &c), LoadingStep::Wait);
    assert_eq!(loader.loading_state, LoadingState::LevelsLoaded);
    assert_eq!(r.current_level, Some(1));
    assert_eq!(r.levels.len(), 3);
    assert_eq!(loader.update(&mut r, &c), LoadingStep::Wait);
    assert_eq!(loader.loading_state, LoadingState::NeedToLoadLevel);
    assert_eq!(loader.update(&mut r, &c), LoadingStep::BuildLevel(1));
    assert_eq!(loader.loading_state, LoadingState::LevelLoaded);
    assert_eq!(loader.update(&mut r, &c), LoadingStep::PushGame);
    assert_eq!(loader.update(&mut r, &c), LoadingStep::PushGame);
}

#[test]
fn start_level_out_of_list_falls_back_to_first() {
    let mut loader = LevelLoader::new();
    let mut r = LevelResource::default();
    let c = config(&["one", "two"], 7);
    loader.update(&mut r, &c);
    assert_eq!(r.current_level, Some(7));
    loader.update(&mut r, &c);
    assert_eq!(loader.update(&mut r, &c), LoadingStep::BuildLevel(0));
    assert_eq!(r.current_level, Some(0));
}

#[test]
fn take_off_moves_to_next_level_round_the_list() {
    let mut loader = LevelLoader::new();
    let mut r = LevelResource::default();
    let c = config(&["one", "two"], 1);
    for _ in 0..3 {
        loader.update(&mut r, &c);
    }
    r.finish_level();
    assert_eq!(loader.on_resume(&r), 1);
    assert_eq!(loader.loading_state, LoadingState::NeedToLoadLevel);
    // Last level finished: round to the first one, which becomes current.
    assert_eq!(loader.update(&mut r, &c), LoadingStep::BuildLevel(0));
    assert!(!r.finished);
    assert_eq!(r.current_level, Some(0));
    // R restarts the level being played.
    assert_eq!(loader.on_resume(&r), 0);
    assert_eq!(loader.update(&mut r, &c), LoadingStep::BuildLevel(0));
    assert_eq!(r.current_level, Some(0));
    // Finishing it moves on again.
    loader.update(&mut r, &c);
    r.finish_level();
    loader.on_resume(&r);
    assert_eq!(loader.update(&mut r, &c), LoadingStep::BuildLevel(1));
    assert_eq!(r.current_level, Some(1));
}

#[test]
fn loader_load_level_picks_next_when_finished() {
    let mut loader = LevelLoader::new();
    let mut r = LevelResource::default();
    r.levels = config(&["a", "b", "c"], 0).levels;
    r.current_level = Some(0);
    r.finished = true;
    assert_eq!(loader.load_level(&mut r), 1);
    assert!(!r.finished);
    assert_eq!(r.current_level, Some(1));
    assert_eq!(loader.load_level(&mut r), 1);
    // A selection past the list is counted round it.
    r.current_level = Some(4);
    r.finished = true;
    assert_eq!(loader.load_level(&mut r), 2);
    assert_eq!(r.current_level, Some(2));
}

#[test]
fn loader_load_levels_keeps_state_field() {
    let mut loader = LevelLoader::new();
    let mut r = LevelResource::default();
    loader.load_levels(&mut r, &config(&["a"], 0));
    assert_eq!(r.state, LevelResourceState::JustCreated);
    assert_eq!(r.current_level, Some(0));
    assert_eq!(loader.loading_state, LoadingState::NeedToLoadLevels);
}
