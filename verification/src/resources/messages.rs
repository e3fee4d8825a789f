use vstd::prelude::*;

verus! {

/// Messages sent between the game's systems that carry no geometry.
///
/// Camera moves, mouse clicks and Rocket damage carry coordinates or
/// amounts of health; the engine side carries those itself.
#[derive(Debug, Clone, Copy, PartialEq, Eq, Structural)]
pub enum GameMessage {
    LevelStarted,
    LevelLoaded,
    ReloadLevels,
    ReloadLevel,
    DeadGoodBot,
    DeadBadBot,
    /// (passengers in the Rocket, passengers needed to take off)
    NewBotInRocket(i32, i32),
    /// (passengers in the Rocket, passengers needed to take off)
    RocketFullEnough(i32, i32),
    RocketDestroyed,
}

} // verus!
