use vstd::prelude::*;

verus! {

/// Marks a Hum that died: it no longer collides and drifts out of the level.
#[derive(Debug, Clone, Copy, PartialEq, Eq, Structural)]
pub struct Dead;

/// Marks a Hum that the player tries to bring to the Rocket.
#[derive(Debug, Clone, Copy, PartialEq, Eq, Structural)]
pub struct GoodBot;

/// Marks a Hum that hunts the good ones.
#[derive(Debug, Clone, Copy, PartialEq, Eq, Structural)]
pub struct BadBot;

/// What a Hum is currently doing.
#[derive(Debug, Clone, Copy, PartialEq, Eq, Structural)]
pub enum CurrentAction {
    /// Doing nothing in particular (a free Hum, ready to hop).
    Idle,
    Sleeping,
    GoingLeft,
    GoingRight,
    Attacking,
}

} // verus!
