//! Game rules of Fuite, a small 2D platformer where Hums must reach a Rocket
//! while bad Hums hunt them down.
//!
//! The library holds the decisions of the game: the level lifecycle, the
//! state machines of the screens, the bots' choices, the Rocket's boarding,
//! the texts shown to the player and the input edge detection. Everything
//! that is geometry, physics or rendering is done by the engine around it.

pub mod components;
pub mod resources;
pub mod states;
pub mod systems;
