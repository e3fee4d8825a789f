pub mod bots;
pub mod physics;
pub mod rocket;

pub use self::bots::{BadBot, CurrentAction, Dead, GoodBot};
pub use self::physics::Collider;
pub use self::rocket::{RocketCrew, RocketTakeOff};
