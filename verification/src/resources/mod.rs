pub mod levels;
pub mod messages;

pub use self::levels::{LevelInfo, LevelInfoView, LevelResource, LevelResourceState, LevelsConfig};
pub use self::messages::GameMessage;
