pub mod game;
pub mod level_loading;
pub mod starting;

pub use self::game::{StateEvent, Transition, WindowInput};
pub use self::level_loading::{LevelLoader, LoadingState, LoadingStep};
pub use self::starting::{Completion, StartingState};
