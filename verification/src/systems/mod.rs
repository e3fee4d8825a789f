pub mod bots;
pub mod fps;
pub mod levels;
pub mod text;
pub mod player_input;
