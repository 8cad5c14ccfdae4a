pub mod domain;
pub mod streaks;
pub mod players;
mod external;
pub mod game;
pub mod laws;
