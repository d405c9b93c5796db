pub mod category;
pub mod chrono;
pub mod game;
pub mod manager;
pub mod span;
pub mod split;
