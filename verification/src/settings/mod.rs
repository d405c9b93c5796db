pub mod columns;
pub mod config;
pub mod shortcut;
