pub mod backend;
pub mod config;
pub mod item;
pub mod tick;
