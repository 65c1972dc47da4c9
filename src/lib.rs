pub mod browser;
pub mod config;
pub mod errors;
pub mod player;
pub mod session;
pub mod station;
pub mod text;
pub mod theorems;
pub mod version;
