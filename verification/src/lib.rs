pub mod codec;
pub mod config;
pub mod controller;
pub mod error;
pub mod ipc;
pub mod itunes;
pub mod models;
pub mod osascript;
pub mod presence;
pub mod runner;
pub mod setup;
pub mod utils;
