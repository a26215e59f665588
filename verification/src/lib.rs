pub mod actions;
pub mod auth;
pub mod auth_handler;
pub mod clock;
pub mod global_handler;
pub mod json;
pub mod laws;
pub mod settings;
pub mod text;
pub mod twitch_api;
pub mod viewers;
