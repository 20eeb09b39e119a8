pub mod error;
pub mod paths;
pub mod models;
pub mod config;
pub mod game_presets;
pub mod docker;
pub mod state;
pub mod manager;
pub mod auth;
pub mod routes;
pub mod listing;
