pub mod config;
pub mod error;
pub mod models;
pub mod auth;
pub mod auth_service;
pub mod node_client;
pub mod servers;
