pub mod auth;
pub mod client;
pub mod config;
pub mod controllers;
pub mod core_api;
pub mod errors;
pub mod events;
pub mod functional;
pub mod ids;
pub mod models;
pub mod routes;
pub mod text;
