pub mod api;
pub mod config;
pub mod engine;
pub mod exe;
pub mod languages;
pub mod loader;
pub mod models;
pub mod pattern;
pub mod registry;
pub mod runner;
pub mod text;
pub mod utils;
pub mod workers;
