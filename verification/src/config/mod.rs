pub mod constants;
pub mod models;
pub mod utils;
