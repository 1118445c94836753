pub mod handlers;
pub mod utils;
