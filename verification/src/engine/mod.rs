pub mod exe;
pub mod workers;
