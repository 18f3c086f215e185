pub mod app;
pub mod board;
pub mod db;
pub mod error;
pub mod migrator;
pub mod task;
pub mod time;
pub mod utils;
