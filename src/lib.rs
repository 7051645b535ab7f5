pub mod hop;
pub mod mapping;
pub mod tracker;
pub mod utils;
