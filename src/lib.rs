pub mod address;
pub mod engine;
pub mod laws;
pub mod records;
pub mod registry;
pub mod signing;
