pub mod position;
pub mod manager;
