pub mod control;
pub mod app;
pub mod text;
pub mod registration;
pub mod interface;
