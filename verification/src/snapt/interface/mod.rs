pub mod primary;
