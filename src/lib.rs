pub mod config;
pub mod error;
pub mod events;
pub mod frame;
pub mod startup;
