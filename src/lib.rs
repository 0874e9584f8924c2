pub mod config;
pub mod connections;
pub mod fifo;
pub mod records;
pub mod session;
pub mod signal;
pub mod store;
pub mod strategy;
