pub mod config;
pub mod models;
pub mod poller;
pub mod registry;
pub mod discovery;
pub mod store;
