pub mod client;
pub mod service;
