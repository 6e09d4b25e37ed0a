pub mod error;
pub mod hex;
pub mod models;
pub mod normalize;
pub mod responses;
pub mod walker;
pub mod poller;
pub mod publisher;
pub mod client;
