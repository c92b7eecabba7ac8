//! The worker's side: configuration, subscriptions and the polling engine.

pub mod client;
pub mod config;
pub mod dispatch;
pub mod subscription;
