//! Health checks over HTTP with alerting: the verified core.
pub mod text;
pub mod checkpoints;
pub mod config;
pub mod probe;
pub mod clock;
pub mod models;
pub mod checker;
pub mod history;
pub mod api;
pub mod pushplus;
pub mod feishu;
pub mod alert_history;
pub mod alive_ping;
pub mod checkpoint_db;
