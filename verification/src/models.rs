//! The records that the service stores and exchanges.
use vstd::prelude::*;

verus! {

/// A configured health check and what its last probe found.
#[derive(Debug, Clone)]
pub struct HealthCheck {
    pub id: i64,
    pub name: String,
    pub url: String,
    pub method: String,
    pub expected_status: i64,
    pub interval_secs: i64,
    pub enabled: bool,
    pub last_checked_at: Option<String>,
    pub last_status: Option<String>,
    pub last_response_ms: Option<i64>,
    pub last_error: Option<String>,
    pub created_at: String,
}

/// A request to create a health check.
#[derive(Debug)]
pub struct CreateHealthCheck {
    pub name: String,
    pub url: String,
    pub method: Option<String>,
    pub expected_status: Option<i64>,
    pub interval_secs: Option<i64>,
    pub enabled: Option<bool>,
    pub checkpoints: Option<Vec<CheckpointInput>>,
}

/// A request to change some fields of a health check.
#[derive(Debug)]
pub struct UpdateHealthCheck {
    pub name: Option<String>,
    pub url: Option<String>,
    pub method: Option<String>,
    pub expected_status: Option<i64>,
    pub interval_secs: Option<i64>,
    pub enabled: Option<bool>,
    pub checkpoints: Option<Vec<CheckpointInput>>,
}

/// The stored Feishu alert settings.
#[derive(Debug, Clone)]
pub struct FeishuConfig {
    pub id: i64,
    pub webhook_url: String,
    pub enabled: bool,
    pub alert_cooldown_secs: i64,
}

/// A request to change the Feishu alert settings.
#[derive(Debug)]
pub struct UpdateFeishuConfig {
    pub webhook_url: Option<String>,
    pub enabled: Option<bool>,
    pub alert_cooldown_secs: Option<i64>,
}

/// A request to send a test alert, optionally to another webhook.
#[derive(Debug)]
pub struct TestFeishuRequest {
    pub webhook_url: Option<String>,
}

/// One recorded probe of a check.
#[derive(Debug, Clone)]
pub struct CheckRun {
    pub id: i64,
    pub check_id: i64,
    pub status: String,
    pub response_ms: Option<i64>,
    pub error: Option<String>,
    pub checked_at: String,
}

/// One page of a check's history.
#[derive(Debug)]
pub struct CheckHistoryResponse {
    pub items: Vec<CheckRun>,
    pub total: i64,
    pub limit: u32,
    pub offset: u32,
}

/// A checkpoint as a client sends it.
#[derive(Debug, Clone)]
pub struct CheckpointInput {
    pub kind: String,
    pub value: String,
    pub enabled: Option<bool>,
}

/// A stored checkpoint of a check.
#[derive(Debug, Clone)]
pub struct CheckCheckpoint {
    pub id: i64,
    pub check_id: i64,
    pub kind: String,
    pub value: String,
    pub enabled: bool,
    pub sort_order: i64,
}

} // verus!
