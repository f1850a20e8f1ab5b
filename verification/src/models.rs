//! Plain data records shared across the crate.

use vstd::prelude::*;

verus! {

/// Process configuration: the connection string for the persistent store.
#[derive(Debug)]
pub struct Config {
    pub database_url: String,
}

/// Errors raised while loading the process configuration.
#[derive(Debug)]
pub enum ConfigError {
    /// A required environment variable was absent; carries its name.
    MissingEnv(String),
    /// The store connection string was not a well-formed URL; carries the
    /// parser's diagnostic.
    InvalidDatabaseUrl(String),
}

/// One monitored advertising account, as loaded from the store.
#[derive(Debug, Clone)]
pub struct FacebookAccount {
    pub id: i32,
    pub access_token: String,
    pub account_id: String,
    pub is_active: bool,
    /// Monitoring interval in minutes. Informational: the worker loop runs
    /// all accounts at one global cadence.
    pub interval: i32,
    pub telegram_config: TelegramConfig,
}

/// The messaging destination for one account.
#[derive(Debug, Clone)]
pub struct TelegramConfig {
    pub bot_token: String,
    pub chat_id: i64,
}

/// A point-in-time record of one account's aggregate performance, written
/// to the store once per account per cycle. Spend is held in micros of a
/// currency unit.
#[derive(Debug, Clone)]
pub struct AdAccountMetrics {
    pub account_id: String,
    pub spend: u64,
    pub impressions: i64,
    pub clicks: i64,
    pub conversions: i64,
}

/// The operator-configured cost-per-action ceiling, in micros of a currency
/// unit per action.
#[derive(Debug, Clone)]
pub struct AdThresholds {
    pub max_cost_per_action: u64,
}

} // verus!
