//! The service's configuration record and the reading of its log level.

use vstd::prelude::*;

use crate::strutil::str_eq;

verus! {

/// Everything the service is configured with, read from a file or from the
/// environment at startup.
#[derive(Debug, Clone)]
pub struct Configuration {
    pub database_url: String,
    pub jwt_secret: String,
    pub bot_user_name: String,
    pub bot_user_pass: String,
    pub web_driver_address: String,
    pub server_bind_point: String,
    pub server_address: String,
    pub dialog_quality: i32,
    pub log_level: String,
    pub cosmos_db_primary_key: String,
    pub cosmos_db_database_name: String,
    pub cosmos_db_account: String,
    pub swc_publication_endpoints: Vec<String>,
    pub swc_check_interval: i32,
}

/// How much the service logs.
#[derive(Debug, Clone, Copy)]
pub enum LogLevel {
    Trace,
    Debug,
    Info,
    Warn,
    Error,
}

/// The level a configured name selects; an unknown name falls back to
/// `Debug`.
pub open spec fn log_level_of(s: Seq<char>) -> LogLevel {
    if s == "DEBUG"@ {
        LogLevel::Debug
    } else if s == "INFO"@ {
        LogLevel::Info
    } else if s == "WARN"@ {
        LogLevel::Warn
    } else if s == "ERROR"@ {
        LogLevel::Error
    } else if s == "TRACE"@ {
        LogLevel::Trace
    } else {
        LogLevel::Debug
    }
}

/// Reads the configured log level name.
pub fn parse_log_level(s: &str) -> (r: LogLevel)
    ensures
        r == log_level_of(s@),
{
    if str_eq(s, "DEBUG") {
        LogLevel::Debug
    } else if str_eq(s, "INFO") {
        LogLevel::Info
    } else if str_eq(s, "WARN") {
        LogLevel::Warn
    } else if str_eq(s, "ERROR") {
        LogLevel::Error
    } else if str_eq(s, "TRACE") {
        LogLevel::Trace
    } else {
        LogLevel::Debug
    }
}

} // verus!
