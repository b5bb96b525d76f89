//! The bot's error type and its classification.

use vstd::prelude::*;

verus! {

/// Errors of the bot. Decimal fields are fixed-point (see `fixed`). Errors
/// that arise in outside libraries (database, network, JSON) carry their
/// message.
#[derive(Clone, Debug)]
pub enum BotError {
    ApiError { message: String, retryable: bool },
    RateLimitExceeded { retry_after_ms: u64 },
    AuthenticationError(String),
    DatabaseError(String),
    StateDesync { details: String },
    InsufficientMargin { required: i64, available: i64 },
    OrderRejected { reason: String },
    PositionSizeTooSmall { size: i64, minimum: i64 },
    MaxGridLevelsExceeded(u8),
    StrategyTimeout { held_hours: u64, max_hours: u32 },
    EmergencyStopLoss { loss_pct: i64 },
    WebSocketError(String),
    ConfigError(String),
    NetworkError(String),
    SerializationError(String),
    Unknown(String),
}

/// Log level at which an error is reported.
#[derive(Clone, Copy, Debug, PartialEq, Eq, Structural)]
pub enum Severity {
    Error,
    Warn,
    Info,
    Debug,
}

/// Result of the bot's operations.
pub type BotResult<T> = Result<T, BotError>;

/// Transient errors, after which the operation may be retried: retryable API
/// errors, rate limits, network and WebSocket errors.
pub open spec fn spec_is_retryable(e: BotError) -> bool {
    match e {
        BotError::ApiError { retryable, .. } => retryable,
        BotError::RateLimitExceeded { .. } => true,
        BotError::NetworkError(_) => true,
        BotError::WebSocketError(_) => true,
        _ => false,
    }
}

/// Errors that call for an emergency shutdown: state desynchronization, an
/// emergency stop loss, failed authentication.
pub open spec fn spec_is_critical(e: BotError) -> bool {
    match e {
        BotError::StateDesync { .. } => true,
        BotError::EmergencyStopLoss { .. } => true,
        BotError::AuthenticationError(_) => true,
        _ => false,
    }
}

/// The level at which each error is reported.
pub open spec fn spec_severity(e: BotError) -> Severity {
    match e {
        BotError::EmergencyStopLoss { .. } => Severity::Error,
        BotError::StateDesync { .. } => Severity::Error,
        BotError::InsufficientMargin { .. } => Severity::Warn,
        BotError::MaxGridLevelsExceeded(_) => Severity::Warn,
        BotError::StrategyTimeout { .. } => Severity::Info,
        BotError::ApiError { retryable, .. } => if retryable { Severity::Warn } else { Severity::Error },
        BotError::OrderRejected { .. } => Severity::Warn,
        BotError::PositionSizeTooSmall { .. } => Severity::Error,
        _ => Severity::Debug,
    }
}

impl BotError {
    /// Whether the error is transient and the operation can be retried.
    pub fn is_retryable(&self) -> (r: bool)
        ensures
            r == spec_is_retryable(*self),
    {
        match self {
            BotError::ApiError { retryable, .. } => *retryable,
            BotError::RateLimitExceeded { .. } => true,
            BotError::NetworkError(_) => true,
            BotError::WebSocketError(_) => true,
            _ => false,
        }
    }

    /// Whether the error should trigger an emergency shutdown.
    pub fn is_critical(&self) -> (r: bool)
        ensures
            r == spec_is_critical(*self),
    {
        match self {
            BotError::StateDesync { .. } => true,
            BotError::EmergencyStopLoss { .. } => true,
            BotError::AuthenticationError(_) => true,
            _ => false,
        }
    }

    /// The severity of the error.
    pub fn severity(&self) -> (r: Severity)
        ensures
            r == spec_severity(*self),
    {
        match self {
            BotError::EmergencyStopLoss { .. } => Severity::Error,
            BotError::StateDesync { .. } => Severity::Error,
            BotError::InsufficientMargin { .. } => Severity::Warn,
            BotError::MaxGridLevelsExceeded(_) => Severity::Warn,
            BotError::StrategyTimeout { .. } => Severity::Info,
            BotError::ApiError { retryable, .. } => if *retryable {
                Severity::Warn
            } else {
                Severity::Error
            },
            BotError::OrderRejected { .. } => Severity::Warn,
            BotError::PositionSizeTooSmall { .. } => Severity::Error,
            _ => Severity::Debug,
        }
    }
}

/// A retryable API error with `message`.
pub fn retryable_api_error(message: String) -> (r: BotError)
    ensures
        r == (BotError::ApiError { message, retryable: true }),
{
    BotError::ApiError { message, retryable: true }
}

/// A non-retryable API error with `message`.
pub fn fatal_api_error(message: String) -> (r: BotError)
    ensures
        r == (BotError::ApiError { message, retryable: false }),
{
    BotError::ApiError { message, retryable: false }
}

/// No error is both retryable and critical.
pub proof fn lemma_retryable_errors_are_not_critical(e: BotError)
    ensures
        spec_is_retryable(e) ==> !spec_is_critical(e),
{
}

} // verus!
