//! Verified core of the TTL-Legacy services: the claim verifier contract,
//! the reminder and TTL-insurance scheduling rules, the reconnect back-off
//! schedule and the vault event stream filter.

pub mod claim_verifier;
pub mod contract_events;
pub mod utc_time;
pub mod reminder_scheduler;
pub mod models;
pub mod vault_stream;
