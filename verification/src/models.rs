//! The vault records that the backend serves and streams. Times are
//! `UtcTime` instants; free-form payloads are JSON values carried through
//! unchanged.
use vstd::prelude::*;
use crate::utc_time::UtcTime;

verus! {

#[verifier::external_type_specification]
#[verifier::external_body]
pub struct ExJsonValue(serde_json::Value);

/// `Clone` for `serde_json::Value`, which the crate derives: the copy is the
/// same JSON value.
pub assume_specification[ <serde_json::Value as Clone>::clone ](v: &serde_json::Value) -> (r: serde_json::Value)
    ensures
        r == *v,
;

/// A vault as the backend reports it.
#[derive(Debug, Clone)]
pub struct Vault {
    pub id: String,
    pub owner: String,
    pub beneficiary: String,
    pub balance: i128,
    pub check_in_interval: u64,
    pub last_check_in: UtcTime,
    pub created_at: UtcTime,
    pub status: VaultStatus,
    pub ttl_remaining: Option<u64>,
}

/// The life-cycle state of a vault.
#[derive(Copy, Clone, Debug, PartialEq, Eq, Structural)]
pub enum VaultStatus {
    Active,
    Expired,
    Released,
    Paused,
}

/// Something that happened to a vault, as it is broadcast to subscribers.
#[derive(Debug, Clone)]
pub struct VaultEvent {
    pub vault_id: String,
    pub event_type: EventType,
    pub timestamp: UtcTime,
    pub data: serde_json::Value,
}

/// The kinds of vault events.
#[derive(Copy, Clone, Debug, PartialEq, Eq, Structural)]
pub enum EventType {
    CheckIn,
    TtlUpdate,
    StatusChange,
    Deposit,
    Withdrawal,
    Release,
}

/// The filters and paging of a vault search.
#[derive(Debug)]
pub struct SearchQuery {
    pub owner: Option<String>,
    pub beneficiary: Option<String>,
    pub status: Option<VaultStatus>,
    pub created_after: Option<UtcTime>,
    pub created_before: Option<UtcTime>,
    pub page: Option<u32>,
    pub limit: Option<u32>,
}

/// One page of search results.
#[derive(Debug)]
pub struct SearchResult {
    pub vaults: Vec<Vault>,
    pub total: u32,
    pub page: u32,
    pub limit: u32,
}

/// Vaults put side by side.
#[derive(Debug)]
pub struct ComparisonResult {
    pub vaults: Vec<Vault>,
}

/// Everything known about one vault, for export.
#[derive(Debug)]
pub struct ExportData {
    pub vault: Vault,
    pub history: Vec<VaultEvent>,
    pub audit_log: Vec<AuditEntry>,
}

/// One entry of a vault's audit log.
#[derive(Debug, Clone)]
pub struct AuditEntry {
    pub timestamp: UtcTime,
    pub action: String,
    pub actor: String,
    pub details: serde_json::Value,
}

/// A message pushed to a WebSocket subscriber.
#[derive(Debug)]
pub struct WebSocketMessage {
    pub message_type: String,
    pub data: serde_json::Value,
}

/// The name under which an event type is reported to subscribers (its
/// `Debug` rendering).
pub open spec fn event_type_name(t: EventType) -> Seq<char> {
    match t {
        EventType::CheckIn => "CheckIn"@,
        EventType::TtlUpdate => "TtlUpdate"@,
        EventType::StatusChange => "StatusChange"@,
        EventType::Deposit => "Deposit"@,
        EventType::Withdrawal => "Withdrawal"@,
        EventType::Release => "Release"@,
    }
}

impl EventType {
    /// The name under which this event type is reported to subscribers.
    pub fn name(&self) -> (s: String)
        ensures
            s@ == event_type_name(*self),
    {
        match self {
            EventType::CheckIn => String::from_str("CheckIn"),
            EventType::TtlUpdate => String::from_str("TtlUpdate"),
            EventType::StatusChange => String::from_str("StatusChange"),
            EventType::Deposit => String::from_str("Deposit"),
            EventType::Withdrawal => String::from_str("Withdrawal"),
            EventType::Release => String::from_str("Release"),
        }
    }
}

/// Distinct event types are reported under distinct names.
pub proof fn law_event_type_names_distinct(t1: EventType, t2: EventType)
    ensures
        t1 != t2 ==> event_type_name(t1) != event_type_name(t2),
{
    reveal_strlit("CheckIn");
    reveal_strlit("TtlUpdate");
    reveal_strlit("StatusChange");
    reveal_strlit("Deposit");
    reveal_strlit("Withdrawal");
    reveal_strlit("Release");
    if t1 != t2 {
        let n1 = event_type_name(t1);
        let n2 = event_type_name(t2);
        assert(n1.len() != n2.len() || n1[0] != n2[0] || n1[1] != n2[1]);
    }
}

/// Each event type is reported under its own name as written in the source.
pub proof fn law_event_type_name_values()
    ensures
        event_type_name(EventType::CheckIn) == "CheckIn"@,
        event_type_name(EventType::TtlUpdate) == "TtlUpdate"@,
        event_type_name(EventType::StatusChange) == "StatusChange"@,
        event_type_name(EventType::Deposit) == "Deposit"@,
        event_type_name(EventType::Withdrawal) == "Withdrawal"@,
        event_type_name(EventType::Release) == "Release"@,
{
}

} // verus!
