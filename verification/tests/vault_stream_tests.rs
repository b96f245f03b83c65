use ttl_legacy::models::{EventType, VaultEvent};
use ttl_legacy::utc_time::UtcTime;
use ttl_legacy::vault_stream::{stream_message, BackoffStep, ReconnectBackoff};

fn run(max_retries: u32, initial: u64) -> (Vec<u64>, Result<(), String>) {
    let mut b = ReconnectBackoff::new(max_retries, initial);
    let mut waits = Vec::new();
    loop {
        match b.advance() {
            BackoffStep::Sleep(ms) => waits.push(ms),
            BackoffStep::Done(r) => return (waits, r),
        }
    }
}

fn event(vault: &str, t: EventType) -> VaultEvent {
    VaultEvent {
        vault_id: vault.to_string(),
        event_type: t,
        timestamp: UtcTime::new(0, 0).unwrap(),
        data: serde_json::Value::from(42),
    }
}

#[test]
fn test_reconnect_backoff() {
    let (waits, result) = run(3, 10);
    assert!(result.is_ok());
    assert_eq!(waits, vec![10, 20, 40]);
}

#[test]
fn test_reconnect_max_retries() {
    let (waits, result) = run(0, 10);
    assert!(result.is_err());
    assert_eq!(result.unwrap_err(), "Max retries exceeded");
    assert!(waits.is_empty());
}

#[test]
fn backoff_caps_at_thirty_seconds() {
    let (waits, result) = run(6, 5_000);
    assert!(result.is_ok());
    assert_eq!(waits, vec![5_000, 10_000, 20_000, 30_000, 30_000, 30_000]);
}

#[test]
fn backoff_large_initial_delay_drops_to_cap() {
    let (waits, _) = run(3, 100_000);
    assert_eq!(waits, vec![100_000, 30_000, 30_000]);
}

#[test]
fn done_repeats_after_the_last_wait() {
    let mut b = ReconnectBackoff::new(1, 1);
    assert_eq!(b.advance(), BackoffStep::Sleep(1));
    assert_eq!(b.advance(), BackoffStep::Done(Ok(())));
    assert_eq!(b.advance(), BackoffStep::Done(Ok(())));
}

#[test]
fn stream_forwards_only_matching_vault() {
    let vault = "vault-1".to_string();
    let msg = stream_message(&vault, event("vault-1", EventType::TtlUpdate)).unwrap();
    assert_eq!(msg.message_type, "TtlUpdate");
    assert_eq!(msg.data, serde_json::Value::from(42));
    assert!(stream_message(&vault, event("vault-2", EventType::TtlUpdate)).is_none());
}

#[test]
fn event_type_names_match_debug() {
    for t in [
        EventType::CheckIn,
        EventType::TtlUpdate,
        EventType::StatusChange,
        EventType::Deposit,
        EventType::Withdrawal,
        EventType::Release,
    ] {
        assert_eq!(t.name(), format!("{:?}", t));
    }
}
