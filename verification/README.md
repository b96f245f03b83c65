# ttl_legacy

Verified core of the TTL-Legacy backend and claim-verifier contract.

- `src/` (Verus): the claim verifier (`claim_verifier`) and the receipts of the events it publishes (`contract_events`), the reminder and
  TTL-insurance rules of the scheduler (`reminder_scheduler`), the vault
  stream filter and reconnect back-off (`vault_stream`), the vault records
  (`models`) and instants (`utc_time`).
- `app/`: the Soroban contract entry point, the serde shapes of the records,
  the WebSocket broadcaster and the scheduler loop, all calling into `src/`.
- `tests/`: tests of the library, run against the real Soroban host.
