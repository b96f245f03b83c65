//! The decisions behind the live vault stream: which broadcast events a
//! subscriber receives and in what message, and the back-off schedule used
//! when the stream reconnects.
use vstd::prelude::*;
use crate::models::{VaultEvent, WebSocketMessage, event_type_name};

verus! {

/// Turns a broadcast event into the message for a subscriber of `vault_id`:
/// events of other vaults are dropped; an event of this vault becomes a
/// message named after its event type that carries the event's data.
pub fn stream_message(vault_id: &String, event: VaultEvent) -> (r: Option<WebSocketMessage>)
    ensures
        r is Some <==> event.vault_id@ == vault_id@,
        r matches Some(m) ==> m.message_type@ == event_type_name(event.event_type) && m.data == event.data,
{
    if event.vault_id == *vault_id {
        Some(WebSocketMessage { message_type: event.event_type.name(), data: event.data })
    } else {
        None
    }
}

/// The longest wait between two reconnect attempts, in milliseconds.
pub const MAX_BACKOFF_DELAY_MS: u64 = 30000;

/// The wait before reconnect attempt `k` (counting from 0): the initial delay,
/// then doubled after each attempt and capped at `MAX_BACKOFF_DELAY_MS`.
pub open spec fn backoff_delay(initial: u64, k: nat) -> int
    decreases k,
{
    if k == 0 {
        initial as int
    } else {
        let prev = backoff_delay(initial, (k - 1) as nat);
        if 2 * prev <= MAX_BACKOFF_DELAY_MS { 2 * prev } else { MAX_BACKOFF_DELAY_MS as int }
    }
}

/// What the reconnect loop does next.
#[derive(Debug, PartialEq, Eq)]
pub enum BackoffStep {
    /// Wait this many milliseconds, then ask again.
    Sleep(u64),
    /// Stop, with this outcome.
    Done(Result<(), String>),
}

/// The state of a reconnect with exponential back-off: how many waits are
/// allowed, how many have been taken, and the next wait.
pub struct ReconnectBackoff {
    max_retries: u32,
    retries: u32,
    initial_delay_ms: u64,
    delay_ms: u64,
}

impl ReconnectBackoff {
    #[verifier::type_invariant]
    spec fn inv(self) -> bool {
        &&& self.retries <= self.max_retries
        &&& self.delay_ms == backoff_delay(self.initial_delay_ms, self.retries as nat)
        &&& self.retries < self.max_retries ==> 2 * self.delay_ms <= u64::MAX
    }

    /// The number of waits allowed.
    pub closed spec fn spec_max_retries(self) -> nat {
        self.max_retries as nat
    }

    /// The number of waits taken so far.
    pub closed spec fn spec_retries(self) -> nat {
        self.retries as nat
    }

    /// The wait before the first attempt.
    pub closed spec fn spec_initial_delay(self) -> u64 {
        self.initial_delay_ms
    }

    /// A reconnect that will wait `max_retries` times, starting with
    /// `initial_delay_ms`. The doubling after a wait must fit in a `u64`.
    pub fn new(max_retries: u32, initial_delay_ms: u64) -> (b: Self)
        requires
            max_retries == 0 || 2 * initial_delay_ms <= u64::MAX,
        ensures
            b.spec_max_retries() == max_retries,
            b.spec_retries() == 0,
            b.spec_initial_delay() == initial_delay_ms,
    {
        ReconnectBackoff { max_retries, retries: 0, initial_delay_ms, delay_ms: initial_delay_ms }
    }

    /// Takes the next step: while waits remain, the next wait (and the state
    /// moves past it); then the outcome, `Err("Max retries exceeded")` when no
    /// wait was allowed at all and `Ok(())` otherwise.
    pub fn advance(&mut self) -> (step: BackoffStep)
        ensures
            final(self).spec_max_retries() == old(self).spec_max_retries(),
            final(self).spec_initial_delay() == old(self).spec_initial_delay(),
            old(self).spec_retries() < old(self).spec_max_retries() ==> {
                &&& step == BackoffStep::Sleep(backoff_delay(old(self).spec_initial_delay(), old(self).spec_retries()) as u64)
                &&& final(self).spec_retries() == old(self).spec_retries() + 1
            },
            old(self).spec_retries() >= old(self).spec_max_retries() ==> {
                &&& final(self).spec_retries() == old(self).spec_retries()
                &&& old(self).spec_max_retries() == 0 ==> (step matches BackoffStep::Done(Err(msg)) && msg@ == "Max retries exceeded"@)
                &&& old(self).spec_max_retries() > 0 ==> step == BackoffStep::Done(Ok(()))
            },
    {
        proof { use_type_invariant(&*self); }
        if self.retries < self.max_retries {
            let wait = self.delay_ms;
            let doubled = self.delay_ms * 2;
            let next = if doubled <= MAX_BACKOFF_DELAY_MS { doubled } else { MAX_BACKOFF_DELAY_MS };
            *self = ReconnectBackoff {
                max_retries: self.max_retries,
                retries: self.retries + 1,
                initial_delay_ms: self.initial_delay_ms,
                delay_ms: next,
            };
            BackoffStep::Sleep(wait)
        } else if self.max_retries == 0 {
            BackoffStep::Done(Err(String::from_str("Max retries exceeded")))
        } else {
            BackoffStep::Done(Ok(()))
        }
    }
}

/// After the first attempt no wait exceeds `MAX_BACKOFF_DELAY_MS`.
pub proof fn law_delay_capped(initial: u64, k: nat)
    requires
        k >= 1,
    ensures
        backoff_delay(initial, k) <= MAX_BACKOFF_DELAY_MS,
{
}

/// Waits never shrink when the initial delay is within the cap.
pub proof fn law_delay_non_decreasing(initial: u64, k: nat)
    requires
        initial <= MAX_BACKOFF_DELAY_MS,
    ensures
        backoff_delay(initial, k) <= backoff_delay(initial, k + 1),
    decreases k,
{
    if k > 0 {
        law_delay_non_decreasing(initial, (k - 1) as nat);
    }
}

/// The waits double from the initial delay until they reach the cap:
/// wait `k` is `min(initial * 2^k, MAX_BACKOFF_DELAY_MS)` (for the very first
/// wait only when the initial delay is within the cap).
pub proof fn law_delay_closed_form(initial: u64, k: nat)
    requires
        k >= 1 || initial <= MAX_BACKOFF_DELAY_MS,
    ensures
        backoff_delay(initial, k) == (if initial * vstd::arithmetic::power2::pow2(k) <= MAX_BACKOFF_DELAY_MS {
            initial * vstd::arithmetic::power2::pow2(k)
        } else {
            MAX_BACKOFF_DELAY_MS as int
        }),
    decreases k,
{
    let c = MAX_BACKOFF_DELAY_MS as int;
    let pow_k = vstd::arithmetic::power2::pow2(k);
    if k == 0 {
        vstd::arithmetic::power2::lemma2_to64();
        assert(initial * pow_k == initial) by (nonlinear_arith)
            requires pow_k == 1;
    } else {
        let pk = vstd::arithmetic::power2::pow2((k - 1) as nat);
        vstd::arithmetic::power2::lemma_pow2_unfold(k);
        assert(initial * pow_k == 2 * (initial * pk)) by (nonlinear_arith)
            requires pow_k == 2 * pk;
        assert(initial * pk >= 0) by (nonlinear_arith)
            requires initial >= 0, pk >= 0;
        let prev = backoff_delay(initial, (k - 1) as nat);
        assert(backoff_delay(initial, k) == (if 2 * prev <= c { 2 * prev } else { c }));
        if k == 1 && initial > c {
            vstd::arithmetic::power2::lemma2_to64();
            assert(prev == initial);
            assert(initial * pow_k > c);
        } else {
            law_delay_closed_form(initial, (k - 1) as nat);
            if initial * pk <= c {
                assert(prev == initial * pk);
            } else {
                assert(prev == c);
            }
        }
    }
}

/// The first wait is the initial delay, whatever its size; each later wait is
/// twice the one before, or the cap once that would pass it.
pub proof fn law_delay_steps(initial: u64, k: nat)
    ensures
        backoff_delay(initial, 0) == initial,
        2 * backoff_delay(initial, k) <= MAX_BACKOFF_DELAY_MS ==> backoff_delay(initial, k + 1) == 2 * backoff_delay(initial, k),
        2 * backoff_delay(initial, k) > MAX_BACKOFF_DELAY_MS ==> backoff_delay(initial, k + 1) == MAX_BACKOFF_DELAY_MS,
{
}

} // verus!
