//! The decisions of the background scheduler: when a TTL reminder is due,
//! and which TTL-insurance policies are renewed because their owner has been
//! inactive for long enough.
use vstd::prelude::*;
use crate::utc_time::{UtcTime, seconds_between, current_time, NANOS_PER_SEC};

verus! {

/// How often an owner wants to be reminded once the vault's TTL is inside the
/// reminder window.
#[derive(Copy, Clone, Debug, PartialEq, Eq, Structural)]
pub enum Frequency {
    /// A single reminder, in the hour the TTL reaches the window.
    Once,
    /// One reminder a day, on whole-day marks of the TTL.
    Daily,
    /// A reminder on every poll while inside the window.
    Hourly,
}

/// Whether a reminder is due for a vault whose TTL has `ttl_hours` left, for
/// an owner whose window is `window` hours and who chose `frequency`.
pub open spec fn reminder_due(frequency: Frequency, ttl_hours: u32, window: u32) -> bool {
    match frequency {
        Frequency::Once => ttl_hours == window,
        Frequency::Daily => ttl_hours <= window && ttl_hours % 24 == 0,
        Frequency::Hourly => ttl_hours <= window,
    }
}

/// Decides whether a reminder goes out on this poll.
pub fn should_notify(frequency: Frequency, ttl_hours: u32, window: u32) -> (r: bool)
    ensures
        r == reminder_due(frequency, ttl_hours, window),
{
    match frequency {
        Frequency::Once => ttl_hours == window,
        Frequency::Daily => ttl_hours <= window && ttl_hours % 24 == 0,
        Frequency::Hourly => ttl_hours <= window,
    }
}

/// Hours left until a vault's TTL expires. There is no ledger connection yet,
/// so every vault reports the largest representable TTL.
pub fn fetch_ttl_remaining(vault_id: u64) -> (hours: u32)
    ensures
        hours == u32::MAX,
{
    u32::MAX
}

/// An owner's TTL insurance: when the owner has been inactive for
/// `inactivity_threshold_seconds`, the vault's TTL is extended by
/// `extension_seconds`.
#[derive(Copy, Clone, Debug, PartialEq, Eq, Structural)]
pub struct TtlInsurancePolicy {
    pub vault_id: u64,
    pub extension_seconds: u64,
    pub inactivity_threshold_seconds: u64,
    pub enabled: bool,
    pub purchased_at: UtcTime,
    pub last_extended_at: Option<UtcTime>,
}

/// The threshold as the signed 64-bit number of seconds that it is compared
/// against (thresholds past `i64::MAX` wrap around to negative values).
pub open spec fn threshold_as_i64(t: u64) -> int {
    if t <= i64::MAX {
        t as int
    } else {
        t - 0x1_0000_0000_0000_0000int
    }
}

/// Whether the insurance extends the TTL at `now`: the policy is enabled, the
/// owner's last activity is known, and the owner has been inactive for at
/// least the threshold.
pub open spec fn insurance_due(policy: TtlInsurancePolicy, last_active: Option<UtcTime>, now: UtcTime) -> bool {
    &&& policy.enabled
    &&& last_active is Some
    &&& seconds_between(now, last_active->0) >= threshold_as_i64(policy.inactivity_threshold_seconds)
}

/// The policy as stored after an extension at `now`.
pub open spec fn renewed_policy(policy: TtlInsurancePolicy, now: UtcTime) -> TtlInsurancePolicy {
    TtlInsurancePolicy { enabled: true, last_extended_at: Some(now), ..policy }
}

/// The policies to store after one pass of the insurance scheduler over
/// `observed` (each policy with its owner's last activity), in order.
pub open spec fn renewals(observed: Seq<(TtlInsurancePolicy, Option<UtcTime>)>, now: UtcTime) -> Seq<TtlInsurancePolicy>
    decreases observed.len(),
{
    if observed.len() == 0 {
        Seq::empty()
    } else {
        let rest = renewals(observed.drop_last(), now);
        let (p, a) = observed.last();
        if insurance_due(p, a, now) {
            rest.push(renewed_policy(p, now))
        } else {
            rest
        }
    }
}

/// Decides one policy: `Some` of the policy to store when the TTL is extended
/// at `now`, `None` when the policy is left alone.
pub fn renew_if_inactive(policy: &TtlInsurancePolicy, last_active: Option<UtcTime>, now: UtcTime) -> (r: Option<TtlInsurancePolicy>)
    ensures
        r == (if insurance_due(*policy, last_active, now) { Some(renewed_policy(*policy, now)) } else { None }),
{
    if !policy.enabled {
        return None;
    }
    let last = match last_active {
        Some(t) => t,
        None => return None,
    };
    let inactive_for = now.whole_seconds_since(&last);
    let t = policy.inactivity_threshold_seconds;
    let threshold: i64 = if t <= 0x7fff_ffff_ffff_ffffu64 {
        t as i64
    } else {
        (t - 0x8000_0000_0000_0000u64) as i64 - 0x7fff_ffff_ffff_ffffi64 - 1
    };
    if inactive_for < threshold {
        return None;
    }
    Some(TtlInsurancePolicy {
        vault_id: policy.vault_id,
        extension_seconds: policy.extension_seconds,
        inactivity_threshold_seconds: policy.inactivity_threshold_seconds,
        enabled: true,
        purchased_at: policy.purchased_at,
        last_extended_at: Some(now),
    })
}

/// One pass of the insurance scheduler at `now`: the renewed policies, in the
/// order of `observed`.
pub fn plan_ttl_extensions(observed: &Vec<(TtlInsurancePolicy, Option<UtcTime>)>, now: UtcTime) -> (r: Vec<TtlInsurancePolicy>)
    ensures
        r@ == renewals(observed@, now),
{
    let mut out: Vec<TtlInsurancePolicy> = Vec::new();
    let mut i: usize = 0;
    while i < observed.len()
        invariant
            i <= observed.len(),
            out@ == renewals(observed@.take(i as int), now),
        decreases observed.len() - i,
    {
        let (p, a) = observed[i];
        let next = renew_if_inactive(&p, a, now);
        assert(observed@.take(i + 1).drop_last() == observed@.take(i as int));
        match next {
            Some(q) => out.push(q),
            None => {},
        }
        i = i + 1;
    }
    assert(observed@.take(observed.len() as int) == observed@);
    out
}

/// One pass of the insurance scheduler at the current time: the renewed
/// policies, stamped with the instant that the clock reported.
pub fn extend_ttl_for_inactive_owners(observed: &Vec<(TtlInsurancePolicy, Option<UtcTime>)>) -> (r: Vec<TtlInsurancePolicy>)
    ensures
        exists|now: UtcTime| {
            &&& now.spec_secs() >= 0
            &&& now.spec_nanos() < NANOS_PER_SEC
            &&& r@ == #[trigger] renewals(observed@, now)
        },
{
    let now = current_time();
    let r = plan_ttl_extensions(observed, now);
    assert(r@ == renewals(observed@, now));
    r
}

/// Hourly reminders are the most frequent: whenever any frequency sends a
/// reminder, an hourly reminder would be sent too.
pub proof fn law_hourly_most_permissive(frequency: Frequency, ttl_hours: u32, window: u32)
    ensures
        reminder_due(frequency, ttl_hours, window) ==> reminder_due(Frequency::Hourly, ttl_hours, window),
{
}

/// No reminder is sent while the TTL is still outside the window.
pub proof fn law_silent_outside_window(frequency: Frequency, ttl_hours: u32, window: u32)
    requires
        ttl_hours > window,
    ensures
        !reminder_due(frequency, ttl_hours, window),
{
}

/// A one-time reminder fires for a single TTL value only.
pub proof fn law_once_fires_for_one_ttl(ttl1: u32, ttl2: u32, window: u32)
    requires
        reminder_due(Frequency::Once, ttl1, window),
        reminder_due(Frequency::Once, ttl2, window),
    ensures
        ttl1 == ttl2,
{
}

/// A renewed policy is enabled, stamped with the renewal instant, and keeps
/// its vault, extension, threshold and purchase date.
pub proof fn law_renewal_keeps_terms(policy: TtlInsurancePolicy, now: UtcTime)
    ensures
        renewed_policy(policy, now).enabled,
        renewed_policy(policy, now).last_extended_at == Some(now),
        renewed_policy(policy, now).vault_id == policy.vault_id,
        renewed_policy(policy, now).extension_seconds == policy.extension_seconds,
        renewed_policy(policy, now).inactivity_threshold_seconds == policy.inactivity_threshold_seconds,
        renewed_policy(policy, now).purchased_at == policy.purchased_at,
{
}

/// Renewing twice at the same instant stores the same policy as renewing once.
pub proof fn law_renewal_idempotent(policy: TtlInsurancePolicy, now: UtcTime)
    ensures
        renewed_policy(renewed_policy(policy, now), now) == renewed_policy(policy, now),
{
}

/// A pass renews at most the policies it sees, and every policy it stores is
/// enabled and stamped with the pass's instant.
pub proof fn law_renewals_bounded(observed: Seq<(TtlInsurancePolicy, Option<UtcTime>)>, now: UtcTime)
    ensures
        renewals(observed, now).len() <= observed.len(),
        forall|i: int| 0 <= i < renewals(observed, now).len() ==> {
            &&& (#[trigger] renewals(observed, now)[i]).enabled
            &&& renewals(observed, now)[i].last_extended_at == Some(now)
        },
    decreases observed.len(),
{
    if observed.len() > 0 {
        law_renewals_bounded(observed.drop_last(), now);
    }
}

/// Daily reminders go out on every whole-day mark of the TTL inside the
/// window, and at no other TTL.
pub proof fn law_daily_on_whole_days(ttl_hours: u32, window: u32)
    ensures
        ttl_hours <= window && ttl_hours % 24 == 0 ==> reminder_due(Frequency::Daily, ttl_hours, window),
        ttl_hours % 24 != 0 ==> !reminder_due(Frequency::Daily, ttl_hours, window),
        ttl_hours > window ==> !reminder_due(Frequency::Daily, ttl_hours, window),
{
}

/// Every multiple of a day inside the window gets a daily reminder.
pub proof fn law_daily_every_day_in_window(days: u32, window: u32)
    requires
        days * 24 <= window,
    ensures
        reminder_due(Frequency::Daily, (days * 24) as u32, window),
{
    assert((days * 24) % 24 == 0) by (nonlinear_arith);
}

/// A one-time reminder goes out exactly when the TTL has reached the window,
/// an empty window included.
pub proof fn law_once_when_ttl_reaches_window(ttl_hours: u32, window: u32)
    ensures
        reminder_due(Frequency::Once, ttl_hours, window) <==> ttl_hours == window,
{
}

/// Hourly reminders go out on every poll while the TTL is inside the window.
pub proof fn law_hourly_inside_window(ttl_hours: u32, window: u32)
    ensures
        reminder_due(Frequency::Hourly, ttl_hours, window) <==> ttl_hours <= window,
{
}

/// A threshold is compared as the signed 64-bit number with the same bits:
/// unchanged up to `i64::MAX`, `2^64` less above it.
pub proof fn law_threshold_as_signed(t: u64)
    ensures
        t <= i64::MAX ==> threshold_as_i64(t) == t,
        t > i64::MAX ==> threshold_as_i64(t) == t - 0x1_0000_0000_0000_0000int,
        i64::MIN <= threshold_as_i64(t) <= i64::MAX,
{
}

/// An enabled policy whose owner's last activity is known renews exactly when
/// the whole seconds since that activity reach the policy's own threshold; a
/// disabled policy, or one without known activity, never renews.
pub proof fn law_renews_iff_inactive_past_threshold(policy: TtlInsurancePolicy, last_active: Option<UtcTime>, now: UtcTime)
    ensures
        policy.enabled && last_active is Some ==> (insurance_due(policy, last_active, now)
            <==> seconds_between(now, last_active->0) >= threshold_as_i64(policy.inactivity_threshold_seconds)),
        !policy.enabled ==> !insurance_due(policy, last_active, now),
        last_active is None ==> !insurance_due(policy, last_active, now),
{
}

/// A pass over one policy renews it exactly when it is due.
pub proof fn law_renewals_single(entry: (TtlInsurancePolicy, Option<UtcTime>), now: UtcTime)
    ensures
        renewals(seq![entry], now) == (if insurance_due(entry.0, entry.1, now) {
            seq![renewed_policy(entry.0, now)]
        } else {
            Seq::<TtlInsurancePolicy>::empty()
        }),
{
    let one = seq![entry];
    assert(one.drop_last() =~= Seq::<(TtlInsurancePolicy, Option<UtcTime>)>::empty());
    assert(one.last() == entry);
    assert(renewals(one.drop_last(), now) =~= Seq::<TtlInsurancePolicy>::empty());
    assert(Seq::<TtlInsurancePolicy>::empty().push(renewed_policy(entry.0, now)) =~= seq![renewed_policy(entry.0, now)]);
}

/// Each policy is decided on its own: a pass over two lists back to back
/// renews what the two passes renew, in order.
pub proof fn law_renewals_concat(
    first: Seq<(TtlInsurancePolicy, Option<UtcTime>)>,
    second: Seq<(TtlInsurancePolicy, Option<UtcTime>)>,
    now: UtcTime,
)
    ensures
        renewals(first + second, now) == renewals(first, now) + renewals(second, now),
    decreases second.len(),
{
    if second.len() == 0 {
        assert(first + second =~= first);
        assert(renewals(second, now) =~= Seq::<TtlInsurancePolicy>::empty());
        assert(renewals(first, now) + renewals(second, now) =~= renewals(first, now));
    } else {
        let whole = first + second;
        assert(whole.drop_last() =~= first + second.drop_last());
        assert(whole.last() == second.last());
        law_renewals_concat(first, second.drop_last(), now);
        let (p, a) = second.last();
        if insurance_due(p, a, now) {
            assert(renewals(first, now) + renewals(second, now)
                =~= (renewals(first, now) + renewals(second.drop_last(), now)).push(renewed_policy(p, now)));
        } else {
            assert(renewals(first, now) + renewals(second, now)
                =~= renewals(first, now) + renewals(second.drop_last(), now));
        }
    }
}

/// The pass's output is the due entries of `observed`, renewed, in order:
/// entry `i` contributes exactly when it is due, whatever the other entries.
pub proof fn law_renewals_filter(observed: Seq<(TtlInsurancePolicy, Option<UtcTime>)>, now: UtcTime)
    ensures
        renewals(observed, now) == observed.filter(|e: (TtlInsurancePolicy, Option<UtcTime>)| insurance_due(e.0, e.1, now))
            .map_values(|e: (TtlInsurancePolicy, Option<UtcTime>)| renewed_policy(e.0, now)),
    decreases observed.len(),
{
    reveal_with_fuel(Seq::filter, 1);
    if observed.len() > 0 {
        law_renewals_filter(observed.drop_last(), now);
        let f = |e: (TtlInsurancePolicy, Option<UtcTime>)| insurance_due(e.0, e.1, now);
        let g = |e: (TtlInsurancePolicy, Option<UtcTime>)| renewed_policy(e.0, now);
        let rest = observed.drop_last().filter(f);
        if f(observed.last()) {
            assert(observed.filter(f) == rest.push(observed.last()));
            assert(rest.push(observed.last()).map_values(g) =~= rest.map_values(g).push(g(observed.last())));
        } else {
            assert(observed.filter(f) == rest);
        }
    }
}

/// The seconds between two instants are `chrono`'s count from the earlier to
/// the later, with the arguments in that order.
pub proof fn law_seconds_between_is_chrono_count(later: UtcTime, earlier: UtcTime)
    ensures
        seconds_between(later, earlier) == crate::utc_time::chrono_whole_seconds(
            later.spec_secs(), later.spec_nanos(), earlier.spec_secs(), earlier.spec_nanos()),
{
}

} // verus!
