//! Linear vesting arithmetic.
//!
//! Schedule (enforced at creation): `start_ts <= cliff_ts < end_ts`.
//! The cliff is a gate: nothing unlocks before it, then the amount jumps onto
//! the linear-from-start curve.

use vstd::prelude::*;
use vstd::arithmetic::div_mod::*;
use vstd::arithmetic::mul::*;

verus! {

/// Tokens unlocked at `now` under the linear schedule, as a mathematical
/// integer: zero before the cliff, everything from `end` on, and in between
/// the share `total * (now - start) / (end - start)`. A schedule whose end
/// does not come after its start counts as fully vested once the cliff has
/// passed; otherwise nothing is vested while `now` is still before `start`.
pub open spec fn linear_vested(now: int, start: int, cliff: int, end: int, total: int) -> int {
    if now < cliff {
        0
    } else if now >= end {
        total
    } else if end <= start {
        total
    } else if now < start {
        0
    } else {
        total * (now - start) / (end - start)
    }
}

/// `vested - claimed`, floored at zero.
pub open spec fn saturating_claimable(vested: int, claimed: int) -> int {
    if vested >= claimed {
        vested - claimed
    } else {
        0
    }
}

/// Inside the linear segment the share stays within `0 ..= total`,
/// and strictly below `total`.
proof fn lemma_share_bounds(total: int, elapsed: int, duration: int)
    requires
        total >= 0,
        0 <= elapsed < duration,
    ensures
        0 <= total * elapsed / duration,
        total > 0 ==> total * elapsed / duration < total,
        total * elapsed / duration <= total,
{
    lemma_mul_nonnegative(total, elapsed);
    lemma_div_pos_is_pos(total * elapsed, duration);
    lemma_mul_inequality(elapsed, duration, total);
    lemma_mul_is_commutative(elapsed, total);
    lemma_mul_is_commutative(duration, total);
    if total > 0 {
        lemma_mul_strict_inequality(elapsed, duration, total);
        lemma_div_by_multiple_is_strongly_ordered(total * elapsed, total * duration, total, duration);
        lemma_div_by_multiple(total, duration);
    } else {
        assert(total * elapsed == 0);
        lemma_div_of0(duration);
    }
}

/// The unlocked amount never exceeds the grant and is never negative.
pub proof fn lemma_linear_vested_bounded(now: i64, start_ts: i64, cliff_ts: i64, end_ts: i64, total: u64)
    ensures
        0 <= linear_vested(now as int, start_ts as int, cliff_ts as int, end_ts as int, total as int) <= total,
{
    if cliff_ts <= now < end_ts && start_ts <= now && start_ts < end_ts {
        lemma_share_bounds(total as int, now - start_ts, end_ts - start_ts);
    }
}

/// Vesting never goes backwards in time: for any schedule and grant, a later
/// instant has at least as many tokens unlocked as an earlier one.
pub proof fn lemma_linear_vested_monotone(
    earlier: i64,
    later: i64,
    start_ts: i64,
    cliff_ts: i64,
    end_ts: i64,
    total: u64,
)
    requires
        earlier <= later,
    ensures
        linear_vested(earlier as int, start_ts as int, cliff_ts as int, end_ts as int, total as int)
            <= linear_vested(later as int, start_ts as int, cliff_ts as int, end_ts as int, total as int),
{
    lemma_linear_vested_bounded(earlier, start_ts, cliff_ts, end_ts, total);
    lemma_linear_vested_bounded(later, start_ts, cliff_ts, end_ts, total);
    if cliff_ts <= earlier < end_ts && start_ts <= earlier && start_ts < end_ts && later < end_ts {
        let duration = end_ts - start_ts;
        lemma_mul_inequality(earlier - start_ts, later - start_ts, total as int);
        lemma_mul_is_commutative(earlier - start_ts, total as int);
        lemma_mul_is_commutative(later - start_ts, total as int);
        lemma_div_is_ordered(total * (earlier - start_ts), total * (later - start_ts), duration);
    }
}

/// Integer division rounds down: `x / d` is the largest `q` with `q * d <= x`.
proof fn lemma_floor_division(x: int, d: int)
    requires
        d > 0,
    ensures
        (x / d) * d <= x < (x / d + 1) * d,
{
    lemma_fundamental_div_mod(x, d);
    lemma_mod_bound(x, d);
    assert((x / d) * d <= x < (x / d + 1) * d) by (nonlinear_arith)
        requires
            d > 0,
            x == d * (x / d) + x % d,
            0 <= x % d < d,
    ;
}

/// What the schedule unlocks, stated without reference to how it is computed:
/// nothing before the cliff; the whole grant from the end on, and also once
/// the cliff has passed when the end does not come after the start; nothing
/// before the start; and otherwise the proportional share rounded down, the
/// unique `v` with `v * (end - start) <= total * (now - start) < (v + 1) * (end - start)`.
pub proof fn lemma_linear_vested_characterized(
    now: i64,
    start_ts: i64,
    cliff_ts: i64,
    end_ts: i64,
    total: u64,
)
    ensures
        ({
            let v = linear_vested(now as int, start_ts as int, cliff_ts as int, end_ts as int, total as int);
            &&& now < cliff_ts ==> v == 0
            &&& now >= cliff_ts && now >= end_ts ==> v == total
            &&& cliff_ts <= now < end_ts && end_ts <= start_ts ==> v == total
            &&& cliff_ts <= now < end_ts && now < start_ts && start_ts < end_ts ==> v == 0
            &&& cliff_ts <= now < end_ts && start_ts <= now ==> v * (end_ts - start_ts) <= total * (now
                - start_ts) < (v + 1) * (end_ts - start_ts)
        }),
{
    if cliff_ts <= now < end_ts && start_ts <= now {
        lemma_floor_division(total * (now - start_ts), end_ts - start_ts);
    }
}

/// Tokens unlocked at `now` for a grant that has not been revoked.
pub fn vested_amount(now: i64, start_ts: i64, cliff_ts: i64, end_ts: i64, total: u64) -> (vested: u64)
    ensures
        vested == linear_vested(now as int, start_ts as int, cliff_ts as int, end_ts as int, total as int),
        vested <= total,
        now < cliff_ts ==> vested == 0,
        now >= cliff_ts && now >= end_ts ==> vested == total,
        cliff_ts <= now < end_ts && end_ts <= start_ts ==> vested == total,
        cliff_ts <= now < end_ts && now < start_ts && start_ts < end_ts ==> vested == 0,
        cliff_ts <= now < end_ts && start_ts <= now ==> vested * (end_ts - start_ts) <= total * (now
            - start_ts) < (vested + 1) * (end_ts - start_ts),
{
    proof {
        lemma_linear_vested_characterized(now, start_ts, cliff_ts, end_ts, total);
    }
    if now < cliff_ts {
        return 0;
    }
    if now >= end_ts {
        return total;
    }
    let elapsed_signed: i128 = (now as i128) - (start_ts as i128);
    let elapsed: u128 = if elapsed_signed < 0 { 0 } else { elapsed_signed as u128 };
    let duration_signed: i128 = (end_ts as i128) - (start_ts as i128);
    if duration_signed <= 0 {
        return total;
    }
    let duration: u128 = duration_signed as u128;
    let wide_total: u128 = total as u128;
    assert(wide_total * elapsed <= u128::MAX) by (nonlinear_arith)
        requires
            wide_total <= u64::MAX,
            elapsed <= u64::MAX,
    ;
    let product: u128 = wide_total * elapsed;
    let share: u128 = product / duration;
    proof {
        lemma_share_bounds(total as int, elapsed as int, duration as int);
    }
    let capped: u128 = if share < wide_total { share } else { wide_total };
    capped as u64
}

/// Remaining tokens the beneficiary may withdraw.
pub fn claimable(vested: u64, claimed: u64) -> (amount: u64)
    ensures
        amount == saturating_claimable(vested as int, claimed as int),
        vested >= claimed ==> amount + claimed == vested,
        vested < claimed ==> amount == 0,
{
    vested.saturating_sub(claimed)
}

} // verus!
