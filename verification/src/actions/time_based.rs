use vstd::prelude::*;
use crate::state::Pool;

verus! {

/// `a - b`, or zero where `b` is the larger.
pub open spec fn floored_difference(a: int, b: int) -> int {
    if a > b {
        a - b
    } else {
        0
    }
}

/// `a / b` rounded down, or zero where there is nothing to divide by.
pub open spec fn quotient_or_zero(a: int, b: int) -> int {
    if b > 0 {
        a / b
    } else {
        0
    }
}

/// How far through the pool's window a position is, in percent: the time from
/// the window's start to the deposit, plus the time from the window's start to
/// `current_slot`, over the window's length. Times before the start count as
/// zero, and so does the whole where the window has no length.
pub open spec fn time_in_pool_pct(pool: Pool, deposit_time: u64, current_slot: u64) -> int {
    quotient_or_zero(
        100 * (floored_difference(deposit_time as int, pool.start_time as int)
            + floored_difference(current_slot as int, pool.start_time as int)),
        floored_difference(pool.end_time as int, pool.start_time as int),
    )
}

/// The share of its own collateral, in percent, that a position gives up for
/// leaving at `time_pct`: all of it at zero, falling with the cube of the time,
/// none of it from one hundred on.
pub open spec fn penalty_pct(time_pct: int) -> int {
    floored_difference(100, time_pct * time_pct * time_pct / 10_000)
}

/// What a position gets back of its own collateral.
pub open spec fn collateral_refund(collateral: int, time_pct: int) -> int {
    floored_difference(collateral, collateral * penalty_pct(time_pct) / 100)
}

/// The position's principal as a share of all principal held, in percent.
pub open spec fn share_pct(deposit: int, total_principal: int) -> int {
    quotient_or_zero(100 * deposit, total_principal)
}

/// The share, in percent, of its part of the reserve that a position earns
/// for leaving at `time_pct`: it grows with the square of the time.
pub open spec fn reward_pct(time_pct: int) -> int {
    time_pct * time_pct / 100
}

/// What a position earns from the reserve that is left once its own refund
/// is set aside: its share of that rest by principal, taken at the reward
/// rate.
pub open spec fn rewards(pool_collateral: int, collateral: int, share: int, time_pct: int) -> int {
    ((floored_difference(pool_collateral, collateral_refund(collateral, time_pct)) * share / 100)
        * reward_pct(time_pct)) / 100
}

/// The collateral that leaves the reserve with a time-based withdrawal.
pub open spec fn time_based_release(
    pool_collateral: int,
    collateral: int,
    share: int,
    time_pct: int,
) -> int {
    collateral_refund(collateral, time_pct) + rewards(pool_collateral, collateral, share, time_pct)
}

/// One more than the largest value of 64 bits.
pub open spec fn beyond_u64() -> int {
    0x1_0000_0000_0000_0000
}

/// `a * b / 100`, rounded down, where the product fits 128 bits. Where it does
/// not, the quotient is at least a hundred times what 64 bits can hold.
fn percent_product(a: u128, b: u128) -> (scaled: Option<u128>)
    ensures
        scaled matches Some(value) ==> value == a * b / 100,
        scaled is None ==> a * b / 100 >= 100 * beyond_u64(),
{
    match a.checked_mul(b) {
        Some(product) => Some(product / 100),
        None => None,
    }
}

/// Computes `time_in_pool_pct`.
pub fn time_in_pool(pool: &Pool, deposit_time: u64, current_slot: u64) -> (time_pct: u128)
    ensures
        time_pct == time_in_pool_pct(*pool, deposit_time, current_slot),
{
    let total_slots: u64 = pool.end_time.saturating_sub(pool.start_time);
    let slots_passed: u64 = current_slot.saturating_sub(pool.start_time);
    let slots_before: u64 = deposit_time.saturating_sub(pool.start_time);
    if total_slots == 0 {
        return 0;
    }
    let held: u128 = slots_before as u128 + slots_passed as u128;
    (100 * held) / (total_slots as u128)
}

/// Computes `penalty_pct`.
pub fn penalty_percentage(time_pct: u128) -> (penalty: u64)
    ensures
        penalty == penalty_pct(time_pct as int),
        penalty <= 100,
{
    if time_pct >= 100 {
        assert(time_pct * time_pct * time_pct >= 1_000_000) by (nonlinear_arith)
            requires
                time_pct >= 100,
        ;
        0
    } else {
        assert(time_pct * time_pct <= 9_801 && time_pct * time_pct * time_pct <= 970_299)
            by (nonlinear_arith)
            requires
                time_pct <= 99,
        ;
        let cube: u128 = time_pct * time_pct * time_pct;
        let earned: u128 = cube / 10_000;
        (100 - earned) as u64
    }
}

/// Computes `collateral_refund`.
pub fn refund_of(collateral: u64, time_pct: u128) -> (refund: u64)
    ensures
        refund == collateral_refund(collateral as int, time_pct as int),
        refund <= collateral,
{
    let penalty: u64 = penalty_percentage(time_pct);
    assert(collateral * penalty <= collateral * 100) by (nonlinear_arith)
        requires
            penalty <= 100,
    ;
    let forfeited: u128 = (collateral as u128 * penalty as u128) / 100;
    (collateral as u128 - forfeited) as u64
}

/// Computes `rewards`; `None` where they are more than 64 bits hold.
pub fn rewards_of(
    pool_collateral: u64,
    collateral: u64,
    deposit: u64,
    total_principal: u64,
    time_pct: u128,
) -> (earned: Option<u64>)
    ensures
        ({
            let due = rewards(
                pool_collateral as int,
                collateral as int,
                share_pct(deposit as int, total_principal as int),
                time_pct as int,
            );
            if due <= u64::MAX {
                earned == Some(due as u64)
            } else {
                earned is None
            }
        }),
{
    let refund: u64 = refund_of(collateral, time_pct);
    let rest: u64 = pool_collateral.saturating_sub(refund);
    let share: u128 = if total_principal == 0 {
        0
    } else {
        (100 * (deposit as u128)) / (total_principal as u128)
    };
    let part: Option<u128> = percent_product(rest as u128, share);
    let rate: Option<u128> = percent_product(time_pct, time_pct);
    proof {
        lemma_rewards_when_large(rest as int * share as int / 100, reward_pct(time_pct as int));
    }
    match (part, rate) {
        (Some(part), Some(rate)) => {
            match percent_product(part, rate) {
                Some(due) => {
                    if due > u64::MAX as u128 {
                        None
                    } else {
                        Some(due as u64)
                    }
                },
                None => None,
            }
        },
        (Some(part), None) => {
            if part == 0 {
                Some(0)
            } else {
                None
            }
        },
        (None, Some(rate)) => {
            if rate == 0 {
                Some(0)
            } else {
                None
            }
        },
        (None, None) => None,
    }
}

/// A product of two factors, one of them at least a hundred times what 64
/// bits hold and the other at least one, is still too large for 64 bits after
/// it is divided by a hundred.
proof fn lemma_rewards_when_large(part: int, rate: int)
    requires
        part >= 0,
        rate >= 0,
    ensures
        part >= 100 * beyond_u64() && rate >= 1 ==> part * rate / 100 >= beyond_u64(),
        rate >= 100 * beyond_u64() && part >= 1 ==> part * rate / 100 >= beyond_u64(),
        part == 0 || rate == 0 ==> part * rate / 100 == 0,
{
    if part >= 100 * beyond_u64() && rate >= 1 {
        assert(part * rate >= 100 * beyond_u64()) by (nonlinear_arith)
            requires
                part >= 100 * beyond_u64(),
                rate >= 1,
        ;
    }
    if rate >= 100 * beyond_u64() && part >= 1 {
        assert(part * rate >= 100 * beyond_u64()) by (nonlinear_arith)
            requires
                rate >= 100 * beyond_u64(),
                part >= 1,
        ;
    }
    if part == 0 || rate == 0 {
        assert(part * rate == 0) by (nonlinear_arith)
            requires
                part == 0 || rate == 0,
        ;
    }
}

/// Computes `time_based_release`; `None` where it is more than 64 bits hold.
pub fn time_based_return(
    pool_collateral: u64,
    collateral: u64,
    deposit: u64,
    total_principal: u64,
    time_pct: u128,
) -> (released: Option<u64>)
    ensures
        ({
            let due = time_based_release(
                pool_collateral as int,
                collateral as int,
                share_pct(deposit as int, total_principal as int),
                time_pct as int,
            );
            if due <= u64::MAX {
                released == Some(due as u64)
            } else {
                released is None
            }
        }),
{
    let refund: u64 = refund_of(collateral, time_pct);
    match rewards_of(pool_collateral, collateral, deposit, total_principal, time_pct) {
        Some(earned) => refund.checked_add(earned),
        None => None,
    }
}

/// The time in the pool does not fall as the clock advances.
pub proof fn lemma_time_in_pool_grows(pool: Pool, deposit_time: u64, earlier: u64, later: u64)
    requires
        earlier <= later,
    ensures
        0 <= time_in_pool_pct(pool, deposit_time, earlier) <= time_in_pool_pct(
            pool,
            deposit_time,
            later,
        ),
{
    let window = floored_difference(pool.end_time as int, pool.start_time as int);
    let before = floored_difference(deposit_time as int, pool.start_time as int);
    let held_earlier = 100 * (before + floored_difference(earlier as int, pool.start_time as int));
    let held_later = 100 * (before + floored_difference(later as int, pool.start_time as int));
    if window > 0 {
        vstd::arithmetic::div_mod::lemma_div_is_ordered(held_earlier, held_later, window);
        vstd::arithmetic::div_mod::lemma_div_is_ordered(0, held_earlier, window);
    }
}

/// `x * k / 100` does not fall when `x` or `k` grows.
proof fn lemma_percent_grows(x: int, y: int, k: int, m: int)
    requires
        0 <= x <= y,
        0 <= k <= m,
    ensures
        x * k / 100 <= y * m / 100,
{
    assert(x * k <= y * m) by (nonlinear_arith)
        requires
            0 <= x <= y,
            0 <= k <= m,
    ;
}

/// Adding `d` to an amount adds at most `d` to any percentage of it up to a
/// hundred.
proof fn lemma_percent_of_sum(a: int, d: int, k: int)
    requires
        0 <= a,
        0 <= d,
        0 <= k <= 100,
    ensures
        (a + d) * k / 100 <= a * k / 100 + d,
{
    assert((a + d) * k <= a * k + 100 * d) by (nonlinear_arith)
        requires
            0 <= a,
            0 <= d,
            0 <= k <= 100,
    ;
}

/// The penalty does not rise with time, and is between nothing and all.
proof fn lemma_penalty_falls(earlier: int, later: int)
    requires
        0 <= earlier <= later,
    ensures
        0 <= penalty_pct(later) <= penalty_pct(earlier) <= 100,
{
    assert(0 <= earlier * earlier * earlier <= later * later * later) by (nonlinear_arith)
        requires
            0 <= earlier <= later,
    ;
}

/// The refund does not fall with time, and is between nothing and the whole
/// collateral.
proof fn lemma_refund_grows(collateral: int, earlier: int, later: int)
    requires
        0 <= collateral,
        0 <= earlier <= later,
    ensures
        0 <= collateral_refund(collateral, earlier) <= collateral_refund(collateral, later)
            <= collateral,
{
    lemma_penalty_falls(earlier, later);
    lemma_percent_grows(collateral, collateral, penalty_pct(later), penalty_pct(earlier));
    lemma_percent_grows(collateral, collateral, penalty_pct(earlier), 100);
    lemma_percent_grows(0, collateral, 0, penalty_pct(later));
}

/// For a position whose principal is no more than all principal held, what a
/// time-based withdrawal releases does not fall as the time in the pool grows
/// from nothing to the full window.
pub proof fn lemma_release_grows_with_time(
    pool_collateral: int,
    collateral: int,
    share: int,
    earlier: int,
    later: int,
)
    requires
        0 <= pool_collateral,
        0 <= collateral,
        0 <= share <= 100,
        0 <= earlier <= later <= 100,
    ensures
        time_based_release(pool_collateral, collateral, share, earlier) <= time_based_release(
            pool_collateral,
            collateral,
            share,
            later,
        ),
{
    lemma_refund_grows(collateral, earlier, later);
    let gained = collateral_refund(collateral, later) - collateral_refund(collateral, earlier);
    let rest_earlier = floored_difference(pool_collateral, collateral_refund(collateral, earlier));
    let rest_later = floored_difference(pool_collateral, collateral_refund(collateral, later));
    let part_earlier = rest_earlier * share / 100;
    let part_later = rest_later * share / 100;
    assert(0 <= reward_pct(earlier) <= reward_pct(later) <= 100) by (nonlinear_arith)
        requires
            0 <= earlier <= later <= 100,
    ;
    // The rest of the reserve shrinks by no more than the refund has gained,
    // and so does the position's part of it.
    lemma_percent_grows(rest_earlier, rest_later + gained, share, share);
    lemma_percent_of_sum(rest_later, gained, share);
    lemma_percent_grows(0, rest_later, 0, share);
    assert(0 <= part_later && part_earlier <= part_later + gained);
    // The rewards on that part shrink by no more than the same.
    lemma_percent_grows(part_earlier, part_later + gained, reward_pct(earlier), reward_pct(earlier));
    lemma_percent_of_sum(part_later, gained, reward_pct(earlier));
    lemma_percent_grows(part_later, part_later, reward_pct(earlier), reward_pct(later));
}

/// At the full window nothing is forfeited: the penalty is zero and the
/// refund is the whole collateral. Where the reserve holds no more than that
/// collateral, nothing is earned on top of it.
pub proof fn lemma_release_at_full_time(pool_collateral: int, collateral: int, share: int)
    requires
        0 <= collateral,
    ensures
        penalty_pct(100) == 0,
        collateral_refund(collateral, 100) == collateral,
        pool_collateral <= collateral ==> time_based_release(
            pool_collateral,
            collateral,
            share,
            100,
        ) == collateral,
{
    assert(collateral * 0 == 0);
    assert(0 * share == 0) by (nonlinear_arith);
    assert(0 * reward_pct(100) == 0) by (nonlinear_arith);
}

} // verus!
