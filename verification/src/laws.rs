//! Properties of the protocol that span its operations.
use vstd::prelude::*;
use crate::amm::{pair_view, spec_swap, text_lt, lemma_text_order};
use crate::borrow::{spec_borrow_result, spec_borrow_ratio, spec_borrow_accrued};
use crate::deposit::spec_deposited_position;
use crate::emergency::{EmergencyFund, EmergencyManager, EmergencyStatus, spec_emergency_allows};
use crate::errors::ProtocolError;
use crate::events::{EventStore, EventRecordView, MAX_RECORDS_PER_TYPE, MAX_RECENT_TYPES};
use crate::interest::{InterestRateConfig, InterestRateState, Position, spec_accrued, spec_updated_state, spec_supply_rate, spec_curve_rate};
use crate::emergency::{ParamSettings, spec_apply_update};
use crate::users::UserLimits;
use crate::analytics::{ProtocolMetrics, activity_code, metrics_update_fits, spec_metrics_after};
use crate::math::SECONDS_PER_DAY;
use crate::liquidate::{liquidation_fits, spec_liquidation_gate, spec_liquidation_result, spec_max_liquidation, spec_eligible};
use crate::math::{SCALE, BPS, tdiv, max_int};
use crate::repay::{spec_repay_outcome, spec_repaid_position};
use crate::state::{Protocol, TokenEntry, TokenRegistry, accrued_position, position_in, spec_ratio};
use crate::keyed::map_of;
use crate::users::{UserManager, UserProfile, UserRole, VerificationStatus, profile_in};
use crate::users::OperationKind;
use crate::withdraw::{spec_withdraw_outcome, spec_withdrawn_position};
use crate::oracle::{ints, median_of, within, trim_bounds, max_deviation, spec_median_price, aggregate_fits, all_positive, lemma_within_sub, lemma_sorted_positive};
use vstd::relations::sorted_by;

verus! {

/// After a rate update the borrow rate is never below the floor, and never
/// above the ceiling when the floor does not exceed it.
pub proof fn law_borrow_rate_within_limits(s: InterestRateState, c: InterestRateConfig, now: u64)
    requires
        c.rate_floor <= c.rate_ceiling,
    ensures
        c.rate_floor <= spec_updated_state(s, c, now).current_borrow_rate <= c.rate_ceiling,
{
}

/// The floor always wins: the updated borrow rate is at least the floor.
pub proof fn law_borrow_rate_at_least_floor(s: InterestRateState, c: InterestRateConfig, now: u64)
    ensures
        spec_updated_state(s, c, now).current_borrow_rate >= c.rate_floor,
{
}

/// With a reserve factor within `[0, 1e8]`, suppliers earn no more than a
/// non-negative borrow rate, and nothing negative.
pub proof fn law_supply_rate_at_most_borrow_rate(borrow: int, reserve_factor: int)
    requires
        0 <= borrow <= i128::MAX,
        0 <= reserve_factor <= SCALE,
    ensures
        0 <= spec_supply_rate(borrow, reserve_factor) <= borrow,
{
    let k = SCALE - reserve_factor;
    assert(0 <= borrow * k <= borrow * SCALE) by (nonlinear_arith)
        requires
            0 <= borrow,
            0 <= k <= SCALE,
    ;
    if borrow * k <= i128::MAX {
        assert(borrow * k / (SCALE as int) <= borrow) by (nonlinear_arith)
            requires
                0 <= borrow * k <= borrow * SCALE,
                0 <= borrow,
        ;
        assert(borrow * k / (SCALE as int) >= 0) by (nonlinear_arith)
            requires
                0 <= borrow * k,
        ;
    } else {
        assert((i128::MAX as int) / (SCALE as int) <= borrow) by (nonlinear_arith)
            requires
                i128::MAX < borrow * k,
                borrow * k <= borrow * SCALE,
        ;
    }
}

/// Accruing interest never changes collateral or debt, and never lowers
/// non-negative accrued interest.
pub proof fn law_accrual_keeps_balances(p: Position, borrow_rate: int, supply_rate: int, now: u64)
    requires
        p.borrow_interest >= 0,
        p.supply_interest >= 0,
    ensures
        spec_accrued(p, borrow_rate, supply_rate, now).collateral == p.collateral,
        spec_accrued(p, borrow_rate, supply_rate, now).debt == p.debt,
        spec_accrued(p, borrow_rate, supply_rate, now).borrow_interest >= p.borrow_interest,
        spec_accrued(p, borrow_rate, supply_rate, now).supply_interest >= p.supply_interest,
{
    if p.last_accrual_time != 0 && now > p.last_accrual_time {
        let dt = (now - p.last_accrual_time) as int;
        let br = crate::math::clamp(borrow_rate, 0, SCALE as int);
        let sr = crate::math::clamp(supply_rate, 0, SCALE as int);
        lemma_interest_nonneg(p.debt as int, br, dt);
        lemma_interest_nonneg(p.collateral as int, sr, dt);
    }
}

proof fn lemma_interest_nonneg(amount: int, rate: int, dt: int)
    requires
        rate >= 0,
        dt >= 0,
    ensures
        amount > 0 ==> crate::interest::spec_interest(amount, rate, dt) >= 0,
{
    if amount > 0 {
        assert(amount * rate >= 0) by (nonlinear_arith)
            requires
                amount > 0,
                rate >= 0,
        ;
        let a = crate::math::sat(amount * rate);
        assert(a * dt >= 0) by (nonlinear_arith)
            requires
                a >= 0,
                dt >= 0,
        ;
        let b = crate::math::sat(a * dt);
        let d = crate::math::SECONDS_PER_YEAR * SCALE;
        assert(b / d >= 0) by (nonlinear_arith)
            requires
                b >= 0,
                d > 0,
        ;
    }
}

/// A borrow that succeeds leaves the position at or above the minimum
/// collateral ratio.
pub proof fn law_borrow_keeps_min_ratio(p: &Protocol, borrower: String, amount: i128)
    requires
        spec_borrow_result(p, borrower, amount) is Ok,
    ensures
        spec_borrow_ratio(p, borrower, amount) >= p.spec_min_ratio(),
{
}

/// A withdrawal that starts leaves a position with debt at or above the
/// minimum collateral ratio, with collateral reduced by exactly the amount.
pub proof fn law_withdraw_keeps_min_ratio(p: &Protocol, withdrawer: String, amount: i128, contract_balance: i128)
    requires
        spec_withdraw_outcome(p, withdrawer, amount, contract_balance) is Ok,
    ensures
        spec_withdrawn_position(p, withdrawer, amount).debt > 0 ==> spec_ratio(
            spec_withdrawn_position(p, withdrawer, amount).collateral as int,
            spec_withdrawn_position(p, withdrawer, amount).debt as int,
        ) >= p.spec_min_ratio(),
        spec_withdrawn_position(p, withdrawer, amount).collateral == accrued_position(p, withdrawer).collateral - amount,
        spec_withdrawn_position(p, withdrawer, amount).collateral >= 0,
{
}

/// A repayment that starts lowers the accrued debt by the amount, but not
/// below zero: the debt left is `max(debt - amount, 0)`.
pub proof fn law_repay_never_overpays(p: &Protocol, repayer: String, amount: i128)
    requires
        spec_repay_outcome(p, repayer, amount) is Ok,
    ensures
        spec_repaid_position(p, repayer, amount).debt == max_int(accrued_position(p, repayer).debt - amount, 0),
        spec_repaid_position(p, repayer, amount).collateral == accrued_position(p, repayer).collateral,
{
}

/// A liquidation succeeds only on an undercollateralized position (one with
/// debt and a collateral ratio below the minimum), repays no more than the close factor's share of the debt and no more
/// than asked, and seizes at least `min_out`.
pub proof fn law_liquidation_bounded(p: &Protocol, liquidator: String, user: String, amount: i128, min_out: i128)
    requires
        liquidation_fits(p, liquidator, user, amount),
        spec_liquidation_result(p, liquidator, user, amount, min_out) is Ok,
    ensures
        spec_eligible(p, user),
        position_in(p, user).debt > 0,
        spec_liquidation_result(p, liquidator, user, amount, min_out)->Ok_0.debt_repaid <= spec_max_liquidation(
            position_in(p, user).debt as int,
            p.risk_config.close_factor as int,
        ),
        spec_liquidation_result(p, liquidator, user, amount, min_out)->Ok_0.debt_repaid <= amount,
        spec_liquidation_result(p, liquidator, user, amount, min_out)->Ok_0.collateral_seized >= min_out,
{
}

/// While paused only admin and governance operations run; in recovery
/// repayments, deposits, admin and governance operations run and the rest
/// are refused with `RecoveryModeRestricted`; while operational everything
/// runs.
pub proof fn law_emergency_gates(op: OperationKind)
    ensures
        spec_emergency_allows(EmergencyStatus::Operational, op) is Ok,
        spec_emergency_allows(EmergencyStatus::Paused, op) is Ok <==> (op == OperationKind::Admin || op
            == OperationKind::Governance),
        spec_emergency_allows(EmergencyStatus::Paused, op) is Err ==> spec_emergency_allows(
            EmergencyStatus::Paused,
            op,
        ) == Err::<(), ProtocolError>(ProtocolError::ProtocolPaused),
        spec_emergency_allows(EmergencyStatus::Recovery, op) is Ok <==> (op == OperationKind::Repay || op
            == OperationKind::Deposit || op == OperationKind::Admin || op == OperationKind::Governance),
        spec_emergency_allows(EmergencyStatus::Recovery, op) is Err ==> spec_emergency_allows(
            EmergencyStatus::Recovery,
            op,
        ) == Err::<(), ProtocolError>(ProtocolError::RecoveryModeRestricted),
{
}

/// Every accepted fund adjustment leaves reserved funds within
/// `0..=balance`.
pub proof fn law_fund_stays_consistent(fund: EmergencyFund, token: Option<String>, delta: i128, reserve_delta: i128, now: u64)
    requires
        i128::MIN <= fund.balance + delta <= i128::MAX,
        fund.balance + delta >= 0 ==> i128::MIN <= fund.reserved + reserve_delta <= i128::MAX,
        EmergencyManager::spec_adjusted_fund(fund, token, delta, reserve_delta, now) is Ok,
    ensures
        EmergencyManager::spec_adjusted_fund(fund, token, delta, reserve_delta, now)->Ok_0.consistent(),
{
}

/// The key of a pair does not depend on the order of its assets, and holds
/// them in text order.
pub proof fn law_pair_key_symmetric(a: Seq<char>, b: Seq<char>)
    ensures
        pair_view(a, b) == pair_view(b, a),
        !text_lt(pair_view(a, b).1, pair_view(a, b).0),
{
    lemma_text_order(a, b);
}

/// A successful swap splits the input into the fee (0.3%, truncated) and
/// the output, and delivers at least the minimum asked.
pub proof fn law_swap_conserves_input(p: &Protocol, params: crate::amm::SwapParams)
    requires
        spec_swap(p, params) is Ok,
    ensures
        spec_swap(p, params)->Ok_0.fee_paid + spec_swap(p, params)->Ok_0.amount_out == params.amount_in,
        spec_swap(p, params)->Ok_0.fee_paid == tdiv(params.amount_in * 30, BPS as int),
        spec_swap(p, params)->Ok_0.amount_out >= params.min_amount_out,
        spec_swap(p, params)->Ok_0.fee_paid >= 0,
{
    assert(params.amount_in * 30 >= 0) by (nonlinear_arith)
        requires
            params.amount_in > 0,
    ;
}

/// Appending an event keeps each type's log within 32 records and the
/// list of recent types within 16.
pub proof fn law_event_storage_bounded(before: EventStore, after: EventStore, r: EventRecordView, k: Seq<char>)
    requires
        before.appended(after, r),
        before.log_of(k).len() <= MAX_RECORDS_PER_TYPE,
        before.recent_view().len() <= MAX_RECENT_TYPES,
    ensures
        after.log_of(k).len() <= MAX_RECORDS_PER_TYPE,
        after.recent_view().len() <= MAX_RECENT_TYPES,
        k == r.event_type ==> after.log_of(k).last() == r,
{
}

} // verus!

verus! {

proof fn lemma_sorted_le(t: Seq<int>, i: int, j: int)
    requires
        sorted_by(t, |x: int, y: int| x <= y),
        0 <= i <= j < t.len(),
    ensures
        t[i] <= t[j],
{
    if i < j {
        let leq = |x: int, y: int| x <= y;
        assert(leq(t[i], t[j]));
    }
}

proof fn lemma_median_between(u: Seq<int>, from: int, to: int)
    requires
        sorted_by(u, |x: int, y: int| x <= y),
        0 <= from < to <= u.len(),
        forall|k: int| 0 <= k < u.len() ==> u[k] > 0,
    ensures
        u[from] <= median_of(u, from, to) <= u[to - 1],
{
    let span = to - from;
    let mid = from + span / 2;
    if span % 2 == 1 {
        lemma_sorted_le(u, from, mid);
        lemma_sorted_le(u, mid, to - 1);
    } else {
        lemma_sorted_le(u, from, mid - 1);
        lemma_sorted_le(u, mid - 1, mid);
        lemma_sorted_le(u, mid, to - 1);
        let a = u[mid - 1];
        let b = u[mid];
        assert(a <= (a + b) / 2 <= b) by (nonlinear_arith)
            requires
                0 < a <= b,
        ;
    }
}

/// A member of the sorted copy of the prices is one of the prices.
proof fn lemma_sorted_member(s: Seq<i128>, k: int)
    requires
        0 <= k < ints(s).sort().len(),
    ensures
        exists|i: int| 0 <= i < s.len() && s[i] as int == ints(s).sort()[k],
{
    let t = ints(s).sort();
    ints(s).lemma_sort_ensures();
    vstd::seq_lib::to_multiset_contains(t, t[k]);
    vstd::seq_lib::to_multiset_contains(ints(s), t[k]);
    assert(t.contains(t[k]));
    assert(ints(s).contains(t[k]));
    let i = choose|i: int| 0 <= i < ints(s).len() && ints(s)[i] == t[k];
    assert(s[i] as int == ints(s)[i]);
}

/// The filtered median lies between the smallest and the largest quote:
/// some quote is at most the aggregated price and some quote at least it.
pub proof fn law_median_within_quotes(s: Seq<i128>, trim: i128, deviation_bps: i128)
    requires
        s.len() > 0,
        all_positive(s),
        aggregate_fits(s, 0, trim, deviation_bps),
    ensures
        exists|i: int| 0 <= i < s.len() && s[i] <= spec_median_price(s, trim, deviation_bps),
        exists|j: int| 0 <= j < s.len() && spec_median_price(s, trim, deviation_bps) <= s[j],
{
    let t = ints(s).sort();
    let n = t.len() as int;
    ints(s).lemma_sort_ensures();
    lemma_sorted_positive(s);
    let r = spec_median_price(s, trim, deviation_bps);
    let start = trim_bounds(n, trim).0;
    let end = trim_bounds(n, trim).1;
    assert(t[0] <= r <= t[n - 1]) by {
        if end <= start {
            lemma_sorted_le(t, 0, n / 2);
            lemma_sorted_le(t, n / 2, n - 1);
        } else {
            let med = median_of(t, start, end);
            lemma_median_between(t, start, end);
            lemma_sorted_le(t, 0, start);
            lemma_sorted_le(t, end - 1, n - 1);
            let x = t.subrange(start, end);
            let w = within(x, med, max_deviation(med, deviation_bps));
            let f = w.sort();
            if f.len() > 0 {
                w.lemma_sort_ensures();
                lemma_within_sub(x, med, max_deviation(med, deviation_bps));
                assert forall|k: int| 0 <= k < f.len() implies t[0] <= #[trigger] f[k] <= t[n - 1] by {
                    vstd::seq_lib::to_multiset_contains(f, f[k]);
                    vstd::seq_lib::to_multiset_contains(w, f[k]);
                    assert(f.contains(f[k]));
                    assert(w.contains(f[k]));
                    let q = choose|q: int| 0 <= q < w.len() && w[q] == f[k];
                    assert(x.contains(w[q]));
                    let z = choose|z: int| 0 <= z < x.len() && x[z] == w[q];
                    assert(x[z] == t[start + z]);
                    lemma_sorted_le(t, 0, start + z);
                    lemma_sorted_le(t, start + z, n - 1);
                }
                lemma_median_between(f, 0, f.len() as int);
            }
        }
    }
    lemma_sorted_member(s, 0);
    lemma_sorted_member(s, n - 1);
}

} // verus!

verus! {

/// Accruing twice at the same time accrues once: the second accrual
/// changes nothing.
pub proof fn law_accrual_idempotent(p: Position, br: int, sr: int, br2: int, sr2: int, now: u64)
    ensures
        spec_accrued(spec_accrued(p, br, sr, now), br2, sr2, now) == spec_accrued(p, br, sr, now),
{
}

/// Withdrawing at once what was just deposited restores the collateral the
/// position had (with interest accrued) and leaves its debt alone.
pub proof fn law_withdraw_undoes_deposit(p: &Protocol, after: &Protocol, user: String, amount: i128)
    requires
        after.now == p.now,
        amount > 0,
        after.position_of(user@) == Some(spec_deposited_position(p, user, amount)),
        accrued_position(p, user).collateral + amount <= i128::MAX,
    ensures
        spec_withdrawn_position(after, user, amount).collateral == accrued_position(p, user).collateral,
        spec_withdrawn_position(after, user, amount).debt == accrued_position(p, user).debt,
{
    let acc = accrued_position(p, user);
    let st = spec_updated_state(after.interest_state, after.interest_config, after.now);
    law_accrual_idempotent(
        position_in(p, user),
        spec_updated_state(p.interest_state, p.interest_config, p.now).current_borrow_rate as int,
        spec_updated_state(p.interest_state, p.interest_config, p.now).current_supply_rate as int,
        st.current_borrow_rate as int,
        st.current_supply_rate as int,
        p.now,
    );
    lemma_accrued_collateral_change(acc, amount, st.current_borrow_rate as int, st.current_supply_rate as int, p.now);
}

/// Changing collateral or debt after an accrual at `now` does not make a
/// second accrual at `now` do anything.
proof fn lemma_accrued_collateral_change(acc: Position, amount: i128, br: int, sr: int, now: u64)
    requires
        spec_accrued(acc, br, sr, now) == acc,
    ensures
        spec_accrued((Position { collateral: (acc.collateral + amount) as i128, ..acc }), br, sr, now) == (Position {
            collateral: (acc.collateral + amount) as i128,
            ..acc
        }),
        spec_accrued((Position { debt: (acc.debt + amount) as i128, ..acc }), br, sr, now) == (Position {
            debt: (acc.debt + amount) as i128,
            ..acc
        }),
{
}

/// Repaying at once what was just borrowed restores the debt the position
/// had (with interest accrued), when that debt was not negative.
pub proof fn law_repay_undoes_borrow(p: &Protocol, after: &Protocol, user: String, amount: i128)
    requires
        after.now == p.now,
        amount > 0,
        spec_borrow_accrued(p, user).debt >= 0,
        spec_borrow_accrued(p, user).debt + amount <= i128::MAX,
        after.position_of(user@) == Some(
            (Position { debt: (spec_borrow_accrued(p, user).debt + amount) as i128, ..spec_borrow_accrued(p, user) }),
        ),
    ensures
        spec_repaid_position(after, user, amount).debt == spec_borrow_accrued(p, user).debt,
        spec_repaid_position(after, user, amount).collateral == spec_borrow_accrued(p, user).collateral,
{
    let acc = spec_borrow_accrued(p, user);
    let st = spec_updated_state(after.interest_state, after.interest_config, after.now);
    law_accrual_idempotent(
        position_in(p, user),
        spec_updated_state(p.interest_state, p.interest_config, p.now).current_borrow_rate as int,
        spec_updated_state(p.interest_state, p.interest_config, p.now).current_supply_rate as int,
        st.current_borrow_rate as int,
        st.current_supply_rate as int,
        p.now,
    );
    lemma_accrued_collateral_change(acc, amount, st.current_borrow_rate as int, st.current_supply_rate as int, p.now);
}

} // verus!

verus! {

/// A token registered under a key is what a lookup of that key returns;
/// other keys keep their tokens.
pub proof fn law_registry_reads_back(before: &Protocol, after: &Protocol, entry: TokenEntry, other: Seq<char>)
    requires
        map_of(after.tokens@) == map_of(before.tokens@).insert(entry.key@, entry),
        other != entry.key@,
    ensures
        TokenRegistry::spec_asset(after, entry.key@) == Some(entry.token@),
        TokenRegistry::spec_asset(after, other) == TokenRegistry::spec_asset(before, other),
{
}

/// A stored position is what the position lookup returns; other users'
/// positions are untouched.
pub proof fn law_position_reads_back(before: &Protocol, after: &Protocol, pos: Position, other: Seq<char>)
    requires
        map_of(after.positions@) == map_of(before.positions@).insert(pos.user@, pos),
        other != pos.user@,
    ensures
        after.position_of(pos.user@) == Some(pos),
        after.position_of(other) == before.position_of(other),
{
}

/// The minimum collateral ratio set is the one every later check uses
/// (150 until one is set).
pub proof fn law_min_ratio_reads_back(p: &Protocol, ratio: i128)
    ensures
        (Protocol { min_collateral_ratio: Some(ratio), ..*p }).spec_min_ratio() == ratio,
        p.min_collateral_ratio is None ==> p.spec_min_ratio() == 150,
{
}

/// A role set for a user is the role their profile then holds; privileged
/// roles come verified and suspension freezes.
pub proof fn law_role_reads_back(users: Map<Seq<char>, UserProfile>, user: String, role: UserRole, now: u64)
    ensures
        ({
            let after = users.insert(user@, UserManager::spec_with_role(profile_in(users, user, now), role));
            &&& profile_in(after, user, now).role == role
            &&& (role == UserRole::Suspended) == profile_in(after, user, now).is_frozen
            &&& (role == UserRole::Admin || role == UserRole::Manager || role == UserRole::Analyst)
                ==> profile_in(after, user, now).verification == VerificationStatus::Verified
        }),
{
}

} // verus!

verus! {

/// A position without debt is never liquidated: the attempt is refused as
/// not eligible.
pub proof fn law_debt_free_not_liquidated(p: &Protocol, liquidator: String, user: String, amount: i128, min_out: i128)
    requires
        spec_liquidation_gate(p, liquidator@, user@, amount) is Ok,
        p.position_of(user@) is Some,
        position_in(p, user).debt <= 0,
    ensures
        spec_liquidation_result(p, liquidator, user, amount, min_out) == Err::<
            crate::liquidate::LiquidationResult,
            ProtocolError,
        >(ProtocolError::NotEligibleForLiquidation),
{
}

} // verus!

verus! {

/// The deviation filter keeps exactly the values within `max_diff` of the
/// median: a value is kept if and only if it is one of the values and lies
/// in `[med - max_diff, med + max_diff]`.
pub proof fn law_deviation_filter_keeps_exactly_close(s: Seq<int>, med: int, max_diff: int)
    ensures
        forall|x: int|
            #[trigger] within(s, med, max_diff).contains(x) <==> (s.contains(x) && med - max_diff <= x <= med
                + max_diff),
    decreases s.len(),
{
    if s.len() > 0 {
        let t = s.drop_last();
        let l = s.last();
        law_deviation_filter_keeps_exactly_close(t, med, max_diff);
        let rest = within(t, med, max_diff);
        assert forall|x: int| #[trigger] within(s, med, max_diff).contains(x) <==> (s.contains(x) && med - max_diff
            <= x <= med + max_diff) by {
            assert(s.contains(x) <==> (t.contains(x) || x == l)) by {
                if s.contains(x) {
                    let i = choose|i: int| 0 <= i < s.len() && s[i] == x;
                    if i < s.len() - 1 {
                        assert(t[i] == x);
                    }
                }
                if t.contains(x) {
                    let i = choose|i: int| 0 <= i < t.len() && t[i] == x;
                    assert(s[i] == x);
                }
                if x == l {
                    assert(s[s.len() - 1] == x);
                }
            }
            if med - max_diff <= l <= med + max_diff {
                assert(within(s, med, max_diff) == rest.push(l));
                assert(rest.push(l).contains(x) <==> (rest.contains(x) || x == l)) by {
                    if rest.push(l).contains(x) {
                        let i = choose|i: int| 0 <= i < rest.push(l).len() && rest.push(l)[i] == x;
                        if i < rest.len() {
                            assert(rest[i] == x);
                        }
                    }
                    if rest.contains(x) {
                        let i = choose|i: int| 0 <= i < rest.len() && rest[i] == x;
                        assert(rest.push(l)[i] == x);
                    }
                    if x == l {
                        assert(rest.push(l)[rest.len() as int] == x);
                    }
                }
            } else {
                assert(within(s, med, max_diff) == rest);
            }
        }
    }
}

/// The largest distance the deviation filter keeps is never negative.
proof fn lemma_max_deviation_nonneg(med: int, deviation_bps: i128)
    ensures
        max_deviation(med, deviation_bps) >= 0,
{
    let a = crate::oracle::abs_int(med);
    let d = max_int(deviation_bps as int, 0);
    assert(a * d >= 0) by (nonlinear_arith)
        requires
            a >= 0,
            d >= 0,
    ;
    let x = crate::math::sat(a * d);
    assert(x / 10000 >= 0) by (nonlinear_arith)
        requires
            x >= 0,
    ;
}

/// With the median filter, the aggregated price lies within the allowed
/// deviation of the trimmed median (when trimming leaves samples).
pub proof fn law_filtered_median_near_trimmed_median(s: Seq<i128>, trim: i128, deviation_bps: i128)
    requires
        s.len() > 0,
        all_positive(s),
        aggregate_fits(s, 0, trim, deviation_bps),
        trim_bounds(s.len() as int, trim).1 > trim_bounds(s.len() as int, trim).0,
    ensures
        ({
            let t = ints(s).sort();
            let med = median_of(t, trim_bounds(s.len() as int, trim).0, trim_bounds(s.len() as int, trim).1);
            let md = max_deviation(med, deviation_bps);
            med - md <= spec_median_price(s, trim, deviation_bps) <= med + md
        }),
{
    let t = ints(s).sort();
    let n = t.len() as int;
    ints(s).lemma_sort_ensures();
    lemma_sorted_positive(s);
    let start = trim_bounds(n, trim).0;
    let end = trim_bounds(n, trim).1;
    let med = median_of(t, start, end);
    let md = max_deviation(med, deviation_bps);
    lemma_max_deviation_nonneg(med, deviation_bps);
    let x = t.subrange(start, end);
    let w = within(x, med, md);
    let f = w.sort();
    if f.len() > 0 {
        w.lemma_sort_ensures();
        law_deviation_filter_keeps_exactly_close(x, med, md);
        assert forall|k: int| 0 <= k < f.len() implies med - md <= #[trigger] f[k] <= med + md && f[k] > 0 by {
            vstd::seq_lib::to_multiset_contains(f, f[k]);
            vstd::seq_lib::to_multiset_contains(w, f[k]);
            assert(f.contains(f[k]));
            assert(w.contains(f[k]));
            assert(x.contains(f[k]));
            let z = choose|z: int| 0 <= z < x.len() && x[z] == f[k];
            assert(x[z] == t[start + z]);
        }
        lemma_median_between(f, 0, f.len() as int);
    }
}

/// The moderate range in which the rate curve's arithmetic never saturates.
pub open spec fn moderate_curve(c: InterestRateConfig) -> bool {
    &&& 0 <= c.multiplier <= 1_000_000_000_000_000_000
    &&& 0 <= c.kink_utilization <= 1_000_000_000_000_000_000
    &&& -1_000_000_000_000_000_000_000_000_000_000_000_000 <= c.base_rate
        <= 1_000_000_000_000_000_000_000_000_000_000_000_000
}

proof fn lemma_curve_below(c: InterestRateConfig, u: int)
    requires
        moderate_curve(c),
        0 <= u <= c.kink_utilization,
    ensures
        spec_curve_rate(u, c) == c.base_rate + (u * c.multiplier) / (SCALE as int),
        0 <= (u * c.multiplier) / (SCALE as int) <= (c.kink_utilization * c.multiplier) / (SCALE as int),
{
    let m = c.multiplier as int;
    let k = c.kink_utilization as int;
    assert(0 <= u * m <= k * m <= 1_000_000_000_000_000_000_000_000_000_000_000_000) by (nonlinear_arith)
        requires
            0 <= u <= k,
            0 <= k <= 1_000_000_000_000_000_000,
            0 <= m <= 1_000_000_000_000_000_000,
    ;
    vstd::arithmetic::div_mod::lemma_div_is_ordered(u * m, k * m, SCALE as int);
    vstd::arithmetic::div_mod::lemma_div_is_ordered(0, u * m, SCALE as int);
    vstd::arithmetic::div_mod::lemma_div_is_ordered(k * m, 1_000_000_000_000_000_000_000_000_000_000_000_000, SCALE as int);
}

proof fn lemma_curve_above(c: InterestRateConfig, u: int)
    requires
        moderate_curve(c),
        c.kink_utilization < u <= 1_000_000_000_000_000_000,
    ensures
        spec_curve_rate(u, c) == spec_curve_rate(c.kink_utilization as int, c) + ((u - c.kink_utilization) * c.multiplier
            * 2) / (SCALE as int),
        0 <= ((u - c.kink_utilization) * c.multiplier * 2) / (SCALE as int),
{
    let m = c.multiplier as int;
    let k = c.kink_utilization as int;
    let e = u - k;
    lemma_curve_below(c, k);
    assert(0 <= e * m <= 1_000_000_000_000_000_000_000_000_000_000_000_000) by (nonlinear_arith)
        requires
            0 < e <= 1_000_000_000_000_000_000,
            0 <= m <= 1_000_000_000_000_000_000,
    ;
    assert(0 <= k * m <= 1_000_000_000_000_000_000_000_000_000_000_000_000) by (nonlinear_arith)
        requires
            0 <= k <= 1_000_000_000_000_000_000,
            0 <= m <= 1_000_000_000_000_000_000,
    ;
    vstd::arithmetic::div_mod::lemma_div_is_ordered(0, e * m * 2, SCALE as int);
    vstd::arithmetic::div_mod::lemma_div_is_ordered(e * m * 2, 2_000_000_000_000_000_000_000_000_000_000_000_000, SCALE as int);
    vstd::arithmetic::div_mod::lemma_div_is_ordered(k * m, 1_000_000_000_000_000_000_000_000_000_000_000_000, SCALE as int);
    vstd::arithmetic::div_mod::lemma_div_is_ordered(0, k * m, SCALE as int);
}

/// Above the kink the rate continues from the rate at the kink, rising at
/// twice the slope: `rate(u) = rate(kink) + (u - kink) * multiplier * 2 / 1e8`,
/// where `rate(kink) = base + kink * multiplier / 1e8` (in the range where
/// nothing saturates).
pub proof fn law_curve_continues_at_kink(c: InterestRateConfig, u: int)
    requires
        moderate_curve(c),
        c.kink_utilization < u <= 1_000_000_000_000_000_000,
    ensures
        spec_curve_rate(c.kink_utilization as int, c) == c.base_rate + (c.kink_utilization * c.multiplier) / (SCALE as int),
        spec_curve_rate(u, c) == c.base_rate + (c.kink_utilization * c.multiplier) / (SCALE as int) + ((u
            - c.kink_utilization) * c.multiplier * 2) / (SCALE as int),
{
    lemma_curve_below(c, c.kink_utilization as int);
    lemma_curve_above(c, u);
}

/// The rate curve never falls as utilization grows (non-negative
/// multiplier, in the range where nothing saturates).
pub proof fn law_curve_rate_monotone(c: InterestRateConfig, u1: int, u2: int)
    requires
        moderate_curve(c),
        0 <= u1 <= u2 <= 1_000_000_000_000_000_000,
    ensures
        spec_curve_rate(u1, c) <= spec_curve_rate(u2, c),
{
    let k = c.kink_utilization as int;
    let m = c.multiplier as int;
    if u2 <= k {
        lemma_curve_below(c, u1);
        lemma_curve_below(c, u2);
        assert(u1 * m <= u2 * m) by (nonlinear_arith)
            requires
                u1 <= u2,
                m >= 0,
        ;
        vstd::arithmetic::div_mod::lemma_div_is_ordered(u1 * m, u2 * m, SCALE as int);
    } else if u1 <= k {
        lemma_curve_below(c, u1);
        lemma_curve_below(c, k);
        lemma_curve_above(c, u2);
    } else {
        lemma_curve_above(c, u1);
        lemma_curve_above(c, u2);
        assert((u1 - k) * m * 2 <= (u2 - k) * m * 2) by (nonlinear_arith)
            requires
                u1 <= u2,
                m >= 0,
        ;
        vstd::arithmetic::div_mod::lemma_div_is_ordered((u1 - k) * m * 2, (u2 - k) * m * 2, SCALE as int);
    }
}

/// An emergency update sets exactly the parameter it names and nothing
/// else; the ratio and the fee need a configured admin and a valid value;
/// any other key is refused.
pub proof fn law_param_update_sets_named_parameter(s: ParamSettings, admin: Option<String>, key: Seq<char>, v: i128)
    ensures
        key == "rate_ceiling"@ ==> spec_apply_update(s, admin, key, v) == Ok::<ParamSettings, ProtocolError>(
            ParamSettings { interest_config: InterestRateConfig { rate_ceiling: v, ..s.interest_config }, ..s },
        ),
        key == "rate_floor"@ ==> spec_apply_update(s, admin, key, v) == Ok::<ParamSettings, ProtocolError>(
            ParamSettings { interest_config: InterestRateConfig { rate_floor: v, ..s.interest_config }, ..s },
        ),
        key == "reserve_factor"@ ==> spec_apply_update(s, admin, key, v) == Ok::<ParamSettings, ProtocolError>(
            ParamSettings { interest_config: InterestRateConfig { reserve_factor: v, ..s.interest_config }, ..s },
        ),
        key == "base_rate"@ ==> spec_apply_update(s, admin, key, v) == Ok::<ParamSettings, ProtocolError>(
            ParamSettings { interest_config: InterestRateConfig { base_rate: v, ..s.interest_config }, ..s },
        ),
        key == "kink_utilization"@ ==> spec_apply_update(s, admin, key, v) == Ok::<ParamSettings, ProtocolError>(
            ParamSettings { interest_config: InterestRateConfig { kink_utilization: v, ..s.interest_config }, ..s },
        ),
        key == "multiplier"@ ==> spec_apply_update(s, admin, key, v) == Ok::<ParamSettings, ProtocolError>(
            ParamSettings { interest_config: InterestRateConfig { multiplier: v, ..s.interest_config }, ..s },
        ),
        key == "min_collateral_ratio"@ && admin is Some && v > 0 ==> spec_apply_update(s, admin, key, v) == Ok::<
            ParamSettings,
            ProtocolError,
        >(ParamSettings { min_collateral_ratio: Some(v), ..s }),
        key == "flash_fee_bps"@ && admin is Some && 0 <= v <= 10000 ==> spec_apply_update(s, admin, key, v) == Ok::<
            ParamSettings,
            ProtocolError,
        >(ParamSettings { flash_loan_fee_bps: Some(v), ..s }),
        (key == "min_collateral_ratio"@ || key == "flash_fee_bps"@) && admin is None ==> spec_apply_update(
            s,
            admin,
            key,
            v,
        ) == Err::<ParamSettings, ProtocolError>(ProtocolError::ConfigurationError),
        key != "rate_ceiling"@ && key != "rate_floor"@ && key != "reserve_factor"@ && key != "base_rate"@ && key
            != "kink_utilization"@ && key != "multiplier"@ && key != "min_collateral_ratio"@ && key
            != "flash_fee_bps"@ ==> spec_apply_update(s, admin, key, v) == Err::<ParamSettings, ProtocolError>(
            ProtocolError::InvalidParameters,
        ),
{
    reveal_strlit("min_collateral_ratio");
    reveal_strlit("reserve_factor");
    reveal_strlit("base_rate");
    reveal_strlit("kink_utilization");
    reveal_strlit("multiplier");
    reveal_strlit("rate_ceiling");
    reveal_strlit("rate_floor");
    reveal_strlit("flash_fee_bps");
    assert("min_collateral_ratio"@ != "reserve_factor"@) by {
        assert("min_collateral_ratio"@[0] != "reserve_factor"@[0]);
    }
    assert("min_collateral_ratio"@ != "base_rate"@) by {
        assert("min_collateral_ratio"@[0] != "base_rate"@[0]);
    }
    assert("min_collateral_ratio"@ != "kink_utilization"@) by {
        assert("min_collateral_ratio"@[0] != "kink_utilization"@[0]);
    }
    assert("min_collateral_ratio"@ != "multiplier"@) by {
        assert("min_collateral_ratio"@[1] != "multiplier"@[1]);
    }
    assert("min_collateral_ratio"@ != "rate_ceiling"@) by {
        assert("min_collateral_ratio"@[0] != "rate_ceiling"@[0]);
    }
    assert("min_collateral_ratio"@ != "rate_floor"@) by {
        assert("min_collateral_ratio"@[0] != "rate_floor"@[0]);
    }
    assert("min_collateral_ratio"@ != "flash_fee_bps"@) by {
        assert("min_collateral_ratio"@[0] != "flash_fee_bps"@[0]);
    }
    assert("reserve_factor"@ != "base_rate"@) by {
        assert("reserve_factor"@[0] != "base_rate"@[0]);
    }
    assert("reserve_factor"@ != "kink_utilization"@) by {
        assert("reserve_factor"@[0] != "kink_utilization"@[0]);
    }
    assert("reserve_factor"@ != "multiplier"@) by {
        assert("reserve_factor"@[0] != "multiplier"@[0]);
    }
    assert("reserve_factor"@ != "rate_ceiling"@) by {
        assert("reserve_factor"@[1] != "rate_ceiling"@[1]);
    }
    assert("reserve_factor"@ != "rate_floor"@) by {
        assert("reserve_factor"@[1] != "rate_floor"@[1]);
    }
    assert("reserve_factor"@ != "flash_fee_bps"@) by {
        assert("reserve_factor"@[0] != "flash_fee_bps"@[0]);
    }
    assert("base_rate"@ != "kink_utilization"@) by {
        assert("base_rate"@[0] != "kink_utilization"@[0]);
    }
    assert("base_rate"@ != "multiplier"@) by {
        assert("base_rate"@[0] != "multiplier"@[0]);
    }
    assert("base_rate"@ != "rate_ceiling"@) by {
        assert("base_rate"@[0] != "rate_ceiling"@[0]);
    }
    assert("base_rate"@ != "rate_floor"@) by {
        assert("base_rate"@[0] != "rate_floor"@[0]);
    }
    assert("base_rate"@ != "flash_fee_bps"@) by {
        assert("base_rate"@[0] != "flash_fee_bps"@[0]);
    }
    assert("kink_utilization"@ != "multiplier"@) by {
        assert("kink_utilization"@[0] != "multiplier"@[0]);
    }
    assert("kink_utilization"@ != "rate_ceiling"@) by {
        assert("kink_utilization"@[0] != "rate_ceiling"@[0]);
    }
    assert("kink_utilization"@ != "rate_floor"@) by {
        assert("kink_utilization"@[0] != "rate_floor"@[0]);
    }
    assert("kink_utilization"@ != "flash_fee_bps"@) by {
        assert("kink_utilization"@[0] != "flash_fee_bps"@[0]);
    }
    assert("multiplier"@ != "rate_ceiling"@) by {
        assert("multiplier"@[0] != "rate_ceiling"@[0]);
    }
    assert("multiplier"@ != "rate_floor"@) by {
        assert("multiplier"@[0] != "rate_floor"@[0]);
    }
    assert("multiplier"@ != "flash_fee_bps"@) by {
        assert("multiplier"@[0] != "flash_fee_bps"@[0]);
    }
    assert("rate_ceiling"@ != "rate_floor"@) by {
        assert("rate_ceiling"@[5] != "rate_floor"@[5]);
    }
    assert("rate_ceiling"@ != "flash_fee_bps"@) by {
        assert("rate_ceiling"@[0] != "flash_fee_bps"@[0]);
    }
    assert("rate_floor"@ != "flash_fee_bps"@) by {
        assert("rate_floor"@[0] != "flash_fee_bps"@[0]);
    }
}

/// A daily window at least a day old restarts at `now` with nothing spent,
/// keeping the limits; a younger window is kept as it is. So a day after
/// the window opened, any operation within the per-operation and daily
/// limits is accepted whatever was spent before.
pub proof fn law_daily_window_restarts(l: UserLimits, now: u64, amount: i128)
    ensures
        now >= l.daily_window_start + SECONDS_PER_DAY ==> l.spec_refreshed(now) == (UserLimits {
            daily_spent: 0,
            daily_window_start: now,
            ..l
        }),
        now < l.daily_window_start + SECONDS_PER_DAY ==> l.spec_refreshed(now) == l,
        now >= l.daily_window_start + SECONDS_PER_DAY && 0 < amount <= l.max_deposit && amount <= l.daily_limit
            ==> l.spec_refreshed(now).spec_check(OperationKind::Deposit, amount) is Ok,
{
}

/// The value locked follows the flows: a deposit raises it by the amount, a
/// withdrawal lowers it by the amount, other activities leave it, and it
/// always moves with deposits less withdrawals.
pub proof fn law_value_locked_tracks_flows(m: ProtocolMetrics, activity: Seq<char>, amount: i128, now: u64)
    requires
        metrics_update_fits(m, activity_code(activity), amount),
    ensures
        ({
            let n = spec_metrics_after(m, activity_code(activity), amount, now);
            &&& n.total_value_locked - (n.total_deposits - n.total_withdrawals) == m.total_value_locked - (
            m.total_deposits - m.total_withdrawals)
            &&& activity == "deposit"@ ==> n.total_value_locked == m.total_value_locked + amount
            &&& activity == "withdraw"@ ==> n.total_value_locked == m.total_value_locked - amount
                && n.total_withdrawals == m.total_withdrawals + amount
            &&& activity != "deposit"@ && activity != "withdraw"@ ==> n.total_value_locked == m.total_value_locked
        }),
{
    reveal_strlit("deposit");
    reveal_strlit("borrow");
    reveal_strlit("withdraw");
    reveal_strlit("repay");
    reveal_strlit("liquidate");
    assert("withdraw"@ != "deposit"@) by {
        assert("withdraw"@[0] != "deposit"@[0]);
    }
    assert("withdraw"@ != "borrow"@) by {
        assert("withdraw"@[0] != "borrow"@[0]);
    }
}

} // verus!
