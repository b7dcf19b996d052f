//! Positions, the utilization-based interest rate model and interest accrual.
//!
//! Units: rates, utilization, reserve factor and kink are scaled by 1e8
//! (`SCALE`, 1e8 == 100%); smoothing is in basis points (10_000 == 100%);
//! annual rates accrue per second over `SECONDS_PER_YEAR`.  All products and
//! sums saturate at the bounds of `i128`.
use vstd::prelude::*;
use crate::keyed::Keyed;
use crate::math::{SCALE, BPS, SECONDS_PER_YEAR, tdiv, sat, clamp, sat_add, sat_sub, sat_mul, sat_sub_u64, div_pos};

verus! {

/// A user's position in the protocol.
pub struct Position {
    /// The address of the user
    pub user: String,
    /// The amount of collateral deposited
    pub collateral: i128,
    /// The amount borrowed
    pub debt: i128,
    /// Accrued borrow interest
    pub borrow_interest: i128,
    /// Accrued supply interest
    pub supply_interest: i128,
    /// Last time interest was accrued for this position (0: never)
    pub last_accrual_time: u64,
}

impl Keyed for Position {
    type Key = String;

    type KeyView = Seq<char>;

    open spec fn key_view(&self) -> Seq<char> {
        self.user@
    }

    open spec fn view_of_key(k: &String) -> Seq<char> {
        k@
    }

    fn has_key_of(&self, k: &String) -> (b: bool) {
        self.user.eq(k)
    }

    fn key_copy(&self) -> (k: String) {
        self.user.clone()
    }
}

impl Position {
    /// A fresh position with no accrued interest.
    pub fn new(user: String, collateral: i128, debt: i128) -> (p: Self)
        ensures
            p.user == user,
            p.collateral == collateral,
            p.debt == debt,
            p.borrow_interest == 0,
            p.supply_interest == 0,
            p.last_accrual_time == 0,
    {
        Position { user, collateral, debt, borrow_interest: 0, supply_interest: 0, last_accrual_time: 0 }
    }
}

/// Interest rate configuration parameters.
#[derive(Clone, Copy, Debug, PartialEq, Eq, Structural)]
pub struct InterestRateConfig {
    /// Base interest rate (e.g. 2% = 2_000_000)
    pub base_rate: i128,
    /// Utilization point where the rate slope doubles (e.g. 80% = 80_000_000)
    pub kink_utilization: i128,
    /// Rate multiplier (e.g. 10_000_000)
    pub multiplier: i128,
    /// Protocol share of borrow interest (e.g. 10% = 10_000_000)
    pub reserve_factor: i128,
    /// Maximum allowed borrow rate
    pub rate_ceiling: i128,
    /// Minimum allowed borrow rate
    pub rate_floor: i128,
    /// Last time the configuration was updated
    pub last_update: u64,
    /// Smoothing factor for rate changes, in bps (0..=10000)
    pub smoothing_bps: i128,
    /// Volatility sensitivity, in bps
    pub util_sensitivity_bps: i128,
}

impl InterestRateConfig {
    pub open spec fn spec_default() -> Self {
        InterestRateConfig {
            base_rate: 2000000,
            kink_utilization: 80000000,
            multiplier: 10000000,
            reserve_factor: 10000000,
            rate_ceiling: 50000000,
            rate_floor: 100000,
            last_update: 0,
            smoothing_bps: 2000,
            util_sensitivity_bps: 100,
        }
    }
}

impl Default for InterestRateConfig {
    fn default() -> (c: Self)
        ensures
            c == InterestRateConfig::spec_default(),
    {
        InterestRateConfig {
            base_rate: 2000000,
            kink_utilization: 80000000,
            multiplier: 10000000,
            reserve_factor: 10000000,
            rate_ceiling: 50000000,
            rate_floor: 100000,
            last_update: 0,
            smoothing_bps: 2000,
            util_sensitivity_bps: 100,
        }
    }
}

/// Current interest rate state.
#[derive(Clone, Copy, Debug, PartialEq, Eq, Structural)]
pub struct InterestRateState {
    pub current_borrow_rate: i128,
    pub current_supply_rate: i128,
    pub utilization_rate: i128,
    pub total_borrowed: i128,
    pub total_supplied: i128,
    pub last_accrual_time: u64,
    pub smoothed_borrow_rate: i128,
}

impl InterestRateState {
    pub open spec fn spec_initial() -> Self {
        InterestRateState {
            current_borrow_rate: 0,
            current_supply_rate: 0,
            utilization_rate: 0,
            total_borrowed: 0,
            total_supplied: 0,
            last_accrual_time: 0,
            smoothed_borrow_rate: 0,
        }
    }

    /// The state before any accrual: everything zero.
    pub fn initial() -> (s: Self)
        ensures
            s == InterestRateState::spec_initial(),
    {
        InterestRateState {
            current_borrow_rate: 0,
            current_supply_rate: 0,
            utilization_rate: 0,
            total_borrowed: 0,
            total_supplied: 0,
            last_accrual_time: 0,
            smoothed_borrow_rate: 0,
        }
    }
}

/// Utilization `borrowed / supplied` scaled by 1e8 (0 without supply).
pub open spec fn spec_utilization(borrowed: int, supplied: int) -> int {
    if supplied > 0 {
        tdiv(sat(borrowed * SCALE), supplied)
    } else {
        0
    }
}

/// Kinked rate curve before limits: `base + util * m` below the kink,
/// the slope doubling above it.
pub open spec fn spec_curve_rate(util: int, c: InterestRateConfig) -> int {
    if util <= c.kink_utilization {
        sat(c.base_rate + tdiv(sat(util * c.multiplier), SCALE as int))
    } else {
        let kink_rate = sat(c.base_rate + tdiv(sat(c.kink_utilization * c.multiplier), SCALE as int));
        let excess = sat(util - c.kink_utilization);
        sat(kink_rate + tdiv(sat(sat(excess * c.multiplier) * 2), SCALE as int))
    }
}

/// The ceiling, then the floor, applied to a rate.
pub open spec fn spec_limited_rate(rate: int, c: InterestRateConfig) -> int {
    let capped = if rate > c.rate_ceiling {
        c.rate_ceiling as int
    } else {
        rate
    };
    if capped < c.rate_floor {
        c.rate_floor as int
    } else {
        capped
    }
}

/// Exponential smoothing `(old * s + cur * (10000 - s)) / 10000`.
pub open spec fn spec_smoothed(old: int, cur: int, s_bps: int) -> int {
    tdiv(sat(sat(old * s_bps) + sat(cur * sat(BPS - s_bps))), BPS as int)
}

/// Supply rate: the borrow rate less the reserve factor.
pub open spec fn spec_supply_rate(borrow: int, reserve_factor: int) -> int {
    tdiv(sat(borrow * sat(SCALE - reserve_factor)), SCALE as int)
}

/// The state produced by one rate update at time `now`.
pub open spec fn spec_updated_state(s: InterestRateState, c: InterestRateConfig, now: u64) -> InterestRateState {
    let util = spec_utilization(s.total_borrowed as int, s.total_supplied as int);
    let borrow = spec_limited_rate(spec_curve_rate(util, c), c);
    let smoothed = spec_smoothed(s.smoothed_borrow_rate as int, borrow, c.smoothing_bps as int);
    InterestRateState {
        utilization_rate: util as i128,
        current_borrow_rate: borrow as i128,
        smoothed_borrow_rate: smoothed as i128,
        current_supply_rate: spec_supply_rate(smoothed, c.reserve_factor as int) as i128,
        last_accrual_time: now,
        ..s
    }
}

proof fn lemma_tdiv_bounds(a: int, b: int)
    requires
        b > 0,
        i128::MIN <= a <= i128::MAX,
    ensures
        i128::MIN <= tdiv(a, b) <= i128::MAX,
        a >= 0 ==> 0 <= tdiv(a, b) <= a,
        a < 0 ==> a <= tdiv(a, b) <= 0,
{
    if a >= 0 {
        assert(a / b <= a) by (nonlinear_arith)
            requires
                a >= 0,
                b > 0,
        ;
        assert(a / b >= 0) by (nonlinear_arith)
            requires
                a >= 0,
                b > 0,
        ;
    } else {
        assert((-a) / b <= -a) by (nonlinear_arith)
            requires
                -a > 0,
                b > 0,
        ;
        assert((-a) / b >= 0) by (nonlinear_arith)
            requires
                -a > 0,
                b > 0,
        ;
    }
}

/// Utilization of the pool (`InterestRateStorage::update_state`, first step).
pub fn utilization(borrowed: i128, supplied: i128) -> (u: i128)
    ensures
        u == spec_utilization(borrowed as int, supplied as int),
{
    if supplied > 0 {
        let num = sat_mul(borrowed, SCALE);
        proof {
            lemma_tdiv_bounds(num as int, supplied as int);
        }
        div_pos(num, supplied)
    } else {
        0
    }
}

/// Borrow rate for a utilization, after the ceiling and floor.
pub fn borrow_rate_for(util: i128, c: &InterestRateConfig) -> (r: i128)
    ensures
        r == spec_limited_rate(spec_curve_rate(util as int, *c), *c),
{
    let rate = if util <= c.kink_utilization {
        let p = sat_mul(util, c.multiplier);
        proof {
            lemma_tdiv_bounds(p as int, SCALE as int);
        }
        sat_add(c.base_rate, div_pos(p, SCALE))
    } else {
        let p = sat_mul(c.kink_utilization, c.multiplier);
        proof {
            lemma_tdiv_bounds(p as int, SCALE as int);
        }
        let kink_rate = sat_add(c.base_rate, div_pos(p, SCALE));
        let excess = sat_sub(util, c.kink_utilization);
        let q = sat_mul(sat_mul(excess, c.multiplier), 2);
        proof {
            lemma_tdiv_bounds(q as int, SCALE as int);
        }
        sat_add(kink_rate, div_pos(q, SCALE))
    };
    let mut limited = rate;
    if limited > c.rate_ceiling {
        limited = c.rate_ceiling;
    }
    if limited < c.rate_floor {
        limited = c.rate_floor;
    }
    limited
}

/// Smoothed borrow rate.
pub fn smoothed_rate(old: i128, cur: i128, s_bps: i128) -> (r: i128)
    ensures
        r == spec_smoothed(old as int, cur as int, s_bps as int),
{
    let num = sat_add(sat_mul(old, s_bps), sat_mul(cur, sat_sub(BPS, s_bps)));
    proof {
        lemma_tdiv_bounds(num as int, BPS as int);
    }
    div_pos(num, BPS)
}

/// Supply rate derived from a borrow rate.
pub fn supply_rate_for(borrow: i128, reserve_factor: i128) -> (r: i128)
    ensures
        r == spec_supply_rate(borrow as int, reserve_factor as int),
{
    let num = sat_mul(borrow, sat_sub(SCALE, reserve_factor));
    proof {
        lemma_tdiv_bounds(num as int, SCALE as int);
    }
    div_pos(num, SCALE)
}

/// One update of the rate state at time `now` (`InterestRateStorage::update_state`).
pub fn updated_state(s: &InterestRateState, c: &InterestRateConfig, now: u64) -> (r: InterestRateState)
    ensures
        r == spec_updated_state(*s, *c, now),
{
    let util = utilization(s.total_borrowed, s.total_supplied);
    let borrow = borrow_rate_for(util, c);
    let smoothed = smoothed_rate(s.smoothed_borrow_rate, borrow, c.smoothing_bps);
    let supply = supply_rate_for(smoothed, c.reserve_factor);
    InterestRateState {
        current_borrow_rate: borrow,
        current_supply_rate: supply,
        utilization_rate: util,
        total_borrowed: s.total_borrowed,
        total_supplied: s.total_supplied,
        last_accrual_time: now,
        smoothed_borrow_rate: smoothed,
    }
}

/// Interest on `amount` at annual `rate` over `dt` seconds, rounded toward zero.
pub open spec fn spec_interest(amount: int, rate: int, dt: int) -> int {
    tdiv(sat(sat(amount * rate) * dt), SECONDS_PER_YEAR * SCALE)
}

/// A position after accruing interest at time `now`: the first accrual only
/// stamps the time; rates are clamped into `[0, 1e8]`; borrow interest grows
/// with positive debt and supply interest with positive collateral.
pub open spec fn spec_accrued(p: Position, borrow_rate: int, supply_rate: int, now: u64) -> Position {
    if p.last_accrual_time == 0 {
        Position { last_accrual_time: now, ..p }
    } else if now <= p.last_accrual_time {
        p
    } else {
        let dt = now - p.last_accrual_time;
        let br = clamp(borrow_rate, 0, SCALE as int);
        let sr = clamp(supply_rate, 0, SCALE as int);
        Position {
            borrow_interest: if p.debt > 0 {
                sat(p.borrow_interest + spec_interest(p.debt as int, br, dt)) as i128
            } else {
                p.borrow_interest
            },
            supply_interest: if p.collateral > 0 {
                sat(p.supply_interest + spec_interest(p.collateral as int, sr, dt)) as i128
            } else {
                p.supply_interest
            },
            last_accrual_time: now,
            ..p
        }
    }
}

fn clamp_rate(rate: i128) -> (r: i128)
    ensures
        r == clamp(rate as int, 0, SCALE as int),
{
    if rate < 0 {
        0
    } else if rate > SCALE {
        SCALE
    } else {
        rate
    }
}

fn interest(amount: i128, rate: i128, dt: u64) -> (r: i128)
    ensures
        r == spec_interest(amount as int, rate as int, dt as int),
{
    let num = sat_mul(sat_mul(amount, rate), dt as i128);
    proof {
        lemma_tdiv_bounds(num as int, SECONDS_PER_YEAR * SCALE);
    }
    div_pos(num, SECONDS_PER_YEAR * SCALE)
}

/// Interest rate manager.
pub struct InterestRateManager;

impl InterestRateManager {
    /// Accrues borrow and supply interest on a position up to `now`.
    pub fn accrue_interest_for_position(
        now: u64,
        position: &mut Position,
        borrow_rate: i128,
        supply_rate: i128,
    )
        ensures
            *final(position) == spec_accrued(*old(position), borrow_rate as int, supply_rate as int, now),
    {
        if position.last_accrual_time == 0 {
            position.last_accrual_time = now;
            return ;
        }
        let time_delta = sat_sub_u64(now, position.last_accrual_time);
        if time_delta == 0 {
            return ;
        }
        let br = clamp_rate(borrow_rate);
        let sr = clamp_rate(supply_rate);
        if position.debt > 0 {
            let i = interest(position.debt, br, time_delta);
            position.borrow_interest = sat_add(position.borrow_interest, i);
        }
        if position.collateral > 0 {
            let i = interest(position.collateral, sr, time_delta);
            position.supply_interest = sat_add(position.supply_interest, i);
        }
        position.last_accrual_time = now;
    }
}

/// Risk management configuration.
#[derive(Clone, Copy, Debug, PartialEq, Eq, Structural)]
pub struct RiskConfig {
    /// Max share of debt repaid in a single liquidation (scaled by 1e8)
    pub close_factor: i128,
    /// Bonus collateral given to liquidators (scaled by 1e8)
    pub liquidation_incentive: i128,
    pub pause_borrow: bool,
    pub pause_deposit: bool,
    pub pause_withdraw: bool,
    pub pause_liquidate: bool,
    /// Last time the configuration was updated
    pub last_update: u64,
}

impl RiskConfig {
    pub open spec fn spec_default() -> Self {
        RiskConfig {
            close_factor: 50000000,
            liquidation_incentive: 10000000,
            pause_borrow: false,
            pause_deposit: false,
            pause_withdraw: false,
            pause_liquidate: false,
            last_update: 0,
        }
    }
}

impl Default for RiskConfig {
    fn default() -> (c: Self)
        ensures
            c == RiskConfig::spec_default(),
    {
        RiskConfig {
            close_factor: 50000000,
            liquidation_incentive: 10000000,
            pause_borrow: false,
            pause_deposit: false,
            pause_withdraw: false,
            pause_liquidate: false,
            last_update: 0,
        }
    }
}

} // verus!
