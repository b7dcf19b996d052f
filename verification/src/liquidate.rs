//! Liquidation of undercollateralized positions.
use vstd::prelude::*;
use crate::address::{AddressHelper, spec_valid_address};
use crate::analytics::{AnalyticsModule, recorded, record_fits, analytics_capture, analytics_notice};
use crate::emergency::{EmergencyManager, spec_emergency_allows};
use crate::errors::ProtocolError;
use crate::events::{ProtocolEvent, Notice, capture_view};
use crate::interest::Position;
use crate::keyed::map_of;
use crate::math::{SCALE, tdiv};
use crate::state::{Protocol, ProtocolConfig, ReentrancyGuard, RiskConfigStorage, StateHelper, position_in, spec_ratio, ratio_fits, collateral_ratio};
use crate::users::OperationKind;

verus! {

/// Liquidation-specific errors.
#[derive(Clone, Copy, Debug, PartialEq, Eq, Structural)]
pub enum LiquidationError {
    InvalidAmount,
    InvalidAddress,
    ProtocolPaused,
    PositionNotFound,
    NotEligibleForLiquidation,
    InsufficientLiquidationAmount,
}

impl LiquidationError {
    pub open spec fn spec_into(self) -> ProtocolError {
        match self {
            LiquidationError::InvalidAmount => ProtocolError::InvalidAmount,
            LiquidationError::InvalidAddress => ProtocolError::InvalidAddress,
            LiquidationError::ProtocolPaused => ProtocolError::ProtocolPaused,
            LiquidationError::PositionNotFound => ProtocolError::PositionNotFound,
            LiquidationError::NotEligibleForLiquidation => ProtocolError::NotEligibleForLiquidation,
            LiquidationError::InsufficientLiquidationAmount => ProtocolError::InvalidAmount,
        }
    }
}

impl From<LiquidationError> for ProtocolError {
    fn from(err: LiquidationError) -> (r: ProtocolError) {
        match err {
            LiquidationError::InvalidAmount => ProtocolError::InvalidAmount,
            LiquidationError::InvalidAddress => ProtocolError::InvalidAddress,
            LiquidationError::ProtocolPaused => ProtocolError::ProtocolPaused,
            LiquidationError::PositionNotFound => ProtocolError::PositionNotFound,
            LiquidationError::NotEligibleForLiquidation => ProtocolError::NotEligibleForLiquidation,
            LiquidationError::InsufficientLiquidationAmount => ProtocolError::InvalidAmount,
        }
    }
}

impl vstd::std_specs::convert::FromSpecImpl<LiquidationError> for ProtocolError {
    open spec fn obeys_from_spec() -> bool {
        true
    }

    open spec fn from_spec(v: LiquidationError) -> ProtocolError {
        v.spec_into()
    }
}

/// Liquidation parameters.
pub struct LiquidationParams {
    pub liquidator: String,
    pub user: String,
    pub amount: i128,
    pub asset: Option<String>,
}

impl LiquidationParams {
    pub fn new(liquidator: String, user: String, amount: i128) -> (p: Self)
        ensures
            p == (LiquidationParams { liquidator, user, amount, asset: None }),
    {
        LiquidationParams { liquidator, user, amount, asset: None }
    }

    pub fn with_asset(liquidator: String, user: String, amount: i128, asset: String) -> (p: Self)
        ensures
            p == (LiquidationParams { liquidator, user, amount, asset: Some(asset) }),
    {
        LiquidationParams { liquidator, user, amount, asset: Some(asset) }
    }
}

/// The outcome of a liquidation.
#[derive(Clone, Copy, Debug, PartialEq, Eq, Structural)]
pub struct LiquidationResult {
    pub collateral_seized: i128,
    pub debt_repaid: i128,
    pub liquidation_incentive: i128,
}

impl LiquidationResult {
    pub fn new(collateral_seized: i128, debt_repaid: i128, liquidation_incentive: i128) -> (r: Self)
        ensures
            r == (LiquidationResult { collateral_seized, debt_repaid, liquidation_incentive }),
    {
        LiquidationResult { collateral_seized, debt_repaid, liquidation_incentive }
    }
}

/// The most debt one liquidation may repay: `debt * close_factor / 1e8`.
pub open spec fn spec_max_liquidation(debt: int, close_factor: int) -> int {
    tdiv(debt * close_factor, SCALE as int)
}

/// The collateral seized for repaying `amount`: the amount plus the incentive.
pub open spec fn spec_seized(amount: int, incentive: int) -> int {
    tdiv(amount * (SCALE + incentive), SCALE as int)
}

/// The debt a liquidation repays: the request capped by the close factor.
pub open spec fn spec_liquidated_amount(p: &Protocol, user: String, amount: i128) -> int {
    let max = spec_max_liquidation(position_in(p, user).debt as int, p.risk_config.close_factor as int);
    if amount > max {
        max
    } else {
        amount as int
    }
}

/// A position is eligible when it is undercollateralized: it has debt and
/// its collateral ratio is below the minimum.
pub open spec fn spec_eligible(p: &Protocol, user: String) -> bool {
    let pos = position_in(p, user);
    pos.debt > 0 && spec_ratio(pos.collateral as int, pos.debt as int) < p.spec_min_ratio()
}

/// The checks before the position is read.
pub open spec fn spec_liquidation_gate(p: &Protocol, liquidator: Seq<char>, user: Seq<char>, amount: i128) -> Result<
    (),
    ProtocolError,
> {
    if p.reentrancy {
        Err(ProtocolError::ReentrancyDetected)
    } else if liquidator.len() == 0 || user.len() == 0 {
        Err(ProtocolError::InvalidAddress)
    } else if amount <= 0 {
        Err(ProtocolError::InvalidAmount)
    } else if spec_emergency_allows(p.emergency.status, OperationKind::Liquidate) is Err {
        spec_emergency_allows(p.emergency.status, OperationKind::Liquidate)
    } else if p.risk_config.pause_liquidate {
        Err(ProtocolError::ProtocolPaused)
    } else if !spec_valid_address(liquidator) || !spec_valid_address(user) {
        Err(ProtocolError::InvalidAddress)
    } else {
        Ok(())
    }
}

/// The outcome of a liquidation.
pub open spec fn spec_liquidation_result(p: &Protocol, liquidator: String, user: String, amount: i128, min_out: i128) -> Result<
    LiquidationResult,
    ProtocolError,
> {
    let la = spec_liquidated_amount(p, user, amount);
    let seized = spec_seized(la, p.risk_config.liquidation_incentive as int);
    if spec_liquidation_gate(p, liquidator@, user@, amount) is Err {
        Err(spec_liquidation_gate(p, liquidator@, user@, amount)->Err_0)
    } else if p.position_of(user@).is_none() {
        Err(ProtocolError::PositionNotFound)
    } else if !spec_eligible(p, user) {
        Err(ProtocolError::NotEligibleForLiquidation)
    } else if seized < min_out {
        Err(ProtocolError::SlippageProtectionTriggered)
    } else {
        Ok(
            LiquidationResult {
                collateral_seized: seized as i128,
                debt_repaid: la as i128,
                liquidation_incentive: p.risk_config.liquidation_incentive,
            },
        )
    }
}

/// A liquidation's arithmetic stays within `i128`.
pub open spec fn liquidation_fits(p: &Protocol, liquidator: String, user: String, amount: i128) -> bool {
    let pos = position_in(p, user);
    let incentive = p.risk_config.liquidation_incentive as int;
    let la = spec_liquidated_amount(p, user, amount);
    let seized = spec_seized(la, incentive);
    &&& i128::MIN <= pos.debt * p.risk_config.close_factor <= i128::MAX
    &&& SCALE + incentive <= i128::MAX
    &&& i128::MIN <= la * (SCALE + incentive) <= i128::MAX
    &&& i128::MIN <= pos.debt - la <= i128::MAX
    &&& i128::MIN <= pos.collateral - seized <= i128::MAX
    &&& ratio_fits(pos.collateral as int, pos.debt as int)
    &&& record_fits(&p.analytics, liquidator@, "liquidate"@, la as i128)
}

/// Liquidation module.
pub struct LiquidationModule;

impl LiquidationModule {
    /// Liquidates an undercollateralized position: repays up to the close
    /// factor's share of its debt and seizes that amount of collateral plus
    /// the incentive. Fails with `SlippageProtectionTriggered` when less than
    /// `min_out` collateral would be seized.
    pub fn liquidate(p: &mut Protocol, liquidator: &String, user: &String, amount: i128, min_out: i128) -> (r: Result<
        LiquidationResult,
        ProtocolError,
    >)
        requires
            old(p).wf(),
            spec_liquidation_gate(old(p), liquidator@, user@, amount) is Ok ==> liquidation_fits(
                old(p),
                *liquidator,
                *user,
                amount,
            ),
        ensures
            final(p).wf(),
            r == spec_liquidation_result(old(p), *liquidator, *user, amount, min_out),
            r is Err ==> *final(p) == *old(p),
            r is Ok ==> ({
                let pos = position_in(old(p), *user);
                let res = r->Ok_0;
                let new_pos = Position {
                    debt: (pos.debt - res.debt_repaid) as i128,
                    collateral: (pos.collateral - res.collateral_seized) as i128,
                    ..pos
                };
                let ev = ProtocolEvent::LiquidationExecuted(*liquidator, *user, res.collateral_seized, res.debt_repaid);
                &&& map_of(final(p).positions@) == map_of(old(p).positions@).insert(user@, new_pos)
                &&& recorded(
                    &old(p).analytics,
                    &final(p).analytics,
                    liquidator@,
                    "liquidate"@,
                    res.debt_repaid,
                    None,
                    old(p).now,
                )
                &&& old(p).events.appended_all(
                    final(p).events,
                    seq![capture_view(ev, old(p).now), analytics_capture(liquidator@, res.debt_repaid, old(p).now)],
                )
                &&& final(p).outbox@.len() == old(p).outbox@.len() + 2
                &&& final(p).outbox@.subrange(0, old(p).outbox@.len() as int) == old(p).outbox@
                &&& final(p).outbox@[old(p).outbox@.len() as int] == Notice::Event(ev)
                &&& analytics_notice(final(p).outbox@.last(), liquidator@, "liquidate"@, res.debt_repaid, old(p).now)
                &&& *final(p) == (Protocol {
                    positions: final(p).positions,
                    analytics: final(p).analytics,
                    events: final(p).events,
                    outbox: final(p).outbox,
                    ..*old(p)
                })
            }),
    {
        ReentrancyGuard::enter(p)?;
        let result = Self::liquidate_inner(p, liquidator, user, amount, min_out);
        ReentrancyGuard::exit(p);
        result
    }

    fn liquidate_inner(p: &mut Protocol, liquidator: &String, user: &String, amount: i128, min_out: i128) -> (r:
        Result<LiquidationResult, ProtocolError>)
        requires
            old(p).wf(),
            old(p).reentrancy,
            spec_liquidation_gate(&Protocol { reentrancy: false, ..*old(p) }, liquidator@, user@, amount) is Ok
                ==> liquidation_fits(old(p), *liquidator, *user, amount),
        ensures
            final(p).wf(),
            final(p).reentrancy,
            r == spec_liquidation_result(&Protocol { reentrancy: false, ..*old(p) }, *liquidator, *user, amount, min_out),
            r is Err ==> *final(p) == *old(p),
            r is Ok ==> ({
                let pos = position_in(old(p), *user);
                let res = r->Ok_0;
                let new_pos = Position {
                    debt: (pos.debt - res.debt_repaid) as i128,
                    collateral: (pos.collateral - res.collateral_seized) as i128,
                    ..pos
                };
                let ev = ProtocolEvent::LiquidationExecuted(*liquidator, *user, res.collateral_seized, res.debt_repaid);
                &&& map_of(final(p).positions@) == map_of(old(p).positions@).insert(user@, new_pos)
                &&& recorded(
                    &old(p).analytics,
                    &final(p).analytics,
                    liquidator@,
                    "liquidate"@,
                    res.debt_repaid,
                    None,
                    old(p).now,
                )
                &&& old(p).events.appended_all(
                    final(p).events,
                    seq![capture_view(ev, old(p).now), analytics_capture(liquidator@, res.debt_repaid, old(p).now)],
                )
                &&& final(p).outbox@.len() == old(p).outbox@.len() + 2
                &&& final(p).outbox@.subrange(0, old(p).outbox@.len() as int) == old(p).outbox@
                &&& final(p).outbox@[old(p).outbox@.len() as int] == Notice::Event(ev)
                &&& analytics_notice(final(p).outbox@.last(), liquidator@, "liquidate"@, res.debt_repaid, old(p).now)
                &&& *final(p) == (Protocol {
                    positions: final(p).positions,
                    analytics: final(p).analytics,
                    events: final(p).events,
                    outbox: final(p).outbox,
                    ..*old(p)
                })
            }),
    {
        let result = Self::assess_liquidation(p, liquidator, user, amount, min_out)?;
        let mut position = StateHelper::get_position(p, user).unwrap();
        let collateral_seized = result.collateral_seized;
        let liquidation_amount = result.debt_repaid;
        position.debt = position.debt - liquidation_amount;
        position.collateral = position.collateral - collateral_seized;
        StateHelper::save_position(p, position);
        let liquidator_addr = liquidator.clone();
        let user_addr = user.clone();
        let ghost events0 = p.events;
        let ghost outbox0 = p.outbox@;
        let ev = ProtocolEvent::LiquidationExecuted(liquidator_addr.clone(), user_addr, collateral_seized, liquidation_amount);
        let ghost evv = ev;
        let now = p.now;
        ev.emit(&mut p.events, &mut p.outbox, now);
        let ghost events1 = p.events;
        let kind = String::from_str("liquidate");
        proof {
            reveal_strlit("liquidate");
        }
        AnalyticsModule::record_activity(
            &mut p.analytics,
            &mut p.events,
            &mut p.outbox,
            now,
            &liquidator_addr,
            &kind,
            liquidation_amount,
            None,
        )?;
        proof {
            events0.lemma_appended_two(
                events1,
                p.events,
                capture_view(evv, now),
                analytics_capture(liquidator@, liquidation_amount, now),
            );
            assert(p.outbox@.subrange(0, outbox0.len() as int) =~= outbox0);
        }
        Ok(result)
    }

    /// The outcome a liquidation would have, ignoring the reentrancy guard
    /// (nothing is changed).
    pub fn assess_liquidation(p: &Protocol, liquidator: &String, user: &String, amount: i128, min_out: i128) -> (r:
        Result<LiquidationResult, ProtocolError>)
        requires
            p.wf(),
            spec_liquidation_gate(&Protocol { reentrancy: false, ..*p }, liquidator@, user@, amount) is Ok
                ==> liquidation_fits(p, *liquidator, *user, amount),
        ensures
            r == spec_liquidation_result(&Protocol { reentrancy: false, ..*p }, *liquidator, *user, amount, min_out),
    {
        if liquidator.as_str().unicode_len() == 0 || user.as_str().unicode_len() == 0 {
            return Err(LiquidationError::InvalidAddress.into());
        }
        if amount <= 0 {
            return Err(LiquidationError::InvalidAmount.into());
        }
        EmergencyManager::ensure_operation_allowed(&p.emergency, OperationKind::Liquidate)?;
        let risk_config = RiskConfigStorage::get(p);
        if risk_config.pause_liquidate {
            return Err(LiquidationError::ProtocolPaused.into());
        }
        AddressHelper::require_valid_address(liquidator)?;
        let user_addr = AddressHelper::require_valid_address(user)?;
        let position = match StateHelper::get_position(p, &user_addr) {
            Some(pos) => pos,
            None => return Err(LiquidationError::PositionNotFound.into()),
        };
        let min_ratio = ProtocolConfig::get_min_collateral_ratio(p);
        let ratio = collateral_ratio(position.collateral, position.debt);
        if position.debt <= 0 || ratio >= min_ratio {
            return Err(LiquidationError::NotEligibleForLiquidation.into());
        }
        let max_liquidation = (position.debt * risk_config.close_factor) / SCALE;
        let liquidation_amount = if amount > max_liquidation {
            max_liquidation
        } else {
            amount
        };
        let collateral_seized = (liquidation_amount * (SCALE + risk_config.liquidation_incentive)) / SCALE;
        if collateral_seized < min_out {
            return Err(ProtocolError::SlippageProtectionTriggered);
        }
        Ok(LiquidationResult::new(collateral_seized, liquidation_amount, risk_config.liquidation_incentive))
    }

    /// Whether the stored position is undercollateralized: it has debt and its
    /// collateral ratio is below the minimum.
    pub fn is_eligible_for_liquidation(p: &Protocol, user: &String) -> (r: Result<bool, ProtocolError>)
        requires
            p.wf(),
            ratio_fits(position_in(p, *user).collateral as int, position_in(p, *user).debt as int),
        ensures
            r == (if p.position_of(user@).is_none() {
                Err(ProtocolError::PositionNotFound)
            } else {
                Ok(spec_eligible(p, *user))
            }),
    {
        let position = match StateHelper::get_position(p, user) {
            Some(pos) => pos,
            None => return Err(LiquidationError::PositionNotFound.into()),
        };
        let min_ratio = ProtocolConfig::get_min_collateral_ratio(p);
        let ratio = collateral_ratio(position.collateral, position.debt);
        Ok(position.debt > 0 && ratio < min_ratio)
    }

    /// The most debt one liquidation of the position may repay.
    pub fn calculate_max_liquidation_amount(p: &Protocol, user: &String) -> (r: Result<i128, ProtocolError>)
        requires
            p.wf(),
            i128::MIN <= position_in(p, *user).debt * p.risk_config.close_factor <= i128::MAX,
        ensures
            r == (if p.position_of(user@).is_none() {
                Err(ProtocolError::PositionNotFound)
            } else {
                Ok(spec_max_liquidation(position_in(p, *user).debt as int, p.risk_config.close_factor as int) as i128)
            }),
    {
        let position = match StateHelper::get_position(p, user) {
            Some(pos) => pos,
            None => return Err(LiquidationError::PositionNotFound.into()),
        };
        let risk_config = RiskConfigStorage::get(p);
        Ok((position.debt * risk_config.close_factor) / SCALE)
    }

    /// The collateral seized for repaying `liquidation_amount`.
    pub fn calculate_collateral_to_seize(p: &Protocol, liquidation_amount: i128) -> (r: Result<i128, ProtocolError>)
        requires
            SCALE + p.risk_config.liquidation_incentive <= i128::MAX,
            i128::MIN <= liquidation_amount * (SCALE + p.risk_config.liquidation_incentive) <= i128::MAX,
        ensures
            r == Ok::<i128, ProtocolError>(
                spec_seized(liquidation_amount as int, p.risk_config.liquidation_incentive as int) as i128,
            ),
    {
        let risk_config = RiskConfigStorage::get(p);
        Ok((liquidation_amount * (SCALE + risk_config.liquidation_incentive)) / SCALE)
    }

    /// The amount must be positive.
    pub fn validate_liquidation_params(params: &LiquidationParams) -> (r: Result<(), LiquidationError>)
        ensures
            r == (if params.amount <= 0 {
                Err(LiquidationError::InvalidAmount)
            } else {
                Ok(())
            }),
    {
        if params.amount <= 0 {
            return Err(LiquidationError::InvalidAmount);
        }
        Ok(())
    }

    /// The incentive part of a liquidation: `amount * incentive / 1e8`.
    pub fn calculate_liquidation_incentive(p: &Protocol, liquidation_amount: i128) -> (r: i128)
        requires
            i128::MIN <= liquidation_amount * p.risk_config.liquidation_incentive <= i128::MAX,
        ensures
            r == tdiv(liquidation_amount * p.risk_config.liquidation_incentive, SCALE as int),
    {
        let risk_config = RiskConfigStorage::get(p);
        (liquidation_amount * risk_config.liquidation_incentive) / SCALE
    }

    /// The health factor: the collateral ratio as a percentage of the
    /// minimum (0 for a non-positive minimum).
    pub fn get_health_factor(p: &Protocol, user: &String) -> (r: Result<i128, ProtocolError>)
        requires
            p.wf(),
            ratio_fits(position_in(p, *user).collateral as int, position_in(p, *user).debt as int),
            i128::MIN <= spec_ratio(position_in(p, *user).collateral as int, position_in(p, *user).debt as int) * 100
                <= i128::MAX,
        ensures
            ({
                let pos = position_in(p, *user);
                let ratio = spec_ratio(pos.collateral as int, pos.debt as int);
                r == (if p.position_of(user@).is_none() {
                    Err(ProtocolError::PositionNotFound)
                } else if p.spec_min_ratio() > 0 {
                    Ok(tdiv(ratio * 100, p.spec_min_ratio() as int) as i128)
                } else {
                    Ok(0i128)
                })
            }),
    {
        let position = match StateHelper::get_position(p, user) {
            Some(pos) => pos,
            None => return Err(LiquidationError::PositionNotFound.into()),
        };
        let min_ratio = ProtocolConfig::get_min_collateral_ratio(p);
        let ratio = collateral_ratio(position.collateral, position.debt);
        if min_ratio > 0 {
            Ok((ratio * 100) / min_ratio)
        } else {
            Ok(0)
        }
    }
}

} // verus!
