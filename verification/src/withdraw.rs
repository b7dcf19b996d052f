//! Collateral withdrawal.
use vstd::prelude::*;
use crate::address::spec_valid_address;
use crate::address::AddressHelper;
use crate::emergency::{EmergencyManager, spec_emergency_allows};
use crate::errors::ProtocolError;
use crate::events::{ProtocolEvent, Notice, capture_view};
use crate::interest::{InterestRateManager, Position, spec_updated_state, updated_state};
use crate::keyed::map_of;
use crate::math::tdiv;
use crate::state::{
    Protocol, ProtocolConfig, ReentrancyGuard, RiskConfigStorage, StateHelper, InterestRateStorage, position_in,
    accrued_position, spec_ratio, ratio_fits, collateral_ratio,
};
use crate::transfer::{
    BalanceReading, PendingKind, PendingTransfer, TransferEnforcer, TransferOrder, attempt_view, attempt_notice,
    failure_view, failure_notice, order_view, primary_asset,
};
use crate::users::{OperationKind, UserManager, profile_in, spec_operation_allowed, with_profile};

verus! {

/// Withdraw-specific errors.
#[derive(Clone, Copy, Debug, PartialEq, Eq, Structural)]
pub enum WithdrawError {
    InvalidAmount,
    InvalidAddress,
    ProtocolPaused,
    PositionNotFound,
    InsufficientCollateral,
    InsufficientCollateralRatio,
}

impl WithdrawError {
    pub open spec fn spec_into(self) -> ProtocolError {
        match self {
            WithdrawError::InvalidAmount => ProtocolError::InvalidAmount,
            WithdrawError::InvalidAddress => ProtocolError::InvalidAddress,
            WithdrawError::ProtocolPaused => ProtocolError::ProtocolPaused,
            WithdrawError::PositionNotFound => ProtocolError::PositionNotFound,
            WithdrawError::InsufficientCollateral => ProtocolError::InsufficientCollateral,
            WithdrawError::InsufficientCollateralRatio => ProtocolError::InsufficientCollateralRatio,
        }
    }
}

impl From<WithdrawError> for ProtocolError {
    fn from(err: WithdrawError) -> (r: ProtocolError) {
        match err {
            WithdrawError::InvalidAmount => ProtocolError::InvalidAmount,
            WithdrawError::InvalidAddress => ProtocolError::InvalidAddress,
            WithdrawError::ProtocolPaused => ProtocolError::ProtocolPaused,
            WithdrawError::PositionNotFound => ProtocolError::PositionNotFound,
            WithdrawError::InsufficientCollateral => ProtocolError::InsufficientCollateral,
            WithdrawError::InsufficientCollateralRatio => ProtocolError::InsufficientCollateralRatio,
        }
    }
}

impl vstd::std_specs::convert::FromSpecImpl<WithdrawError> for ProtocolError {
    open spec fn obeys_from_spec() -> bool {
        true
    }

    open spec fn from_spec(v: WithdrawError) -> ProtocolError {
        v.spec_into()
    }
}

/// Withdraw parameters.
pub struct WithdrawParams {
    pub amount: i128,
    pub asset: Option<String>,
    pub user: String,
    pub max_collateral_ratio: Option<i128>,
}

impl WithdrawParams {
    pub fn new(amount: i128, user: String) -> (p: Self)
        ensures
            p == (WithdrawParams { amount, asset: None, user, max_collateral_ratio: None }),
    {
        WithdrawParams { amount, asset: None, user, max_collateral_ratio: None }
    }

    pub fn with_asset(amount: i128, user: String, asset: String) -> (p: Self)
        ensures
            p == (WithdrawParams { amount, asset: Some(asset), user, max_collateral_ratio: None }),
    {
        WithdrawParams { amount, asset: Some(asset), user, max_collateral_ratio: None }
    }
}

/// The checks a withdrawal passes before reading the user's profile.
pub open spec fn spec_withdraw_gate(p: &Protocol, amount: i128) -> Result<(), ProtocolError> {
    if p.reentrancy {
        Err(ProtocolError::ReentrancyDetected)
    } else if amount <= 0 {
        Err(ProtocolError::InvalidAmount)
    } else if spec_emergency_allows(p.emergency.status, OperationKind::Withdraw) is Err {
        spec_emergency_allows(p.emergency.status, OperationKind::Withdraw)
    } else if p.risk_config.pause_withdraw {
        Err(ProtocolError::ProtocolPaused)
    } else {
        Ok(())
    }
}

/// The checks on the user and the stored position, once the entry checks pass.
pub open spec fn spec_withdraw_account(p: &Protocol, withdrawer: String, amount: i128) -> Result<(), ProtocolError> {
    match spec_operation_allowed(profile_in(map_of(p.users@), withdrawer, p.now), OperationKind::Withdraw, amount) {
        Err(e) => Err(e),
        Ok(_) => if p.position_of(withdrawer@).is_none() {
            Err(ProtocolError::PositionNotFound)
        } else if position_in(p, withdrawer).collateral < amount {
            Err(ProtocolError::InsufficientCollateral)
        } else {
            Ok(())
        },
    }
}

/// The position after withdrawing `amount` (interest accrued first).
pub open spec fn spec_withdrawn_position(p: &Protocol, withdrawer: String, amount: i128) -> Position {
    let acc = accrued_position(p, withdrawer);
    Position { collateral: (acc.collateral - amount) as i128, ..acc }
}

/// A position with debt must keep the minimum collateral ratio.
pub open spec fn spec_withdraw_ratio_ok(p: &Protocol, withdrawer: String, amount: i128) -> bool {
    let pos = spec_withdrawn_position(p, withdrawer, amount);
    pos.debt > 0 ==> spec_ratio(pos.collateral as int, pos.debt as int) >= p.spec_min_ratio()
}

/// The outcome of starting a withdrawal.
pub open spec fn spec_withdraw_outcome(p: &Protocol, withdrawer: String, amount: i128, contract_balance: i128) -> Result<
    (),
    ProtocolError,
> {
    if spec_withdraw_gate(p, amount) is Err {
        spec_withdraw_gate(p, amount)
    } else if spec_withdraw_account(p, withdrawer, amount) is Err {
        spec_withdraw_account(p, withdrawer, amount)
    } else if !spec_withdraw_ratio_ok(p, withdrawer, amount) {
        Err(ProtocolError::InsufficientCollateralRatio)
    } else if primary_asset(p).is_none() {
        Err(ProtocolError::AssetNotSupported)
    } else if contract_balance < amount {
        Err(ProtocolError::InsufficientLiquidity)
    } else {
        Ok(())
    }
}

/// A withdrawal's arithmetic stays within `i128`.
pub open spec fn withdraw_fits(p: &Protocol, withdrawer: String, amount: i128) -> bool {
    let pos = position_in(p, withdrawer);
    pos.collateral >= amount ==> ratio_fits(pos.collateral - amount, pos.debt as int)
}

/// Withdraw module.
pub struct WithdrawModule;

impl WithdrawModule {
    /// Starts withdrawing `amount` of collateral: after accruing interest,
    /// a position with debt must keep the minimum collateral ratio. On
    /// success the returned order asks the host to move `amount` to the
    /// withdrawer, and the withdrawal waits in `pending` (reentrancy held),
    /// with the position and interest rate state it will store, for
    /// `TransferEnforcer::complete_pending`. A refused withdrawal changes
    /// nothing but, when the contract's balance is short, records that
    /// failure. `before` holds the balances read before the transfer; the
    /// contract's must cover the amount.
    pub fn withdraw(p: &mut Protocol, withdrawer: &String, amount: i128, before: BalanceReading) -> (r: Result<
        TransferOrder,
        ProtocolError,
    >)
        requires
            old(p).wf(),
            spec_withdraw_gate(old(p), amount) is Ok && spec_withdraw_account(old(p), *withdrawer, amount) is Ok
                ==> withdraw_fits(old(p), *withdrawer, amount),
        ensures
            final(p).wf(),
            match r {
                Ok(o) => {
                    &&& spec_withdraw_outcome(old(p), *withdrawer, amount, before.contract) is Ok
                    &&& o@ == order_view(old(p), withdrawer@, amount, "withdraw"@, false)
                    &&& *final(p) == (Protocol {
                        reentrancy: true,
                        pending: Some(
                            PendingTransfer {
                                kind: PendingKind::Withdraw,
                                order: o,
                                before,
                                position: spec_withdrawn_position(old(p), *withdrawer, amount),
                                interest_state: spec_updated_state(
                                    old(p).interest_state,
                                    old(p).interest_config,
                                    old(p).now,
                                ),
                            },
                        ),
                        ..*old(p)
                    })
                },
                Err(e) => {
                    &&& spec_withdraw_outcome(old(p), *withdrawer, amount, before.contract) == Err::<(), ProtocolError>(
                        e,
                    )
                    &&& if e == ProtocolError::InsufficientLiquidity {
                        let o = order_view(old(p), withdrawer@, amount, "withdraw"@, false);
                        &&& old(p).events.appended(
                            final(p).events,
                            failure_view(o, "insufficient_liquidity"@, old(p).now),
                        )
                        &&& final(p).outbox@.drop_last() == old(p).outbox@
                        &&& final(p).outbox@.len() == old(p).outbox@.len() + 1
                        &&& failure_notice(final(p).outbox@.last(), o, "insufficient_liquidity"@)
                        &&& *final(p) == (Protocol { events: final(p).events, outbox: final(p).outbox, ..*old(p) })
                    } else {
                        *final(p) == *old(p)
                    }
                },
            },
    {
        ReentrancyGuard::enter(p)?;
        if amount <= 0 {
            ReentrancyGuard::exit(p);
            return Err(WithdrawError::InvalidAmount.into());
        }
        match EmergencyManager::ensure_operation_allowed(&p.emergency, OperationKind::Withdraw) {
            Err(e) => {
                ReentrancyGuard::exit(p);
                return Err(e);
            },
            Ok(_) => {},
        }
        let risk_config = RiskConfigStorage::get(p);
        if risk_config.pause_withdraw {
            ReentrancyGuard::exit(p);
            return Err(WithdrawError::ProtocolPaused.into());
        }
        let ghost p0 = Protocol { reentrancy: false, ..*p };
        proof {
            assert(p0 == *old(p));
        }
        let now = p.now;
        match UserManager::check_operation_allowed(&p.users, now, withdrawer, OperationKind::Withdraw, amount) {
            Err(e) => {
                ReentrancyGuard::exit(p);
                return Err(e);
            },
            Ok(_) => {},
        }
        let mut position = match StateHelper::get_position(p, withdrawer) {
            Some(pos) => pos,
            None => {
                ReentrancyGuard::exit(p);
                return Err(WithdrawError::PositionNotFound.into());
            },
        };
        if position.collateral < amount {
            ReentrancyGuard::exit(p);
            return Err(WithdrawError::InsufficientCollateral.into());
        }
        let state = updated_state(&p.interest_state, &p.interest_config, now);
        InterestRateManager::accrue_interest_for_position(
            now,
            &mut position,
            state.current_borrow_rate,
            state.current_supply_rate,
        );
        proof {
            assert(position == accrued_position(&p0, *withdrawer));
        }
        let new_collateral = position.collateral - amount;
        if position.debt > 0 {
            let min_ratio = ProtocolConfig::get_min_collateral_ratio(p);
            let ratio = collateral_ratio(new_collateral, position.debt);
            if ratio < min_ratio {
                ReentrancyGuard::exit(p);
                return Err(WithdrawError::InsufficientCollateralRatio.into());
            }
        }
        position.collateral = new_collateral;
        let flow = String::from_str("withdraw");
        proof {
            reveal_strlit("withdraw");
        }
        let order = match TransferEnforcer::order_out(p, withdrawer, amount, &flow, before.contract) {
            Ok(o) => o,
            Err(e) => {
                ReentrancyGuard::exit(p);
                return Err(e);
            },
        };
        p.pending = Some(
            PendingTransfer {
                kind: PendingKind::Withdraw,
                order: order.clone_order(),
                before,
                position,
                interest_state: state,
            },
        );
        Ok(order)
    }

    /// Withdraws collateral of a specific asset: checks the ratio after the
    /// withdrawal (no accrual, no transfer), stores the position and emits
    /// `CrossWithdraw`.
    pub fn withdraw_asset(p: &mut Protocol, user: &String, asset: &String, amount: i128) -> (r: Result<
        (),
        ProtocolError,
    >)
        requires
            old(p).wf(),
            !old(p).reentrancy && amount > 0 && spec_emergency_allows(old(p).emergency.status, OperationKind::Withdraw)
                is Ok && spec_valid_address(user@) && old(p).position_of(user@) is Some ==> withdraw_fits(
                old(p),
                *user,
                amount,
            ),
        ensures
            final(p).wf(),
            ({
                let pos = position_in(old(p), *user);
                let new_pos = Position { collateral: (pos.collateral - amount) as i128, ..pos };
                r == (if old(p).reentrancy {
                    Err(ProtocolError::ReentrancyDetected)
                } else if user@.len() == 0 {
                    Err(ProtocolError::InvalidAddress)
                } else if amount <= 0 {
                    Err(ProtocolError::InvalidAmount)
                } else if spec_emergency_allows(old(p).emergency.status, OperationKind::Withdraw) is Err {
                    spec_emergency_allows(old(p).emergency.status, OperationKind::Withdraw)
                } else if !spec_valid_address(user@) {
                    Err(ProtocolError::InvalidAddress)
                } else if old(p).position_of(user@).is_none() {
                    Err(ProtocolError::PositionNotFound)
                } else if pos.collateral < amount {
                    Err(ProtocolError::InsufficientCollateral)
                } else if pos.debt > 0 && spec_ratio(new_pos.collateral as int, pos.debt as int)
                    < old(p).spec_min_ratio() {
                    Err(ProtocolError::InsufficientCollateralRatio)
                } else {
                    Ok(())
                })
            }),
            r is Err ==> *final(p) == *old(p),
            r is Ok ==> ({
                let pos = position_in(old(p), *user);
                let ev = ProtocolEvent::CrossWithdraw(*user, *asset, amount);
                &&& map_of(final(p).positions@) == map_of(old(p).positions@).insert(
                    user@,
                    Position { collateral: (pos.collateral - amount) as i128, ..pos },
                )
                &&& old(p).events.appended(final(p).events, capture_view(ev, old(p).now))
                &&& final(p).outbox@ == old(p).outbox@.push(Notice::Event(ev))
                &&& *final(p) == (Protocol {
                    positions: final(p).positions,
                    events: final(p).events,
                    outbox: final(p).outbox,
                    ..*old(p)
                })
            }),
    {
        ReentrancyGuard::enter(p)?;
        if user.as_str().unicode_len() == 0 {
            ReentrancyGuard::exit(p);
            return Err(WithdrawError::InvalidAddress.into());
        }
        if amount <= 0 {
            ReentrancyGuard::exit(p);
            return Err(WithdrawError::InvalidAmount.into());
        }
        match EmergencyManager::ensure_operation_allowed(&p.emergency, OperationKind::Withdraw) {
            Err(e) => {
                ReentrancyGuard::exit(p);
                return Err(e);
            },
            Ok(_) => {},
        }
        let user_addr = match AddressHelper::require_valid_address(user) {
            Ok(a) => a,
            Err(e) => {
                ReentrancyGuard::exit(p);
                return Err(e);
            },
        };
        let mut position = match StateHelper::get_position(p, &user_addr) {
            Some(pos) => pos,
            None => {
                ReentrancyGuard::exit(p);
                return Err(WithdrawError::PositionNotFound.into());
            },
        };
        if position.collateral < amount {
            ReentrancyGuard::exit(p);
            return Err(WithdrawError::InsufficientCollateral.into());
        }
        let new_collateral = position.collateral - amount;
        let min_ratio = ProtocolConfig::get_min_collateral_ratio(p);
        let ratio = collateral_ratio(new_collateral, position.debt);
        if position.debt > 0 && ratio < min_ratio {
            ReentrancyGuard::exit(p);
            return Err(WithdrawError::InsufficientCollateralRatio.into());
        }
        position.collateral = new_collateral;
        StateHelper::save_position(p, position);
        let now = p.now;
        ProtocolEvent::CrossWithdraw(user_addr, asset.clone(), amount).emit(&mut p.events, &mut p.outbox, now);
        ReentrancyGuard::exit(p);
        Ok(())
    }

    /// The most collateral that can be withdrawn: all of it without debt,
    /// else what exceeds `debt * min_ratio / 100` (never negative).
    pub fn calculate_max_withdrawable(p: &Protocol, user: &String) -> (r: Result<i128, ProtocolError>)
        requires
            p.wf(),
            ({
                let pos = position_in(p, *user);
                pos.debt != 0 ==> i128::MIN <= pos.debt * p.spec_min_ratio() <= i128::MAX && pos.collateral
                    - tdiv(pos.debt * p.spec_min_ratio(), 100) <= i128::MAX
            }),
        ensures
            ({
                let pos = position_in(p, *user);
                let required = tdiv(pos.debt * p.spec_min_ratio(), 100);
                r == (if p.position_of(user@).is_none() {
                    Err(ProtocolError::PositionNotFound)
                } else if pos.debt == 0 {
                    Ok(pos.collateral)
                } else if pos.collateral > required {
                    Ok((pos.collateral - required) as i128)
                } else {
                    Ok(0i128)
                })
            }),
    {
        let position = match StateHelper::get_position(p, user) {
            Some(pos) => pos,
            None => return Err(WithdrawError::PositionNotFound.into()),
        };
        if position.debt == 0 {
            return Ok(position.collateral);
        }
        let min_ratio = ProtocolConfig::get_min_collateral_ratio(p);
        let required_collateral = (position.debt * min_ratio) / 100;
        if position.collateral > required_collateral {
            Ok(position.collateral - required_collateral)
        } else {
            Ok(0)
        }
    }

    /// The amount must be positive.
    pub fn validate_withdraw_params(params: &WithdrawParams) -> (r: Result<(), WithdrawError>)
        ensures
            r == (if params.amount <= 0 {
                Err(WithdrawError::InvalidAmount)
            } else {
                Ok(())
            }),
    {
        if params.amount <= 0 {
            return Err(WithdrawError::InvalidAmount);
        }
        Ok(())
    }

    /// Whether withdrawing keeps the collateral non-negative and, with debt,
    /// the ratio at or above the minimum.
    pub fn is_withdrawal_allowed(
        current_collateral: i128,
        current_debt: i128,
        withdraw_amount: i128,
        min_collateral_ratio: i128,
    ) -> (b: bool)
        requires
            current_debt != 0 ==> i128::MIN <= current_collateral - withdraw_amount <= i128::MAX,
            current_debt != 0 && current_collateral - withdraw_amount >= 0 ==> (current_collateral - withdraw_amount)
                * 100 <= i128::MAX,
        ensures
            b == (if current_debt == 0 {
                withdraw_amount <= current_collateral
            } else {
                current_collateral - withdraw_amount >= 0 && tdiv(
                    (current_collateral - withdraw_amount) * 100,
                    current_debt as int,
                ) >= min_collateral_ratio
            }),
    {
        if current_debt == 0 {
            return withdraw_amount <= current_collateral;
        }
        let new_collateral = current_collateral - withdraw_amount;
        if new_collateral < 0 {
            return false;
        }
        let collateral_ratio = crate::math::div_trunc(new_collateral * 100, current_debt);
        collateral_ratio >= min_collateral_ratio
    }

    /// The collateral ratio after withdrawing (0 without debt or when the
    /// collateral would go negative).
    pub fn calculate_collateral_ratio_after_withdrawal(
        current_collateral: i128,
        current_debt: i128,
        withdraw_amount: i128,
    ) -> (r: i128)
        requires
            i128::MIN <= current_collateral - withdraw_amount <= i128::MAX,
            current_debt > 0 && current_collateral - withdraw_amount >= 0 ==> (current_collateral - withdraw_amount)
                * 100 <= i128::MAX,
        ensures
            r == (if current_debt > 0 && current_collateral - withdraw_amount >= 0 {
                spec_ratio(current_collateral - withdraw_amount, current_debt as int)
            } else {
                0
            }),
    {
        let new_collateral = current_collateral - withdraw_amount;
        if current_debt > 0 && new_collateral >= 0 {
            (new_collateral * 100) / current_debt
        } else {
            0
        }
    }
}

} // verus!
