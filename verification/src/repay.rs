//! Debt repayment.
use vstd::prelude::*;
use crate::analytics::{AnalyticsModule, recorded, record_fits, analytics_capture, analytics_notice};
use crate::emergency::{EmergencyManager, spec_emergency_allows};
use crate::errors::ProtocolError;
use crate::events::{ProtocolEvent, Notice, capture_view};
use crate::interest::{InterestRateManager, Position, spec_updated_state, updated_state};
use crate::keyed::map_of;
use crate::math::min_int;
use crate::state::{Protocol, ReentrancyGuard, StateHelper, InterestRateStorage, position_in, accrued_position};
use crate::transfer::{
    BalanceReading, PendingKind, PendingTransfer, TransferEnforcer, TransferOrder, attempt_view, attempt_notice,
    order_view, primary_asset,
};
use crate::users::{OperationKind, UserManager, profile_in, spec_operation_allowed, with_profile};

verus! {

/// Repay-specific errors.
#[derive(Clone, Copy, Debug, PartialEq, Eq, Structural)]
pub enum RepayError {
    InvalidAmount,
    InvalidAddress,
    PositionNotFound,
    InvalidOperation,
    InsufficientDebt,
}

impl RepayError {
    pub open spec fn spec_into(self) -> ProtocolError {
        match self {
            RepayError::InvalidAmount => ProtocolError::InvalidAmount,
            RepayError::InvalidAddress => ProtocolError::InvalidAddress,
            RepayError::PositionNotFound => ProtocolError::PositionNotFound,
            RepayError::InvalidOperation => ProtocolError::InvalidOperation,
            RepayError::InsufficientDebt => ProtocolError::InvalidOperation,
        }
    }
}

impl From<RepayError> for ProtocolError {
    fn from(err: RepayError) -> (r: ProtocolError) {
        match err {
            RepayError::InvalidAmount => ProtocolError::InvalidAmount,
            RepayError::InvalidAddress => ProtocolError::InvalidAddress,
            RepayError::PositionNotFound => ProtocolError::PositionNotFound,
            RepayError::InvalidOperation => ProtocolError::InvalidOperation,
            RepayError::InsufficientDebt => ProtocolError::InvalidOperation,
        }
    }
}

impl vstd::std_specs::convert::FromSpecImpl<RepayError> for ProtocolError {
    open spec fn obeys_from_spec() -> bool {
        true
    }

    open spec fn from_spec(v: RepayError) -> ProtocolError {
        v.spec_into()
    }
}

/// Repay parameters.
pub struct RepayParams {
    pub amount: i128,
    pub asset: Option<String>,
    pub user: String,
    pub is_full_repay: bool,
}

impl RepayParams {
    pub fn new(amount: i128, user: String) -> (p: Self)
        ensures
            p == (RepayParams { amount, asset: None, user, is_full_repay: false }),
    {
        RepayParams { amount, asset: None, user, is_full_repay: false }
    }

    pub fn with_asset(amount: i128, user: String, asset: String) -> (p: Self)
        ensures
            p == (RepayParams { amount, asset: Some(asset), user, is_full_repay: false }),
    {
        RepayParams { amount, asset: Some(asset), user, is_full_repay: false }
    }

    /// Repays the whole debt; the amount is computed from the debt.
    pub fn full_repay(user: String) -> (p: Self)
        ensures
            p == (RepayParams { amount: 0, asset: None, user, is_full_repay: true }),
    {
        RepayParams { amount: 0, asset: None, user, is_full_repay: true }
    }
}

/// The checks a repayment passes before reading the user's profile.
pub open spec fn spec_repay_gate(p: &Protocol, amount: i128) -> Result<(), ProtocolError> {
    if p.reentrancy {
        Err(ProtocolError::ReentrancyDetected)
    } else if amount <= 0 {
        Err(ProtocolError::InvalidAmount)
    } else {
        spec_emergency_allows(p.emergency.status, OperationKind::Repay)
    }
}

/// The amount actually repaid: the request, capped by the accrued debt.
pub open spec fn spec_repay_amount(p: &Protocol, repayer: String, amount: i128) -> int {
    min_int(amount as int, accrued_position(p, repayer).debt as int)
}

/// The checks on the user and the position, once the entry checks pass.
pub open spec fn spec_repay_account(p: &Protocol, repayer: String, amount: i128) -> Result<(), ProtocolError> {
    match spec_operation_allowed(profile_in(map_of(p.users@), repayer, p.now), OperationKind::Repay, amount) {
        Err(e) => Err(e),
        Ok(_) => if p.position_of(repayer@).is_none() {
            Err(ProtocolError::PositionNotFound)
        } else {
            Ok(())
        },
    }
}

/// The outcome of starting a repayment.
pub open spec fn spec_repay_outcome(p: &Protocol, repayer: String, amount: i128) -> Result<(), ProtocolError> {
    if spec_repay_gate(p, amount) is Err {
        spec_repay_gate(p, amount)
    } else if spec_repay_account(p, repayer, amount) is Err {
        spec_repay_account(p, repayer, amount)
    } else if accrued_position(p, repayer).debt == 0 {
        Err(ProtocolError::InvalidOperation)
    } else if spec_repay_amount(p, repayer, amount) <= 0 {
        Err(ProtocolError::InvalidAmount)
    } else if primary_asset(p).is_none() {
        Err(ProtocolError::AssetNotSupported)
    } else {
        Ok(())
    }
}

/// The position stored once the repayment's transfer settles.
pub open spec fn spec_repaid_position(p: &Protocol, repayer: String, amount: i128) -> Position {
    let acc = accrued_position(p, repayer);
    Position { debt: (acc.debt - spec_repay_amount(p, repayer, amount)) as i128, ..acc }
}

/// Repay module.
pub struct RepayModule;

impl RepayModule {
    /// Starts repaying up to `amount` of the repayer's debt (after accruing
    /// interest): on success the returned order asks the host to move the
    /// capped amount into the contract, and the repayment waits in
    /// `pending` (reentrancy held), with the position and interest rate state
    /// it will store, for `TransferEnforcer::complete_pending`. A refused
    /// repayment changes nothing. `before` holds the balances read before the
    /// transfer.
    pub fn repay(p: &mut Protocol, repayer: &String, amount: i128, before: BalanceReading) -> (r: Result<
        TransferOrder,
        ProtocolError,
    >)
        requires
            old(p).wf(),
        ensures
            final(p).wf(),
            match r {
                Ok(o) => {
                    let ra = spec_repay_amount(old(p), *repayer, amount);
                    &&& spec_repay_outcome(old(p), *repayer, amount) is Ok
                    &&& o@ == order_view(old(p), repayer@, ra as i128, "repay"@, true)
                    &&& *final(p) == (Protocol {
                        reentrancy: true,
                        pending: Some(
                            PendingTransfer {
                                kind: PendingKind::Repay,
                                order: o,
                                before,
                                position: spec_repaid_position(old(p), *repayer, amount),
                                interest_state: spec_updated_state(
                                    old(p).interest_state,
                                    old(p).interest_config,
                                    old(p).now,
                                ),
                            },
                        ),
                        ..*old(p)
                    })
                },
                Err(e) => spec_repay_outcome(old(p), *repayer, amount) == Err::<(), ProtocolError>(e) && *final(p)
                    == *old(p),
            },
    {
        ReentrancyGuard::enter(p)?;
        if amount <= 0 {
            ReentrancyGuard::exit(p);
            return Err(RepayError::InvalidAmount.into());
        }
        match EmergencyManager::ensure_operation_allowed(&p.emergency, OperationKind::Repay) {
            Err(e) => {
                ReentrancyGuard::exit(p);
                return Err(e);
            },
            Ok(_) => {},
        }
        let ghost p0 = Protocol { reentrancy: false, ..*p };
        proof {
            assert(p0 == *old(p));
        }
        let now = p.now;
        match UserManager::check_operation_allowed(&p.users, now, repayer, OperationKind::Repay, amount) {
            Err(e) => {
                ReentrancyGuard::exit(p);
                return Err(e);
            },
            Ok(_) => {},
        }
        let mut position = match StateHelper::get_position(p, repayer) {
            Some(pos) => pos,
            None => {
                ReentrancyGuard::exit(p);
                return Err(RepayError::PositionNotFound.into());
            },
        };
        let state = updated_state(&p.interest_state, &p.interest_config, now);
        InterestRateManager::accrue_interest_for_position(
            now,
            &mut position,
            state.current_borrow_rate,
            state.current_supply_rate,
        );
        proof {
            assert(position == accrued_position(&p0, *repayer));
        }
        if position.debt == 0 {
            ReentrancyGuard::exit(p);
            return Err(RepayError::InvalidOperation.into());
        }
        let repay_amount = if amount < position.debt {
            amount
        } else {
            position.debt
        };
        let flow = String::from_str("repay");
        proof {
            reveal_strlit("repay");
        }
        let order = match TransferEnforcer::order_in(p, repayer, repay_amount, &flow) {
            Ok(o) => o,
            Err(e) => {
                ReentrancyGuard::exit(p);
                return Err(e);
            },
        };
        position.debt = position.debt - repay_amount;
        p.pending = Some(
            PendingTransfer {
                kind: PendingKind::Repay,
                order: order.clone_order(),
                before,
                position,
                interest_state: state,
            },
        );
        proof {
            assert(position == spec_repaid_position(old(p), *repayer, amount));
        }
        Ok(order)
    }

    /// Repays debt of a specific asset: caps the amount by the debt, stores
    /// the reduced debt (no accrual, no transfer) and emits `CrossRepay`.
    pub fn _repay_asset(p: &mut Protocol, user: &String, asset: &String, amount: i128) -> (r: Result<(), ProtocolError>)
        requires
            old(p).wf(),
        ensures
            final(p).wf(),
            r == (if old(p).reentrancy {
                Err(ProtocolError::ReentrancyDetected)
            } else if user@.len() == 0 {
                Err(ProtocolError::InvalidAddress)
            } else if amount <= 0 {
                Err(ProtocolError::InvalidAmount)
            } else if spec_emergency_allows(old(p).emergency.status, OperationKind::Repay) is Err {
                spec_emergency_allows(old(p).emergency.status, OperationKind::Repay)
            } else if old(p).position_of(user@).is_none() {
                Err(ProtocolError::PositionNotFound)
            } else if position_in(old(p), *user).debt == 0 {
                Err(ProtocolError::InvalidOperation)
            } else {
                Ok(())
            }),
            r is Err ==> *final(p) == *old(p),
            r is Ok ==> ({
                let pos = position_in(old(p), *user);
                let repaid = min_int(amount as int, pos.debt as int);
                let ev = ProtocolEvent::CrossRepay(*user, *asset, repaid as i128);
                &&& map_of(final(p).positions@) == map_of(old(p).positions@).insert(
                    user@,
                    Position { debt: (pos.debt - repaid) as i128, ..pos },
                )
                &&& old(p).events.appended(final(p).events, capture_view(ev, old(p).now))
                &&& final(p).outbox@ == old(p).outbox@.push(Notice::Event(ev))
                &&& *final(p) == (Protocol {
                    positions: final(p).positions,
                    events: final(p).events,
                    outbox: final(p).outbox,
                    ..*old(p)
                })
            }),
    {
        ReentrancyGuard::enter(p)?;
        if user.as_str().unicode_len() == 0 {
            ReentrancyGuard::exit(p);
            return Err(RepayError::InvalidAddress.into());
        }
        if amount <= 0 {
            ReentrancyGuard::exit(p);
            return Err(RepayError::InvalidAmount.into());
        }
        match EmergencyManager::ensure_operation_allowed(&p.emergency, OperationKind::Repay) {
            Err(e) => {
                ReentrancyGuard::exit(p);
                return Err(e);
            },
            Ok(_) => {},
        }
        let mut position = match StateHelper::get_position(p, user) {
            Some(pos) => pos,
            None => {
                ReentrancyGuard::exit(p);
                return Err(RepayError::PositionNotFound.into());
            },
        };
        if position.debt == 0 {
            ReentrancyGuard::exit(p);
            return Err(RepayError::InvalidOperation.into());
        }
        let repay_amount = if amount > position.debt {
            position.debt
        } else {
            amount
        };
        position.debt = position.debt - repay_amount;
        StateHelper::save_position(p, position);
        let now = p.now;
        ProtocolEvent::CrossRepay(user.clone(), asset.clone(), repay_amount).emit(&mut p.events, &mut p.outbox, now);
        ReentrancyGuard::exit(p);
        Ok(())
    }

    /// Clears the whole accrued debt of `repayer` and returns it; emits
    /// `PositionUpdated` and records the repayment in analytics.
    pub fn full_repay(p: &mut Protocol, repayer: &String) -> (r: Result<i128, ProtocolError>)
        requires
            old(p).wf(),
            !old(p).reentrancy && repayer@.len() > 0 && old(p).position_of(repayer@).is_some() ==> record_fits(
                &old(p).analytics,
                repayer@,
                "repay"@,
                accrued_position(old(p), *repayer).debt,
            ),
        ensures
            final(p).wf(),
            ({
                let acc = accrued_position(old(p), *repayer);
                let st = spec_updated_state(old(p).interest_state, old(p).interest_config, old(p).now);
                if old(p).reentrancy {
                    r == Err::<i128, ProtocolError>(ProtocolError::ReentrancyDetected) && *final(p) == *old(p)
                } else if repayer@.len() == 0 {
                    r == Err::<i128, ProtocolError>(ProtocolError::InvalidAddress) && *final(p) == *old(p)
                } else if old(p).position_of(repayer@).is_none() {
                    r == Err::<i128, ProtocolError>(ProtocolError::PositionNotFound) && *final(p) == *old(p)
                } else if acc.debt == 0 {
                    r == Err::<i128, ProtocolError>(ProtocolError::InvalidOperation) && *final(p) == *old(p)
                } else {
                    let pos = Position { debt: 0, ..acc };
                    let ev = ProtocolEvent::PositionUpdated(*repayer, pos.collateral, 0, 0);
                    &&& r == Ok::<i128, ProtocolError>(acc.debt)
                    &&& map_of(final(p).positions@) == map_of(old(p).positions@).insert(repayer@, pos)
                    &&& recorded(&old(p).analytics, &final(p).analytics, repayer@, "repay"@, acc.debt, None, old(p).now)
                    &&& old(p).events.appended_all(
                        final(p).events,
                        seq![capture_view(ev, old(p).now), analytics_capture(repayer@, acc.debt, old(p).now)],
                    )
                    &&& final(p).outbox@.len() == old(p).outbox@.len() + 2
                    &&& final(p).outbox@.subrange(0, old(p).outbox@.len() as int) == old(p).outbox@
                    &&& final(p).outbox@[old(p).outbox@.len() as int] == Notice::Event(ev)
                    &&& analytics_notice(final(p).outbox@.last(), repayer@, "repay"@, acc.debt, old(p).now)
                    &&& *final(p) == (Protocol {
                        interest_state: st,
                        positions: final(p).positions,
                        analytics: final(p).analytics,
                        events: final(p).events,
                        outbox: final(p).outbox,
                        ..*old(p)
                    })
                }
            }),
    {
        ReentrancyGuard::enter(p)?;
        if repayer.as_str().unicode_len() == 0 {
            ReentrancyGuard::exit(p);
            return Err(RepayError::InvalidAddress.into());
        }
        let ghost p0 = Protocol { reentrancy: false, ..*p };
        let mut position = match StateHelper::get_position(p, repayer) {
            Some(pos) => pos,
            None => {
                ReentrancyGuard::exit(p);
                return Err(RepayError::PositionNotFound.into());
            },
        };
        let now = p.now;
        let state = updated_state(&p.interest_state, &p.interest_config, now);
        InterestRateManager::accrue_interest_for_position(
            now,
            &mut position,
            state.current_borrow_rate,
            state.current_supply_rate,
        );
        proof {
            assert(position == accrued_position(&p0, *repayer));
        }
        let total_debt = position.debt;
        if total_debt == 0 {
            ReentrancyGuard::exit(p);
            return Err(RepayError::InvalidOperation.into());
        }
        InterestRateStorage::save_state(p, state);
        position.debt = 0;
        let collateral = position.collateral;
        StateHelper::save_position(p, position);
        let ghost events0 = p.events;
        let ghost outbox0 = p.outbox@;
        let ev = ProtocolEvent::PositionUpdated(repayer.clone(), collateral, 0, 0);
        let ghost evv = ev;
        ev.emit(&mut p.events, &mut p.outbox, now);
        let ghost events1 = p.events;
        let kind = String::from_str("repay");
        proof {
            reveal_strlit("repay");
        }
        let recorded_result = AnalyticsModule::record_activity(
            &mut p.analytics,
            &mut p.events,
            &mut p.outbox,
            now,
            repayer,
            &kind,
            total_debt,
            None,
        );
        proof {
            events0.lemma_appended_two(events1, p.events, capture_view(evv, now), analytics_capture(repayer@, total_debt, now));
            assert(p.outbox@.subrange(0, outbox0.len() as int) =~= outbox0);
        }
        ReentrancyGuard::exit(p);
        match recorded_result {
            Ok(_) => Ok(total_debt),
            Err(e) => Err(e),
        }
    }

    /// A partial repayment needs a positive amount.
    pub fn _validate_repay_params(params: &RepayParams) -> (r: Result<(), RepayError>)
        ensures
            r == (if !params.is_full_repay && params.amount <= 0 {
                Err(RepayError::InvalidAmount)
            } else {
                Ok(())
            }),
    {
        if !params.is_full_repay && params.amount <= 0 {
            return Err(RepayError::InvalidAmount);
        }
        Ok(())
    }

    /// The amount repaid: the whole debt for a full repayment, else the
    /// request capped by the debt.
    pub fn _calculate_repay_amount(requested_amount: i128, current_debt: i128, is_full_repay: bool) -> (r: i128)
        ensures
            r == (if is_full_repay || requested_amount > current_debt {
                current_debt
            } else {
                requested_amount
            }),
    {
        if is_full_repay || requested_amount > current_debt {
            current_debt
        } else {
            requested_amount
        }
    }

    /// A position can be fully repaid when it has debt.
    pub fn _can_full_repay(current_debt: i128) -> (b: bool)
        ensures
            b == (current_debt > 0),
    {
        current_debt > 0
    }

    /// The debt left after repaying `repay_amount` (never negative).
    pub fn calculate_remaining_debt(current_debt: i128, repay_amount: i128) -> (r: i128)
        requires
            repay_amount < current_debt ==> current_debt - repay_amount <= i128::MAX,
        ensures
            r == (if repay_amount >= current_debt {
                0
            } else {
                current_debt - repay_amount
            }),
    {
        if repay_amount >= current_debt {
            0
        } else {
            current_debt - repay_amount
        }
    }
}

} // verus!
