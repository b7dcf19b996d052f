//! Collateral deposits.
use vstd::prelude::*;
use crate::analytics::{AnalyticsModule, recorded, record_fits, analytics_capture, analytics_notice};
use crate::emergency::{EmergencyManager, spec_emergency_allows};
use crate::errors::ProtocolError;
use crate::events::{ProtocolEvent, Notice, capture_view};
use crate::interest::{InterestRateManager, Position, spec_accrued, spec_updated_state};
use crate::keyed::map_of;
use crate::state::{
    Protocol, ReentrancyGuard, RiskConfigStorage, StateHelper, InterestRateStorage, position_in,
    spec_ratio, ratio_fits, collateral_ratio,
};
use crate::users::OperationKind;

verus! {

/// Deposit-specific errors.
#[derive(Clone, Copy, Debug, PartialEq, Eq, Structural)]
pub enum DepositError {
    InvalidAmount,
    InvalidAddress,
    ProtocolPaused,
    InsufficientCollateral,
}

impl DepositError {
    pub open spec fn spec_into(self) -> ProtocolError {
        match self {
            DepositError::InvalidAmount => ProtocolError::InvalidAmount,
            DepositError::InvalidAddress => ProtocolError::InvalidAddress,
            DepositError::ProtocolPaused => ProtocolError::ProtocolPaused,
            DepositError::InsufficientCollateral => ProtocolError::InsufficientCollateral,
        }
    }
}

impl From<DepositError> for ProtocolError {
    fn from(err: DepositError) -> (r: ProtocolError) {
        match err {
            DepositError::InvalidAmount => ProtocolError::InvalidAmount,
            DepositError::InvalidAddress => ProtocolError::InvalidAddress,
            DepositError::ProtocolPaused => ProtocolError::ProtocolPaused,
            DepositError::InsufficientCollateral => ProtocolError::InsufficientCollateral,
        }
    }
}

impl vstd::std_specs::convert::FromSpecImpl<DepositError> for ProtocolError {
    open spec fn obeys_from_spec() -> bool {
        true
    }

    open spec fn from_spec(v: DepositError) -> ProtocolError {
        v.spec_into()
    }
}

/// Deposit parameters.
pub struct DepositParams {
    pub amount: i128,
    pub asset: Option<String>,
    pub user: String,
}

impl DepositParams {
    pub fn new(amount: i128, user: String) -> (p: Self)
        ensures
            p == (DepositParams { amount, asset: None, user }),
    {
        DepositParams { amount, asset: None, user }
    }

    pub fn with_asset(amount: i128, user: String, asset: String) -> (p: Self)
        ensures
            p == (DepositParams { amount, asset: Some(asset), user }),
    {
        DepositParams { amount, asset: Some(asset), user }
    }
}

/// The checks a deposit passes before touching storage.
pub open spec fn spec_deposit_check(p: &Protocol, depositor: Seq<char>, amount: i128) -> Result<(), ProtocolError> {
    if p.reentrancy {
        Err(ProtocolError::ReentrancyDetected)
    } else if depositor.len() == 0 {
        Err(ProtocolError::InvalidAddress)
    } else if amount <= 0 {
        Err(ProtocolError::InvalidAmount)
    } else if spec_emergency_allows(p.emergency.status, OperationKind::Deposit) is Err {
        spec_emergency_allows(p.emergency.status, OperationKind::Deposit)
    } else if p.risk_config.pause_deposit {
        Err(ProtocolError::ProtocolPaused)
    } else {
        Ok(())
    }
}

/// The position after depositing `amount`: interest accrued, collateral grown.
pub open spec fn spec_deposited_position(p: &Protocol, depositor: String, amount: i128) -> Position {
    let st = spec_updated_state(p.interest_state, p.interest_config, p.now);
    let pos = spec_accrued(position_in(p, depositor), st.current_borrow_rate as int, st.current_supply_rate as int, p.now);
    Position { collateral: (pos.collateral + amount) as i128, ..pos }
}

/// A deposit's arithmetic stays within `i128`.
pub open spec fn deposit_fits(p: &Protocol, depositor: String, amount: i128) -> bool {
    let pos = position_in(p, depositor);
    &&& pos.collateral + amount <= i128::MAX
    &&& ratio_fits(pos.collateral + amount, pos.debt as int)
    &&& record_fits(&p.analytics, depositor@, "deposit"@, amount)
}

/// Deposit module.
pub struct DepositModule;

impl DepositModule {
    /// Deposits collateral: accrues interest on the depositor's position,
    /// grows its collateral, emits `PositionUpdated` and records the activity.
    pub fn deposit_collateral(p: &mut Protocol, depositor: &String, amount: i128) -> (r: Result<(), ProtocolError>)
        requires
            old(p).wf(),
            spec_deposit_check(old(p), depositor@, amount) is Ok ==> deposit_fits(old(p), *depositor, amount),
        ensures
            final(p).wf(),
            r == spec_deposit_check(old(p), depositor@, amount),
            r is Err ==> *final(p) == *old(p),
            r is Ok ==> ({
                let pos = spec_deposited_position(old(p), *depositor, amount);
                let ev = ProtocolEvent::PositionUpdated(
                    *depositor,
                    pos.collateral,
                    pos.debt,
                    spec_ratio(pos.collateral as int, pos.debt as int) as i128,
                );
                &&& final(p).interest_state == spec_updated_state(old(p).interest_state, old(p).interest_config, old(p).now)
                &&& map_of(final(p).positions@) == map_of(old(p).positions@).insert(depositor@, pos)
                &&& recorded(&old(p).analytics, &final(p).analytics, depositor@, "deposit"@, amount, None, old(p).now)
                &&& old(p).events.appended_all(final(p).events, seq![capture_view(ev, old(p).now), analytics_capture(depositor@, amount, old(p).now)])
                &&& final(p).outbox@.len() == old(p).outbox@.len() + 2
                &&& final(p).outbox@.subrange(0, old(p).outbox@.len() as int) == old(p).outbox@
                &&& final(p).outbox@[old(p).outbox@.len() as int] == Notice::Event(ev)
                &&& analytics_notice(final(p).outbox@.last(), depositor@, "deposit"@, amount, old(p).now)
                &&& *final(p) == (Protocol {
                    interest_state: final(p).interest_state,
                    positions: final(p).positions,
                    analytics: final(p).analytics,
                    events: final(p).events,
                    outbox: final(p).outbox,
                    ..*old(p)
                })
            }),
    {
        ReentrancyGuard::enter(p)?;
        let result = Self::deposit_inner(p, depositor, amount);
        ReentrancyGuard::exit(p);
        result
    }

    fn deposit_inner(p: &mut Protocol, depositor: &String, amount: i128) -> (r: Result<(), ProtocolError>)
        requires
            old(p).wf(),
            old(p).reentrancy,
            spec_deposit_check(&Protocol { reentrancy: false, ..*old(p) }, depositor@, amount) is Ok
                ==> deposit_fits(old(p), *depositor, amount),
        ensures
            final(p).wf(),
            final(p).reentrancy,
            r == spec_deposit_check(&Protocol { reentrancy: false, ..*old(p) }, depositor@, amount),
            r is Err ==> *final(p) == *old(p),
            r is Ok ==> ({
                let pos = spec_deposited_position(old(p), *depositor, amount);
                let ev = ProtocolEvent::PositionUpdated(
                    *depositor,
                    pos.collateral,
                    pos.debt,
                    spec_ratio(pos.collateral as int, pos.debt as int) as i128,
                );
                &&& final(p).interest_state == spec_updated_state(old(p).interest_state, old(p).interest_config, old(p).now)
                &&& map_of(final(p).positions@) == map_of(old(p).positions@).insert(depositor@, pos)
                &&& recorded(&old(p).analytics, &final(p).analytics, depositor@, "deposit"@, amount, None, old(p).now)
                &&& old(p).events.appended_all(final(p).events, seq![capture_view(ev, old(p).now), analytics_capture(depositor@, amount, old(p).now)])
                &&& final(p).outbox@.len() == old(p).outbox@.len() + 2
                &&& final(p).outbox@.subrange(0, old(p).outbox@.len() as int) == old(p).outbox@
                &&& final(p).outbox@[old(p).outbox@.len() as int] == Notice::Event(ev)
                &&& analytics_notice(final(p).outbox@.last(), depositor@, "deposit"@, amount, old(p).now)
                &&& *final(p) == (Protocol {
                    interest_state: final(p).interest_state,
                    positions: final(p).positions,
                    analytics: final(p).analytics,
                    events: final(p).events,
                    outbox: final(p).outbox,
                    ..*old(p)
                })
            }),
    {
        if depositor.as_str().unicode_len() == 0 {
            return Err(DepositError::InvalidAddress.into());
        }
        if amount <= 0 {
            return Err(DepositError::InvalidAmount.into());
        }
        EmergencyManager::ensure_operation_allowed(&p.emergency, OperationKind::Deposit)?;
        let risk_config = RiskConfigStorage::get(p);
        if risk_config.pause_deposit {
            return Err(DepositError::ProtocolPaused.into());
        }
        let ghost p0 = *p;
        let mut position = match StateHelper::get_position(p, depositor) {
            Some(pos) => pos,
            None => Position::new(depositor.clone(), 0, 0),
        };
        let state = InterestRateStorage::update_state(p);
        InterestRateManager::accrue_interest_for_position(
            p.now,
            &mut position,
            state.current_borrow_rate,
            state.current_supply_rate,
        );
        position.collateral = position.collateral + amount;
        let collateral = position.collateral;
        let debt = position.debt;
        proof {
            assert(position == spec_deposited_position(&p0, *depositor, amount));
        }
        StateHelper::save_position(p, position);
        let ratio = collateral_ratio(collateral, debt);
        let ghost events0 = p.events;
        let ghost outbox0 = p.outbox@;
        let ev = ProtocolEvent::PositionUpdated(depositor.clone(), collateral, debt, ratio);
        let ghost evv = ev;
        let now = p.now;
        ev.emit(&mut p.events, &mut p.outbox, now);
        let ghost events1 = p.events;
        let kind = String::from_str("deposit");
        proof {
            reveal_strlit("deposit");
        }
        AnalyticsModule::record_activity(&mut p.analytics, &mut p.events, &mut p.outbox, now, depositor, &kind, amount, None)?;
        proof {
            events0.lemma_appended_two(events1, p.events, capture_view(evv, now), analytics_capture(depositor@, amount, now));
            assert(p.outbox@.subrange(0, outbox0.len() as int) =~= outbox0);
        }
        Ok(())
    }

    /// Deposits collateral for a specific asset: grows the position's
    /// collateral (no accrual, no pause check) and emits `CrossDeposit`.
    pub fn deposit_collateral_asset(p: &mut Protocol, user: &String, asset: &String, amount: i128) -> (r: Result<
        (),
        ProtocolError,
    >)
        requires
            old(p).wf(),
            position_in(old(p), *user).collateral + amount <= i128::MAX,
        ensures
            final(p).wf(),
            r == (if old(p).reentrancy {
                Err(ProtocolError::ReentrancyDetected)
            } else if user@.len() == 0 {
                Err(ProtocolError::InvalidAddress)
            } else if amount <= 0 {
                Err(ProtocolError::InvalidAmount)
            } else {
                spec_emergency_allows(old(p).emergency.status, OperationKind::Deposit)
            }),
            r is Err ==> *final(p) == *old(p),
            r is Ok ==> ({
                let pos = position_in(old(p), *user);
                let ev = ProtocolEvent::CrossDeposit(*user, *asset, amount);
                &&& map_of(final(p).positions@) == map_of(old(p).positions@).insert(
                    user@,
                    Position { collateral: (pos.collateral + amount) as i128, ..pos },
                )
                &&& old(p).events.appended(final(p).events, capture_view(ev, old(p).now))
                &&& final(p).outbox@ == old(p).outbox@.push(Notice::Event(ev))
                &&& *final(p) == (Protocol {
                    positions: final(p).positions,
                    events: final(p).events,
                    outbox: final(p).outbox,
                    ..*old(p)
                })
            }),
    {
        ReentrancyGuard::enter(p)?;
        if user.as_str().unicode_len() == 0 {
            ReentrancyGuard::exit(p);
            return Err(DepositError::InvalidAddress.into());
        }
        if amount <= 0 {
            ReentrancyGuard::exit(p);
            return Err(DepositError::InvalidAmount.into());
        }
        match EmergencyManager::ensure_operation_allowed(&p.emergency, OperationKind::Deposit) {
            Err(e) => {
                ReentrancyGuard::exit(p);
                return Err(e);
            },
            Ok(_) => {},
        }
        let mut position = match StateHelper::get_position(p, user) {
            Some(pos) => pos,
            None => Position::new(user.clone(), 0, 0),
        };
        position.collateral = position.collateral + amount;
        StateHelper::save_position(p, position);
        let now = p.now;
        ProtocolEvent::CrossDeposit(user.clone(), asset.clone(), amount).emit(&mut p.events, &mut p.outbox, now);
        ReentrancyGuard::exit(p);
        Ok(())
    }

    /// The amount must be positive.
    pub fn validate_deposit_params(params: &DepositParams) -> (r: Result<(), DepositError>)
        ensures
            r == (if params.amount <= 0 {
                Err(DepositError::InvalidAmount)
            } else {
                Ok(())
            }),
    {
        if params.amount <= 0 {
            return Err(DepositError::InvalidAmount);
        }
        Ok(())
    }

    /// The collateral ratio after depositing `deposit_amount`.
    pub fn calculate_collateral_ratio_impact(current_collateral: i128, current_debt: i128, deposit_amount: i128) -> (r: i128)
        requires
            i128::MIN <= current_collateral + deposit_amount <= i128::MAX,
            ratio_fits(current_collateral + deposit_amount, current_debt as int),
        ensures
            r == spec_ratio(current_collateral + deposit_amount, current_debt as int),
    {
        let new_collateral = current_collateral + deposit_amount;
        collateral_ratio(new_collateral, current_debt)
    }
}

} // verus!
