//! Borrowing against collateral.
use vstd::prelude::*;
use crate::analytics::{AnalyticsModule, recorded, record_fits, analytics_capture, analytics_notice};
use crate::emergency::{EmergencyManager, spec_emergency_allows};
use crate::errors::ProtocolError;
use crate::events::{ProtocolEvent, Notice, capture_view};
use crate::interest::{InterestRateManager, Position, spec_accrued, spec_updated_state};
use crate::keyed::map_of;
use crate::state::{
    Protocol, ProtocolConfig, ReentrancyGuard, RiskConfigStorage, StateHelper, InterestRateStorage,
    position_in, spec_ratio, ratio_fits, collateral_ratio,
};
use crate::users::OperationKind;

verus! {

/// Borrow-specific errors.
#[derive(Clone, Copy, Debug, PartialEq, Eq, Structural)]
pub enum BorrowError {
    InvalidAmount,
    InvalidAddress,
    ProtocolPaused,
    PositionNotFound,
    InsufficientCollateralRatio,
    AssetNotSupported,
}

impl BorrowError {
    pub open spec fn spec_into(self) -> ProtocolError {
        match self {
            BorrowError::InvalidAmount => ProtocolError::InvalidAmount,
            BorrowError::InvalidAddress => ProtocolError::InvalidAddress,
            BorrowError::ProtocolPaused => ProtocolError::ProtocolPaused,
            BorrowError::PositionNotFound => ProtocolError::PositionNotFound,
            BorrowError::InsufficientCollateralRatio => ProtocolError::InsufficientCollateralRatio,
            BorrowError::AssetNotSupported => ProtocolError::AssetNotSupported,
        }
    }
}

impl From<BorrowError> for ProtocolError {
    fn from(err: BorrowError) -> (r: ProtocolError) {
        match err {
            BorrowError::InvalidAmount => ProtocolError::InvalidAmount,
            BorrowError::InvalidAddress => ProtocolError::InvalidAddress,
            BorrowError::ProtocolPaused => ProtocolError::ProtocolPaused,
            BorrowError::PositionNotFound => ProtocolError::PositionNotFound,
            BorrowError::InsufficientCollateralRatio => ProtocolError::InsufficientCollateralRatio,
            BorrowError::AssetNotSupported => ProtocolError::AssetNotSupported,
        }
    }
}

impl vstd::std_specs::convert::FromSpecImpl<BorrowError> for ProtocolError {
    open spec fn obeys_from_spec() -> bool {
        true
    }

    open spec fn from_spec(v: BorrowError) -> ProtocolError {
        v.spec_into()
    }
}

/// Borrow parameters.
pub struct BorrowParams {
    pub amount: i128,
    pub asset: Option<String>,
    pub user: String,
    pub max_collateral_ratio: Option<i128>,
}

impl BorrowParams {
    pub fn new(amount: i128, user: String) -> (p: Self)
        ensures
            p == (BorrowParams { amount, asset: None, user, max_collateral_ratio: None }),
    {
        BorrowParams { amount, asset: None, user, max_collateral_ratio: None }
    }

    pub fn with_asset(amount: i128, user: String, asset: String) -> (p: Self)
        ensures
            p == (BorrowParams { amount, asset: Some(asset), user, max_collateral_ratio: None }),
    {
        BorrowParams { amount, asset: Some(asset), user, max_collateral_ratio: None }
    }
}

/// The checks a borrow passes before touching storage.
pub open spec fn spec_borrow_precheck(p: &Protocol, borrower: Seq<char>, amount: i128) -> Result<(), ProtocolError> {
    if p.reentrancy {
        Err(ProtocolError::ReentrancyDetected)
    } else if borrower.len() == 0 {
        Err(ProtocolError::InvalidAddress)
    } else if amount <= 0 {
        Err(ProtocolError::InvalidAmount)
    } else if spec_emergency_allows(p.emergency.status, OperationKind::Borrow) is Err {
        spec_emergency_allows(p.emergency.status, OperationKind::Borrow)
    } else if p.risk_config.pause_borrow {
        Err(ProtocolError::ProtocolPaused)
    } else if p.position_of(borrower).is_none() {
        Err(ProtocolError::PositionNotFound)
    } else {
        Ok(())
    }
}

/// The borrower's position with interest accrued at the updated rates.
pub open spec fn spec_borrow_accrued(p: &Protocol, borrower: String) -> Position {
    let st = spec_updated_state(p.interest_state, p.interest_config, p.now);
    spec_accrued(position_in(p, borrower), st.current_borrow_rate as int, st.current_supply_rate as int, p.now)
}

/// The collateral ratio the position would have after borrowing `amount`.
pub open spec fn spec_borrow_ratio(p: &Protocol, borrower: String, amount: i128) -> int {
    let pos = spec_borrow_accrued(p, borrower);
    spec_ratio(pos.collateral as int, pos.debt + amount)
}

/// The outcome of a borrow.
pub open spec fn spec_borrow_result(p: &Protocol, borrower: String, amount: i128) -> Result<(), ProtocolError> {
    match spec_borrow_precheck(p, borrower@, amount) {
        Err(e) => Err(e),
        Ok(_) => if spec_borrow_ratio(p, borrower, amount) < p.spec_min_ratio() {
            Err(ProtocolError::InsufficientCollateralRatio)
        } else {
            Ok(())
        },
    }
}

/// A borrow's arithmetic stays within `i128`.
pub open spec fn borrow_fits(p: &Protocol, borrower: String, amount: i128) -> bool {
    let pos = position_in(p, borrower);
    &&& i128::MIN <= pos.debt + amount <= i128::MAX
    &&& ratio_fits(pos.collateral as int, pos.debt + amount)
    &&& record_fits(&p.analytics, borrower@, "borrow"@, amount)
}

/// Borrow module.
pub struct BorrowModule;

impl BorrowModule {
    /// Borrows `amount` against the borrower's collateral; the resulting
    /// collateral ratio must stay at or above the minimum.
    pub fn borrow(p: &mut Protocol, borrower: &String, amount: i128) -> (r: Result<(), ProtocolError>)
        requires
            old(p).wf(),
            spec_borrow_precheck(old(p), borrower@, amount) is Ok ==> borrow_fits(old(p), *borrower, amount),
        ensures
            final(p).wf(),
            r == spec_borrow_result(old(p), *borrower, amount),
            spec_borrow_precheck(old(p), borrower@, amount) is Err ==> *final(p) == *old(p),
            r is Err ==> *final(p) == *old(p),
            r is Ok ==> ({
                let acc = spec_borrow_accrued(old(p), *borrower);
                let pos = Position { debt: (acc.debt + amount) as i128, ..acc };
                let ev = ProtocolEvent::PositionUpdated(
                    *borrower,
                    pos.collateral,
                    pos.debt,
                    spec_ratio(pos.collateral as int, pos.debt as int) as i128,
                );
                &&& final(p).interest_state == spec_updated_state(old(p).interest_state, old(p).interest_config, old(p).now)
                &&& map_of(final(p).positions@) == map_of(old(p).positions@).insert(borrower@, pos)
                &&& recorded(&old(p).analytics, &final(p).analytics, borrower@, "borrow"@, amount, None, old(p).now)
                &&& old(p).events.appended_all(final(p).events, seq![capture_view(ev, old(p).now), analytics_capture(borrower@, amount, old(p).now)])
                &&& final(p).outbox@.len() == old(p).outbox@.len() + 2
                &&& final(p).outbox@.subrange(0, old(p).outbox@.len() as int) == old(p).outbox@
                &&& final(p).outbox@[old(p).outbox@.len() as int] == Notice::Event(ev)
                &&& analytics_notice(final(p).outbox@.last(), borrower@, "borrow"@, amount, old(p).now)
                &&& *final(p) == (Protocol {
                    interest_state: final(p).interest_state,
                    positions: final(p).positions,
                    analytics: final(p).analytics,
                    events: final(p).events,
                    outbox: final(p).outbox,
                    ..*old(p)
                })
            }),
    {
        ReentrancyGuard::enter(p)?;
        let result = Self::borrow_inner(p, borrower, amount);
        ReentrancyGuard::exit(p);
        result
    }

    fn borrow_inner(p: &mut Protocol, borrower: &String, amount: i128) -> (r: Result<(), ProtocolError>)
        requires
            old(p).wf(),
            old(p).reentrancy,
            spec_borrow_precheck(&Protocol { reentrancy: false, ..*old(p) }, borrower@, amount) is Ok
                ==> borrow_fits(old(p), *borrower, amount),
        ensures
            final(p).wf(),
            final(p).reentrancy,
            r == spec_borrow_result(&Protocol { reentrancy: false, ..*old(p) }, *borrower, amount),
            spec_borrow_precheck(&Protocol { reentrancy: false, ..*old(p) }, borrower@, amount) is Err ==> *final(p) == *old(p),
            r is Err ==> *final(p) == *old(p),
            r is Ok ==> ({
                let acc = spec_borrow_accrued(old(p), *borrower);
                let pos = Position { debt: (acc.debt + amount) as i128, ..acc };
                let ev = ProtocolEvent::PositionUpdated(
                    *borrower,
                    pos.collateral,
                    pos.debt,
                    spec_ratio(pos.collateral as int, pos.debt as int) as i128,
                );
                &&& final(p).interest_state == spec_updated_state(old(p).interest_state, old(p).interest_config, old(p).now)
                &&& map_of(final(p).positions@) == map_of(old(p).positions@).insert(borrower@, pos)
                &&& recorded(&old(p).analytics, &final(p).analytics, borrower@, "borrow"@, amount, None, old(p).now)
                &&& old(p).events.appended_all(final(p).events, seq![capture_view(ev, old(p).now), analytics_capture(borrower@, amount, old(p).now)])
                &&& final(p).outbox@.len() == old(p).outbox@.len() + 2
                &&& final(p).outbox@.subrange(0, old(p).outbox@.len() as int) == old(p).outbox@
                &&& final(p).outbox@[old(p).outbox@.len() as int] == Notice::Event(ev)
                &&& analytics_notice(final(p).outbox@.last(), borrower@, "borrow"@, amount, old(p).now)
                &&& *final(p) == (Protocol {
                    interest_state: final(p).interest_state,
                    positions: final(p).positions,
                    analytics: final(p).analytics,
                    events: final(p).events,
                    outbox: final(p).outbox,
                    ..*old(p)
                })
            }),
    {
        if borrower.as_str().unicode_len() == 0 {
            return Err(BorrowError::InvalidAddress.into());
        }
        if amount <= 0 {
            return Err(BorrowError::InvalidAmount.into());
        }
        EmergencyManager::ensure_operation_allowed(&p.emergency, OperationKind::Borrow)?;
        let risk_config = RiskConfigStorage::get(p);
        if risk_config.pause_borrow {
            return Err(BorrowError::ProtocolPaused.into());
        }
        let ghost p0 = *p;
        let mut position = match StateHelper::get_position(p, borrower) {
            Some(pos) => pos,
            None => return Err(BorrowError::PositionNotFound.into()),
        };
        let state = crate::interest::updated_state(&p.interest_state, &p.interest_config, p.now);
        InterestRateManager::accrue_interest_for_position(
            p.now,
            &mut position,
            state.current_borrow_rate,
            state.current_supply_rate,
        );
        proof {
            assert(position == spec_borrow_accrued(&p0, *borrower));
        }
        let min_ratio = ProtocolConfig::get_min_collateral_ratio(p);
        let new_debt = position.debt + amount;
        let ratio = collateral_ratio(position.collateral, new_debt);
        if ratio < min_ratio {
            return Err(BorrowError::InsufficientCollateralRatio.into());
        }
        InterestRateStorage::save_state(p, state);
        position.debt = new_debt;
        let collateral = position.collateral;
        StateHelper::save_position(p, position);
        let ghost events0 = p.events;
        let ghost outbox0 = p.outbox@;
        let ev = ProtocolEvent::PositionUpdated(borrower.clone(), collateral, new_debt, ratio);
        let ghost evv = ev;
        let now = p.now;
        ev.emit(&mut p.events, &mut p.outbox, now);
        let ghost events1 = p.events;
        let kind = String::from_str("borrow");
        proof {
            reveal_strlit("borrow");
        }
        AnalyticsModule::record_activity(&mut p.analytics, &mut p.events, &mut p.outbox, now, borrower, &kind, amount, None)?;
        proof {
            events0.lemma_appended_two(events1, p.events, capture_view(evv, now), analytics_capture(borrower@, amount, now));
            assert(p.outbox@.subrange(0, outbox0.len() as int) =~= outbox0);
        }
        Ok(())
    }

    /// Borrows a specific asset against the position (no accrual, no
    /// pause check) and emits `CrossBorrow`.
    pub fn _borrow_asset(p: &mut Protocol, user: &String, asset: &String, amount: i128) -> (r: Result<(), ProtocolError>)
        requires
            old(p).wf(),
            i128::MIN <= position_in(old(p), *user).debt + amount <= i128::MAX,
            ratio_fits(position_in(old(p), *user).collateral as int, position_in(old(p), *user).debt + amount),
        ensures
            final(p).wf(),
            r == (if old(p).reentrancy {
                Err(ProtocolError::ReentrancyDetected)
            } else if user@.len() == 0 {
                Err(ProtocolError::InvalidAddress)
            } else if amount <= 0 {
                Err(ProtocolError::InvalidAmount)
            } else if old(p).position_of(user@).is_none() {
                Err(ProtocolError::PositionNotFound)
            } else if spec_ratio(position_in(old(p), *user).collateral as int, position_in(old(p), *user).debt + amount)
                < old(p).spec_min_ratio() {
                Err(ProtocolError::InsufficientCollateralRatio)
            } else {
                Ok(())
            }),
            r is Err ==> *final(p) == *old(p),
            r is Ok ==> ({
                let pos = position_in(old(p), *user);
                let ev = ProtocolEvent::CrossBorrow(*user, *asset, amount);
                &&& map_of(final(p).positions@) == map_of(old(p).positions@).insert(
                    user@,
                    Position { debt: (pos.debt + amount) as i128, ..pos },
                )
                &&& old(p).events.appended(final(p).events, capture_view(ev, old(p).now))
                &&& final(p).outbox@ == old(p).outbox@.push(Notice::Event(ev))
                &&& *final(p) == (Protocol {
                    positions: final(p).positions,
                    events: final(p).events,
                    outbox: final(p).outbox,
                    ..*old(p)
                })
            }),
    {
        ReentrancyGuard::enter(p)?;
        if user.as_str().unicode_len() == 0 {
            ReentrancyGuard::exit(p);
            return Err(BorrowError::InvalidAddress.into());
        }
        if amount <= 0 {
            ReentrancyGuard::exit(p);
            return Err(BorrowError::InvalidAmount.into());
        }
        let mut position = match StateHelper::get_position(p, user) {
            Some(pos) => pos,
            None => {
                ReentrancyGuard::exit(p);
                return Err(BorrowError::PositionNotFound.into());
            },
        };
        let min_ratio = ProtocolConfig::get_min_collateral_ratio(p);
        let new_debt = position.debt + amount;
        let ratio = collateral_ratio(position.collateral, new_debt);
        if ratio < min_ratio {
            ReentrancyGuard::exit(p);
            return Err(BorrowError::InsufficientCollateralRatio.into());
        }
        position.debt = new_debt;
        StateHelper::save_position(p, position);
        let now = p.now;
        ProtocolEvent::CrossBorrow(user.clone(), asset.clone(), amount).emit(&mut p.events, &mut p.outbox, now);
        ReentrancyGuard::exit(p);
        Ok(())
    }

    /// The amount must be positive.
    pub fn _validate_borrow_params(params: &BorrowParams) -> (r: Result<(), BorrowError>)
        ensures
            r == (if params.amount <= 0 {
                Err(BorrowError::InvalidAmount)
            } else {
                Ok(())
            }),
    {
        if params.amount <= 0 {
            return Err(BorrowError::InvalidAmount);
        }
        Ok(())
    }

    /// The most that can still be borrowed: `collateral * 100 / min_ratio`
    /// less the current debt, never negative (0 for a non-positive ratio).
    pub fn _calculate_max_borrowable(collateral: i128, current_debt: i128, min_collateral_ratio: i128) -> (r: i128)
        requires
            i128::MIN <= collateral * 100 <= i128::MAX,
            min_collateral_ratio > 0 ==> crate::math::tdiv(collateral * 100, min_collateral_ratio as int) - current_debt <= i128::MAX,
        ensures
            r == (if min_collateral_ratio <= 0 {
                0
            } else {
                crate::math::max_int(crate::math::tdiv(collateral * 100, min_collateral_ratio as int) - current_debt, 0)
            }),
    {
        if min_collateral_ratio <= 0 {
            return 0;
        }
        let max_debt = (collateral * 100) / min_collateral_ratio;
        if max_debt > current_debt {
            max_debt - current_debt
        } else {
            0
        }
    }

    /// Whether borrowing `borrow_amount` keeps the ratio at or above the minimum
    /// (always when the resulting debt is zero).
    pub fn _is_borrow_allowed(collateral: i128, current_debt: i128, borrow_amount: i128, min_collateral_ratio: i128) -> (b: bool)
        requires
            i128::MIN <= current_debt + borrow_amount <= i128::MAX,
            i128::MIN <= collateral * 100 <= i128::MAX,
            !(collateral * 100 == i128::MIN && current_debt + borrow_amount == -1),
        ensures
            b == (current_debt + borrow_amount == 0 || crate::math::tdiv(collateral * 100, current_debt + borrow_amount)
                >= min_collateral_ratio),
    {
        let new_debt = current_debt + borrow_amount;
        if new_debt == 0 {
            return true;
        }
        let collateral_ratio = crate::math::div_trunc(collateral * 100, new_debt);
        collateral_ratio >= min_collateral_ratio
    }
}

} // verus!
