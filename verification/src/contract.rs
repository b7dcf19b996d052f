//! The contract's public interface: every entry point validates its
//! address arguments and delegates to the modules.
use vstd::prelude::*;
use crate::address::{AddressHelper, spec_valid_address};
use crate::analytics::{AnalyticsModule, recorded, record_fits, analytics_capture, analytics_notice};
use crate::borrow::{BorrowModule, spec_borrow_precheck, spec_borrow_result, spec_borrow_accrued, borrow_fits};
use crate::deposit::{DepositModule, spec_deposit_check, spec_deposited_position, deposit_fits};
use crate::errors::ProtocolError;
use crate::events::{ProtocolEvent, Notice, capture_view};
use crate::interest::{InterestRateConfig, InterestRateState, Position, RiskConfig, spec_updated_state};
use crate::keyed::map_of;
use crate::liquidate::{LiquidationModule, spec_liquidation_result, spec_liquidation_gate, liquidation_fits};
use crate::repay::{RepayModule, spec_repay_outcome, spec_repay_gate, spec_repay_account, spec_repay_amount, spec_repaid_position};
use crate::state::{Protocol, ProtocolConfig, ReentrancyGuard, RiskConfigStorage, InterestRateStorage, StateHelper, position_in, spec_ratio, ratio_fits, collateral_ratio};
use crate::transfer::{BalanceReading, PendingKind, PendingTransfer, TransferEnforcer, TransferOrder, order_view, attempt_view, attempt_notice, failure_view, failure_notice, success_view, success_notice, spec_settle, pending_operation, settled_event};
use crate::users::{OperationKind, UserManager, UserProfile, UserRole, VerificationStatus, profile_in, spec_operation_allowed, with_profile, spec_require_admin};
use crate::emergency::{EmergencyManager, EmergencyState, EmergencyStatus, EmergencyParamUpdate, spec_managers_after, texts_of, emitted, settings_of, spec_apply_from, applied_records, applied_notices};
use crate::state::{TokenRegistry, TokenEntry};
use crate::users::{UserLimits, after_manage_check, spec_can_manage};
use crate::events::{keep_last, EventStorage, EventSummary, EventAggregate, EventRecord, agg_views, texts, records_view, opt_view};
use crate::analytics::{ProtocolReport, UserReport, AssetReport, RiskAnalytics, ActivityFeed, AnalyticsState, count_active, analytics_of, activities_of, log_view, asset_analytics_of, history_view, asset_history, risk_fits, spec_risk, spec_performance_after, MAX_ACTIVITY_LOG};
use crate::amm::{AMMRegistry, AMMState, AssetPair, SwapParams, SwapResult, MAX_SWAP_HISTORY, swap_fits, spec_swap, pair_view, liquidation_hook_params, deleverage_hook_params};
use crate::math::SECONDS_PER_DAY;
use crate::withdraw::{WithdrawModule, spec_withdraw_outcome, spec_withdraw_gate, spec_withdraw_account, spec_withdrawn_position, withdraw_fits};

verus! {

/// The StellarLend contract.
pub struct Contract;

/// The outcome of the reentrancy guard and the validation of `caller`.
pub open spec fn spec_entry(p: &Protocol, caller: Seq<char>) -> Result<(), ProtocolError> {
    if p.reentrancy {
        Err(ProtocolError::ReentrancyDetected)
    } else if !spec_valid_address(caller) {
        Err(ProtocolError::InvalidAddress)
    } else {
        Ok(())
    }
}

impl Contract {
    /// Initializes the contract: records the admin, registers them as a
    /// verified admin user and installs the default interest and risk
    /// configuration. Fails once an admin is set.
    pub fn initialize(p: &mut Protocol, admin: &String) -> (r: Result<(), ProtocolError>)
        requires
            old(p).wf(),
        ensures
            final(p).wf(),
            r == (if spec_entry(old(p), admin@) is Err {
                spec_entry(old(p), admin@)
            } else if old(p).admin is Some {
                Err(ProtocolError::AlreadyInitialized)
            } else {
                Ok(())
            }),
            r is Err ==> *final(p) == *old(p),
            r is Ok ==> {
                &&& map_of(final(p).users@) == map_of(old(p).users@).insert(
                    admin@,
                    UserProfile {
                        role: UserRole::Admin,
                        verification: VerificationStatus::Verified,
                        is_frozen: false,
                        last_active: old(p).now,
                        ..profile_in(map_of(old(p).users@), *admin, old(p).now)
                    },
                )
                &&& final(p).outbox@.len() == old(p).outbox@.len() + 1
                &&& final(p).outbox@.drop_last() == old(p).outbox@
                &&& final(p).outbox@.last() matches Notice::UserRegistered(u, UserRole::Admin) && u@ == admin@
                &&& *final(p) == (Protocol {
                    admin: Some(*admin),
                    users: final(p).users,
                    outbox: final(p).outbox,
                    interest_config: InterestRateConfig::spec_default(),
                    interest_state: InterestRateState::spec_initial(),
                    risk_config: RiskConfig::spec_default(),
                    ..*old(p)
                })
            },
    {
        ReentrancyGuard::enter(p)?;
        let admin_addr = match AddressHelper::require_valid_address(admin) {
            Ok(a) => a,
            Err(e) => {
                ReentrancyGuard::exit(p);
                return Err(e);
            },
        };
        if p.admin.is_some() {
            ReentrancyGuard::exit(p);
            return Err(ProtocolError::AlreadyInitialized);
        }
        ProtocolConfig::set_admin(p, &admin_addr);
        let now = p.now;
        UserManager::bootstrap_admin(&mut p.users, &mut p.outbox, now, &admin_addr);
        InterestRateStorage::save_config(p, InterestRateConfig::default());
        InterestRateStorage::save_state(p, InterestRateState::initial());
        RiskConfigStorage::save(p, RiskConfig::default());
        ReentrancyGuard::exit(p);
        Ok(())
    }

    /// Sets the minimum collateral ratio (admin only, positive).
    pub fn set_min_collateral_ratio(p: &mut Protocol, caller: &String, ratio: i128) -> (r: Result<(), ProtocolError>)
        ensures
            r == (if !spec_valid_address(caller@) {
                Err(ProtocolError::InvalidAddress)
            } else {
                match spec_require_admin(old(p).admin, *caller) {
                    Err(e) => Err(e),
                    Ok(_) => if ratio <= 0 {
                        Err(ProtocolError::InvalidInput)
                    } else {
                        Ok(())
                    },
                }
            }),
            r is Ok ==> *final(p) == (Protocol { min_collateral_ratio: Some(ratio), ..*old(p) }),
            r is Err ==> *final(p) == *old(p),
    {
        let caller_addr = AddressHelper::require_valid_address(caller)?;
        ProtocolConfig::set_min_collateral_ratio(p, &caller_addr, ratio)
    }

    /// Deposits collateral for a well-formed depositor address.
    pub fn deposit_collateral(p: &mut Protocol, depositor: &String, amount: i128) -> (r: Result<(), ProtocolError>)
        requires
            old(p).wf(),
            spec_valid_address(depositor@) && spec_deposit_check(old(p), depositor@, amount) is Ok ==> deposit_fits(
                old(p),
                *depositor,
                amount,
            ),
        ensures
            final(p).wf(),
            r == (if !spec_valid_address(depositor@) {
                Err(ProtocolError::InvalidAddress)
            } else {
                spec_deposit_check(old(p), depositor@, amount)
            }),
            r is Err ==> *final(p) == *old(p),
            r is Ok ==> ({
                let pos = spec_deposited_position(old(p), *depositor, amount);
                let ev = ProtocolEvent::PositionUpdated(
                    *depositor,
                    pos.collateral,
                    pos.debt,
                    spec_ratio(pos.collateral as int, pos.debt as int) as i128,
                );
                &&& map_of(final(p).positions@) == map_of(old(p).positions@).insert(depositor@, pos)
                &&& recorded(&old(p).analytics, &final(p).analytics, depositor@, "deposit"@, amount, None, old(p).now)
                &&& old(p).events.appended_all(
                    final(p).events,
                    seq![capture_view(ev, old(p).now), analytics_capture(depositor@, amount, old(p).now)],
                )
                &&& final(p).outbox@.len() == old(p).outbox@.len() + 2
                &&& final(p).outbox@.subrange(0, old(p).outbox@.len() as int) == old(p).outbox@
                &&& final(p).outbox@[old(p).outbox@.len() as int] == Notice::Event(ev)
                &&& analytics_notice(final(p).outbox@.last(), depositor@, "deposit"@, amount, old(p).now)
                &&& *final(p) == (Protocol {
                    interest_state: spec_updated_state(old(p).interest_state, old(p).interest_config, old(p).now),
                    positions: final(p).positions,
                    analytics: final(p).analytics,
                    events: final(p).events,
                    outbox: final(p).outbox,
                    ..*old(p)
                })
            }),
    {
        let depositor_addr = AddressHelper::require_valid_address(depositor)?;
        DepositModule::deposit_collateral(p, &depositor_addr, amount)
    }

    /// Borrows for a well-formed borrower address.
    pub fn borrow(p: &mut Protocol, borrower: &String, amount: i128) -> (r: Result<(), ProtocolError>)
        requires
            old(p).wf(),
            spec_valid_address(borrower@) && spec_borrow_precheck(old(p), borrower@, amount) is Ok ==> borrow_fits(
                old(p),
                *borrower,
                amount,
            ),
        ensures
            final(p).wf(),
            r == (if !spec_valid_address(borrower@) {
                Err(ProtocolError::InvalidAddress)
            } else {
                spec_borrow_result(old(p), *borrower, amount)
            }),
            !spec_valid_address(borrower@) || spec_borrow_precheck(old(p), borrower@, amount) is Err ==> *final(p)
                == *old(p),
            r is Err ==> *final(p) == *old(p),
            r is Ok ==> ({
                let acc = spec_borrow_accrued(old(p), *borrower);
                let pos = Position { debt: (acc.debt + amount) as i128, ..acc };
                let ev = ProtocolEvent::PositionUpdated(
                    *borrower,
                    pos.collateral,
                    pos.debt,
                    spec_ratio(pos.collateral as int, pos.debt as int) as i128,
                );
                &&& map_of(final(p).positions@) == map_of(old(p).positions@).insert(borrower@, pos)
                &&& recorded(&old(p).analytics, &final(p).analytics, borrower@, "borrow"@, amount, None, old(p).now)
                &&& old(p).events.appended_all(
                    final(p).events,
                    seq![capture_view(ev, old(p).now), analytics_capture(borrower@, amount, old(p).now)],
                )
                &&& final(p).outbox@.len() == old(p).outbox@.len() + 2
                &&& final(p).outbox@.subrange(0, old(p).outbox@.len() as int) == old(p).outbox@
                &&& final(p).outbox@[old(p).outbox@.len() as int] == Notice::Event(ev)
                &&& analytics_notice(final(p).outbox@.last(), borrower@, "borrow"@, amount, old(p).now)
                &&& *final(p) == (Protocol {
                    interest_state: spec_updated_state(old(p).interest_state, old(p).interest_config, old(p).now),
                    positions: final(p).positions,
                    analytics: final(p).analytics,
                    events: final(p).events,
                    outbox: final(p).outbox,
                    ..*old(p)
                })
            }),
    {
        let borrower_addr = AddressHelper::require_valid_address(borrower)?;
        BorrowModule::borrow(p, &borrower_addr, amount)
    }

    /// Starts a repayment for a well-formed repayer address; the host moves
    /// the tokens of the returned order and finishes with
    /// `complete_transfer`.
    pub fn repay(p: &mut Protocol, repayer: &String, amount: i128, before: BalanceReading) -> (r: Result<
        TransferOrder,
        ProtocolError,
    >)
        requires
            old(p).wf(),
        ensures
            final(p).wf(),
            !spec_valid_address(repayer@) ==> r == Err::<TransferOrder, ProtocolError>(ProtocolError::InvalidAddress)
                && *final(p) == *old(p),
            spec_valid_address(repayer@) ==> ({
                &&& (match r {
                                Ok(o) => {
                                    let ra = spec_repay_amount(old(p), *repayer, amount);
                                    &&& spec_repay_outcome(old(p), *repayer, amount) is Ok
                                    &&& o@ == order_view(old(p), repayer@, ra as i128, "repay"@, true)
                                    &&& *final(p) == (Protocol {
                                        reentrancy: true,
                                        pending: Some(
                                            PendingTransfer {
                                                kind: PendingKind::Repay,
                                                order: o,
                                                before,
                                                position: spec_repaid_position(old(p), *repayer, amount),
                                                interest_state: spec_updated_state(
                                                    old(p).interest_state,
                                                    old(p).interest_config,
                                                    old(p).now,
                                                ),
                                            },
                                        ),
                                        ..*old(p)
                                    })
                                },
                                Err(e) => spec_repay_outcome(old(p), *repayer, amount) == Err::<(), ProtocolError>(e) && *final(p)
                                    == *old(p),
                            })
            }),
    {
        let repayer_addr = AddressHelper::require_valid_address(repayer)?;
        RepayModule::repay(p, &repayer_addr, amount, before)
    }

    /// Starts a withdrawal for a well-formed withdrawer address; the host
    /// moves the tokens of the returned order and finishes with
    /// `complete_transfer`.
    pub fn withdraw(p: &mut Protocol, withdrawer: &String, amount: i128, before: BalanceReading) -> (r: Result<
        TransferOrder,
        ProtocolError,
    >)
        requires
            old(p).wf(),
            spec_valid_address(withdrawer@) && spec_withdraw_gate(old(p), amount) is Ok && spec_withdraw_account(
                old(p),
                *withdrawer,
                amount,
            ) is Ok ==> withdraw_fits(old(p), *withdrawer, amount),
        ensures
            final(p).wf(),
            !spec_valid_address(withdrawer@) ==> r == Err::<TransferOrder, ProtocolError>(
                ProtocolError::InvalidAddress,
            ) && *final(p) == *old(p),
            spec_valid_address(withdrawer@) ==> ({
                &&& (match r {
                                Ok(o) => {
                                    &&& spec_withdraw_outcome(old(p), *withdrawer, amount, before.contract) is Ok
                                    &&& o@ == order_view(old(p), withdrawer@, amount, "withdraw"@, false)
                                    &&& *final(p) == (Protocol {
                                        reentrancy: true,
                                        pending: Some(
                                            PendingTransfer {
                                                kind: PendingKind::Withdraw,
                                                order: o,
                                                before,
                                                position: spec_withdrawn_position(old(p), *withdrawer, amount),
                                                interest_state: spec_updated_state(
                                                    old(p).interest_state,
                                                    old(p).interest_config,
                                                    old(p).now,
                                                ),
                                            },
                                        ),
                                        ..*old(p)
                                    })
                                },
                                Err(e) => {
                                    &&& spec_withdraw_outcome(old(p), *withdrawer, amount, before.contract) == Err::<(), ProtocolError>(
                                        e,
                                    )
                                    &&& if e == ProtocolError::InsufficientLiquidity {
                                        let o = order_view(old(p), withdrawer@, amount, "withdraw"@, false);
                                        &&& old(p).events.appended(
                                            final(p).events,
                                            failure_view(o, "insufficient_liquidity"@, old(p).now),
                                        )
                                        &&& final(p).outbox@.drop_last() == old(p).outbox@
                                        &&& final(p).outbox@.len() == old(p).outbox@.len() + 1
                                        &&& failure_notice(final(p).outbox@.last(), o, "insufficient_liquidity"@)
                                        &&& *final(p) == (Protocol { events: final(p).events, outbox: final(p).outbox, ..*old(p) })
                                    } else {
                                        *final(p) == *old(p)
                                    }
                                },
                            })
            }),
    {
        let withdrawer_addr = AddressHelper::require_valid_address(withdrawer)?;
        WithdrawModule::withdraw(p, &withdrawer_addr, amount, before)
    }

    /// Finishes the pending repayment or withdrawal with the balances read
    /// after its transfer (see `TransferEnforcer::complete_pending`).
    pub fn complete_transfer(p: &mut Protocol, after: BalanceReading) -> (r: Result<(), ProtocolError>)
        requires
            old(p).wf(),
            old(p).pending is Some,
            crate::transfer::pending_fits(old(p)),
        ensures
            final(p).wf(),
            ({
                let pt = old(p).pending->Some_0;
                let now = old(p).now;
                let user = pt.position.user;
                let amount = pt.order.amount;
                let op = pending_operation(pt.kind);
                let prof = profile_in(map_of(old(p).users@), user, now);
                let rec = prof.limits.spec_refreshed(now).spec_check(op, amount);
                let n = old(p).outbox@.len() as int;
                match spec_settle(pt.order@, pt.before, after) {
                    Err(e) => {
                        &&& r == Err::<(), ProtocolError>(e)
                        &&& old(p).events.appended(final(p).events, failure_view(pt.order@, "invariant_violation"@, now))
                        &&& final(p).outbox@.drop_last() == old(p).outbox@
                        &&& final(p).outbox@.len() == n + 1
                        &&& failure_notice(final(p).outbox@.last(), pt.order@, "invariant_violation"@)
                        &&& *final(p) == (Protocol {
                            events: final(p).events,
                            outbox: final(p).outbox,
                            reentrancy: false,
                            pending: None,
                            ..*old(p)
                        })
                    },
                    Ok(_) => if rec is Err {
                        &&& r == rec
                        &&& *final(p) == (Protocol { reentrancy: false, pending: None, ..*old(p) })
                    } else {
                        &&& r is Ok
                        &&& map_of(final(p).positions@) == map_of(old(p).positions@).insert(user@, pt.position)
                        &&& map_of(final(p).users@) == map_of(old(p).users@).insert(
                            user@,
                            UserManager::spec_recorded(prof, now, amount),
                        )
                        &&& recorded(&old(p).analytics, &final(p).analytics, user@, pt.order.flow@, amount, None, now)
                        &&& old(p).events.appended_all(
                            final(p).events,
                            seq![
                                attempt_view(pt.order@, now),
                                success_view(pt.order@, now),
                                capture_view(settled_event(pt), now),
                                analytics_capture(user@, amount, now),
                            ],
                        )
                        &&& final(p).outbox@.len() == n + 5
                        &&& final(p).outbox@.subrange(0, n) == old(p).outbox@
                        &&& attempt_notice(final(p).outbox@[n], pt.order@)
                        &&& success_notice(final(p).outbox@[n + 1], pt.order@)
                        &&& final(p).outbox@[n + 2] == Notice::Event(settled_event(pt))
                        &&& analytics_notice(final(p).outbox@[n + 3], user@, pt.order.flow@, amount, now)
                        &&& final(p).outbox@[n + 4] matches Notice::UserActivityTracked(u, o, a, t) && u@ == user@ && o
                            == op && a == amount && t == now
                        &&& *final(p) == (Protocol {
                            interest_state: pt.interest_state,
                            positions: final(p).positions,
                            users: final(p).users,
                            analytics: final(p).analytics,
                            events: final(p).events,
                            outbox: final(p).outbox,
                            reentrancy: false,
                            pending: None,
                            ..*old(p)
                        })
                    },
                }
            }),
    {
        TransferEnforcer::complete_pending(p, after)
    }

    /// Liquidates `user`'s position for a well-formed liquidator allowed to
    /// liquidate, and counts the operation against the liquidator's limits.
    /// A refused call changes nothing.
    pub fn liquidate(p: &mut Protocol, liquidator: &String, user: &String, amount: i128, min_out: i128) -> (r: Result<
        (),
        ProtocolError,
    >)
        requires
            old(p).wf(),
            spec_liquidation_gate(old(p), liquidator@, user@, amount) is Ok ==> liquidation_fits(
                old(p),
                *liquidator,
                *user,
                amount,
            ),
        ensures
            final(p).wf(),
            ({
                let now = old(p).now;
                let prof = profile_in(map_of(old(p).users@), *liquidator, now);
                let allowed = spec_operation_allowed(prof, OperationKind::Liquidate, amount);
                let lr = spec_liquidation_result(old(p), *liquidator, *user, amount, min_out);
                let rec = prof.limits.spec_refreshed(now).spec_check(OperationKind::Liquidate, amount);
                if !spec_valid_address(liquidator@) {
                    r == Err::<(), ProtocolError>(ProtocolError::InvalidAddress) && *final(p) == *old(p)
                } else if allowed is Err {
                    r == allowed && *final(p) == *old(p)
                } else if lr is Err {
                    r == Err::<(), ProtocolError>(lr->Err_0) && *final(p) == *old(p)
                } else if rec is Err {
                    r == rec && *final(p) == *old(p)
                } else {
                    let res = lr->Ok_0;
                    let pos = position_in(old(p), *user);
                    let new_pos = Position {
                        debt: (pos.debt - res.debt_repaid) as i128,
                        collateral: (pos.collateral - res.collateral_seized) as i128,
                        ..pos
                    };
                    let ev = ProtocolEvent::LiquidationExecuted(
                        *liquidator,
                        *user,
                        res.collateral_seized,
                        res.debt_repaid,
                    );
                    let n = old(p).outbox@.len() as int;
                    &&& r is Ok
                    &&& map_of(final(p).positions@) == map_of(old(p).positions@).insert(user@, new_pos)
                    &&& map_of(final(p).users@) == map_of(old(p).users@).insert(
                        liquidator@,
                        UserManager::spec_recorded(prof, now, amount),
                    )
                    &&& recorded(
                        &old(p).analytics,
                        &final(p).analytics,
                        liquidator@,
                        "liquidate"@,
                        res.debt_repaid,
                        None,
                        now,
                    )
                    &&& old(p).events.appended_all(
                        final(p).events,
                        seq![capture_view(ev, now), analytics_capture(liquidator@, res.debt_repaid, now)],
                    )
                    &&& final(p).outbox@.len() == n + 3
                    &&& final(p).outbox@.subrange(0, n) == old(p).outbox@
                    &&& final(p).outbox@[n] == Notice::Event(ev)
                    &&& analytics_notice(final(p).outbox@[n + 1], liquidator@, "liquidate"@, res.debt_repaid, now)
                    &&& final(p).outbox@[n + 2] matches Notice::UserActivityTracked(u, o, a, t) && u@ == liquidator@
                        && o == OperationKind::Liquidate && a == amount && t == now
                    &&& *final(p) == (Protocol {
                        users: final(p).users,
                        positions: final(p).positions,
                        analytics: final(p).analytics,
                        events: final(p).events,
                        outbox: final(p).outbox,
                        ..*old(p)
                    })
                }
            }),
    {
        let liquidator_addr = AddressHelper::require_valid_address(liquidator)?;
        let now = p.now;
        UserManager::check_operation_allowed(&p.users, now, &liquidator_addr, OperationKind::Liquidate, amount)?;
        let limits = UserManager::check_activity(&p.users, now, &liquidator_addr, OperationKind::Liquidate, amount);
        if limits.is_err() {
            if p.reentrancy {
                return Err(ProtocolError::ReentrancyDetected);
            }
            proof {
                assert(*p == (Protocol { reentrancy: false, ..*p }));
            }
            return match LiquidationModule::assess_liquidation(p, liquidator, user, amount, min_out) {
                Err(e) => Err(e),
                Ok(_) => limits,
            };
        }
        LiquidationModule::liquidate(p, liquidator, user, amount, min_out)?;
        let ghost outbox2 = p.outbox@;
        let result = UserManager::record_activity(&mut p.users, &mut p.outbox, now, &liquidator_addr, OperationKind::Liquidate, amount);
        proof {
            let n = old(p).outbox@.len() as int;
            assert(p.outbox@.subrange(0, n) =~= old(p).outbox@);
            assert(outbox2.subrange(0, n) =~= old(p).outbox@);
            assert(p.outbox@[n] == outbox2[n]);
            assert(p.outbox@[n + 1] == outbox2[n + 1]);
        }
        result
    }

    /// The user's collateral, debt and collateral ratio.
    pub fn get_position(p: &Protocol, user: &String) -> (r: Result<(i128, i128, i128), ProtocolError>)
        requires
            p.wf(),
            ratio_fits(position_in(p, *user).collateral as int, position_in(p, *user).debt as int),
        ensures
            r == (if !spec_valid_address(user@) {
                Err(ProtocolError::InvalidAddress)
            } else {
                match p.position_of(user@) {
                    Some(pos) => Ok(
                        (pos.collateral, pos.debt, spec_ratio(pos.collateral as int, pos.debt as int) as i128),
                    ),
                    None => Err(ProtocolError::PositionNotFound),
                }
            }),
    {
        let user_addr = AddressHelper::require_valid_address(user)?;
        match StateHelper::get_position(p, &user_addr) {
            Some(position) => {
                let ratio = collateral_ratio(position.collateral, position.debt);
                Ok((position.collateral, position.debt, ratio))
            },
            None => Err(ProtocolError::PositionNotFound),
        }
    }

    /// Sets the close factor and the liquidation incentive (admin only);
    /// emits `RiskParamsUpdated`.
    pub fn set_risk_params(p: &mut Protocol, caller: &String, close_factor: i128, liquidation_incentive: i128) -> (r:
        Result<(), ProtocolError>)
        requires
            old(p).wf(),
        ensures
            final(p).wf(),
            r == (if spec_entry(old(p), caller@) is Err {
                spec_entry(old(p), caller@)
            } else {
                spec_require_admin(old(p).admin, *caller)
            }),
            r is Err ==> *final(p) == *old(p),
            r is Ok ==> {
                let ev = ProtocolEvent::RiskParamsUpdated(close_factor, liquidation_incentive);
                &&& old(p).events.appended(final(p).events, capture_view(ev, old(p).now))
                &&& final(p).outbox@ == old(p).outbox@.push(Notice::Event(ev))
                &&& *final(p) == (Protocol {
                    risk_config: RiskConfig {
                        close_factor,
                        liquidation_incentive,
                        last_update: old(p).now,
                        ..old(p).risk_config
                    },
                    events: final(p).events,
                    outbox: final(p).outbox,
                    ..*old(p)
                })
            },
    {
        ReentrancyGuard::enter(p)?;
        let result = Self::set_risk_params_inner(p, caller, close_factor, liquidation_incentive);
        ReentrancyGuard::exit(p);
        result
    }

    fn set_risk_params_inner(p: &mut Protocol, caller: &String, close_factor: i128, liquidation_incentive: i128) -> (r:
        Result<(), ProtocolError>)
        requires
            old(p).wf(),
        ensures
            final(p).wf(),
            r == (if !spec_valid_address(caller@) {
                Err(ProtocolError::InvalidAddress)
            } else {
                spec_require_admin(old(p).admin, *caller)
            }),
            r is Err ==> *final(p) == *old(p),
            r is Ok ==> {
                let ev = ProtocolEvent::RiskParamsUpdated(close_factor, liquidation_incentive);
                &&& old(p).events.appended(final(p).events, capture_view(ev, old(p).now))
                &&& final(p).outbox@ == old(p).outbox@.push(Notice::Event(ev))
                &&& *final(p) == (Protocol {
                    risk_config: RiskConfig {
                        close_factor,
                        liquidation_incentive,
                        last_update: old(p).now,
                        ..old(p).risk_config
                    },
                    events: final(p).events,
                    outbox: final(p).outbox,
                    ..*old(p)
                })
            },
    {
        let caller_addr = AddressHelper::require_valid_address(caller)?;
        ProtocolConfig::require_admin(p, &caller_addr)?;
        let mut config = RiskConfigStorage::get(p);
        config.close_factor = close_factor;
        config.liquidation_incentive = liquidation_incentive;
        config.last_update = p.now;
        RiskConfigStorage::save(p, config);
        let now = p.now;
        ProtocolEvent::RiskParamsUpdated(close_factor, liquidation_incentive).emit(&mut p.events, &mut p.outbox, now);
        Ok(())
    }

    /// Sets the pause switches (admin only); emits `PauseSwitchesUpdated`.
    pub fn set_pause_switches(
        p: &mut Protocol,
        caller: &String,
        pause_borrow: bool,
        pause_deposit: bool,
        pause_withdraw: bool,
        pause_liquidate: bool,
    ) -> (r: Result<(), ProtocolError>)
        requires
            old(p).wf(),
        ensures
            final(p).wf(),
            r == (if spec_entry(old(p), caller@) is Err {
                spec_entry(old(p), caller@)
            } else {
                spec_require_admin(old(p).admin, *caller)
            }),
            r is Err ==> *final(p) == *old(p),
            r is Ok ==> {
                let ev = ProtocolEvent::PauseSwitchesUpdated(pause_borrow, pause_deposit, pause_withdraw, pause_liquidate);
                &&& old(p).events.appended(final(p).events, capture_view(ev, old(p).now))
                &&& final(p).outbox@ == old(p).outbox@.push(Notice::Event(ev))
                &&& *final(p) == (Protocol {
                    risk_config: RiskConfig {
                        pause_borrow,
                        pause_deposit,
                        pause_withdraw,
                        pause_liquidate,
                        last_update: old(p).now,
                        ..old(p).risk_config
                    },
                    events: final(p).events,
                    outbox: final(p).outbox,
                    ..*old(p)
                })
            },
    {
        ReentrancyGuard::enter(p)?;
        let result = Self::set_pause_switches_inner(p, caller, pause_borrow, pause_deposit, pause_withdraw, pause_liquidate);
        ReentrancyGuard::exit(p);
        result
    }

    fn set_pause_switches_inner(
        p: &mut Protocol,
        caller: &String,
        pause_borrow: bool,
        pause_deposit: bool,
        pause_withdraw: bool,
        pause_liquidate: bool,
    ) -> (r: Result<(), ProtocolError>)
        requires
            old(p).wf(),
        ensures
            final(p).wf(),
            r == (if !spec_valid_address(caller@) {
                Err(ProtocolError::InvalidAddress)
            } else {
                spec_require_admin(old(p).admin, *caller)
            }),
            r is Err ==> *final(p) == *old(p),
            r is Ok ==> {
                let ev = ProtocolEvent::PauseSwitchesUpdated(pause_borrow, pause_deposit, pause_withdraw, pause_liquidate);
                &&& old(p).events.appended(final(p).events, capture_view(ev, old(p).now))
                &&& final(p).outbox@ == old(p).outbox@.push(Notice::Event(ev))
                &&& *final(p) == (Protocol {
                    risk_config: RiskConfig {
                        pause_borrow,
                        pause_deposit,
                        pause_withdraw,
                        pause_liquidate,
                        last_update: old(p).now,
                        ..old(p).risk_config
                    },
                    events: final(p).events,
                    outbox: final(p).outbox,
                    ..*old(p)
                })
            },
    {
        let caller_addr = AddressHelper::require_valid_address(caller)?;
        ProtocolConfig::require_admin(p, &caller_addr)?;
        let mut config = RiskConfigStorage::get(p);
        config.pause_borrow = pause_borrow;
        config.pause_deposit = pause_deposit;
        config.pause_withdraw = pause_withdraw;
        config.pause_liquidate = pause_liquidate;
        config.last_update = p.now;
        RiskConfigStorage::save(p, config);
        let now = p.now;
        ProtocolEvent::PauseSwitchesUpdated(pause_borrow, pause_deposit, pause_withdraw, pause_liquidate).emit(
            &mut p.events,
            &mut p.outbox,
            now,
        );
        Ok(())
    }

    /// Base rate, kink utilization, multiplier, reserve factor, close
    /// factor and liquidation incentive.
    pub fn get_protocol_params(p: &Protocol) -> (r: Result<(i128, i128, i128, i128, i128, i128), ProtocolError>)
        ensures
            r == Ok::<(i128, i128, i128, i128, i128, i128), ProtocolError>(
                (
                    p.interest_config.base_rate,
                    p.interest_config.kink_utilization,
                    p.interest_config.multiplier,
                    p.interest_config.reserve_factor,
                    p.risk_config.close_factor,
                    p.risk_config.liquidation_incentive,
                ),
            ),
    {
        let config = InterestRateStorage::get_config(p);
        let risk_config = RiskConfigStorage::get(p);
        Ok(
            (
                config.base_rate,
                config.kink_utilization,
                config.multiplier,
                config.reserve_factor,
                risk_config.close_factor,
                risk_config.liquidation_incentive,
            ),
        )
    }

    /// Close factor, liquidation incentive and the four pause switches.
    pub fn get_risk_config(p: &Protocol) -> (r: Result<(i128, i128, bool, bool, bool, bool), ProtocolError>)
        ensures
            r == Ok::<(i128, i128, bool, bool, bool, bool), ProtocolError>(
                (
                    p.risk_config.close_factor,
                    p.risk_config.liquidation_incentive,
                    p.risk_config.pause_borrow,
                    p.risk_config.pause_deposit,
                    p.risk_config.pause_withdraw,
                    p.risk_config.pause_liquidate,
                ),
            ),
    {
        let config = RiskConfigStorage::get(p);
        Ok(
            (
                config.close_factor,
                config.liquidation_incentive,
                config.pause_borrow,
                config.pause_deposit,
                config.pause_withdraw,
                config.pause_liquidate,
            ),
        )
    }

    /// Total supplied, total borrowed, utilization and (not tracked) active users.
    pub fn get_system_stats(p: &Protocol) -> (r: Result<(i128, i128, i128, i128), ProtocolError>)
        ensures
            r == Ok::<(i128, i128, i128, i128), ProtocolError>(
                (
                    p.interest_state.total_supplied,
                    p.interest_state.total_borrowed,
                    p.interest_state.utilization_rate,
                    0,
                ),
            ),
    {
        let state = InterestRateStorage::get_state(p);
        Ok((state.total_supplied, state.total_borrowed, state.utilization_rate, 0))
    }

    /// Enables or disables an emergency manager (admin only).
    pub fn set_emergency_manager(p: &mut Protocol, caller: &String, manager: &String, enabled: bool) -> (r: Result<(), ProtocolError>)
        requires
            old(p).wf(),
        ensures
            final(p).wf(),
            spec_entry(old(p), caller@) is Err ==> r == spec_entry(old(p), caller@) && *final(p) == *old(p),
            spec_entry(old(p), caller@) is Ok && !spec_valid_address(manager@) ==> r == Err::<(), ProtocolError>(
                ProtocolError::InvalidAddress,
            ) && *final(p) == *old(p),
            spec_entry(old(p), caller@) is Ok && spec_valid_address(manager@) ==> ({
                &&& (r == spec_require_admin(old(p).admin, *caller))
                &&& (r is Err ==> *final(p) == *old(p))
                &&& (r is Ok ==> {
                                &&& texts_of(final(p).emergency.emergency_managers@) == spec_managers_after(
                                    texts_of(old(p).emergency.emergency_managers@),
                                    manager@,
                                    enabled,
                                )
                                &&& emitted(old(p), final(p), ProtocolEvent::EmergencyManagerUpdated(*manager, enabled))
                                &&& *final(p) == (Protocol {
                                    emergency: EmergencyState {
                                        emergency_managers: final(p).emergency.emergency_managers,
                                        ..old(p).emergency
                                    },
                                    events: final(p).events,
                                    outbox: final(p).outbox,
                                    ..*old(p)
                                })
                            })
            }),
    {
        ReentrancyGuard::enter(p)?;
        let result = match AddressHelper::require_valid_address(caller) {
            Ok(a) => match AddressHelper::require_valid_address(manager) {
                Ok(m) => EmergencyManager::set_manager(p, &a, &m, enabled),
                Err(e) => Err(e),
            },
            Err(e) => Err(e),
        };
        ReentrancyGuard::exit(p);
        result
    }

    /// Pauses the protocol (admin or emergency manager).
    pub fn trigger_emergency_pause(p: &mut Protocol, caller: &String, reason: Option<String>) -> (r: Result<(), ProtocolError>)
        requires
            old(p).wf(),
        ensures
            final(p).wf(),
            spec_entry(old(p), caller@) is Err ==> r == spec_entry(old(p), caller@) && *final(p) == *old(p),
            spec_entry(old(p), caller@) is Ok ==> ({
                &&& (r == (if EmergencyManager::spec_authorized(old(p).admin, old(p).emergency.emergency_managers@, *caller) {
                                Ok::<(), ProtocolError>(())
                            } else {
                                Err(ProtocolError::Unauthorized)
                            }))
                &&& (r is Err ==> *final(p) == *old(p))
                &&& (r is Ok ==> {
                                let ev = final(p).outbox@.last()->Event_0;
                                &&& ev matches ProtocolEvent::EmergencyStatusChanged(st, why) && st@ == "paused"@ && why == reason
                                &&& emitted(old(p), final(p), ev)
                                &&& *final(p) == (Protocol {
                                    emergency: EmergencyState {
                                        status: EmergencyStatus::Paused,
                                        paused_by: Some(*caller),
                                        paused_at: old(p).now,
                                        reason,
                                        ..old(p).emergency
                                    },
                                    events: final(p).events,
                                    outbox: final(p).outbox,
                                    ..*old(p)
                                })
                            })
            }),
    {
        ReentrancyGuard::enter(p)?;
        let result = match AddressHelper::require_valid_address(caller) {
            Ok(a) => EmergencyManager::pause(p, &a, reason),
            Err(e) => Err(e),
        };
        ReentrancyGuard::exit(p);
        result
    }

    /// Enters recovery mode (admin or emergency manager).
    pub fn enter_recovery_mode(p: &mut Protocol, caller: &String, plan: Option<String>) -> (r: Result<(), ProtocolError>)
        requires
            old(p).wf(),
        ensures
            final(p).wf(),
            spec_entry(old(p), caller@) is Err ==> r == spec_entry(old(p), caller@) && *final(p) == *old(p),
            spec_entry(old(p), caller@) is Ok ==> ({
                &&& (r == (if EmergencyManager::spec_authorized(old(p).admin, old(p).emergency.emergency_managers@, *caller) {
                                Ok::<(), ProtocolError>(())
                            } else {
                                Err(ProtocolError::Unauthorized)
                            }))
                &&& (r is Err ==> *final(p) == *old(p))
                &&& (r is Ok ==> {
                                let ev = final(p).outbox@.last()->Event_0;
                                &&& ev matches ProtocolEvent::EmergencyStatusChanged(st, why) && st@ == "recovery"@ && why == plan
                                &&& emitted(old(p), final(p), ev)
                                &&& *final(p) == (Protocol {
                                    emergency: EmergencyState {
                                        status: EmergencyStatus::Recovery,
                                        recovery_plan: plan,
                                        last_recovery_update: old(p).now,
                                        ..old(p).emergency
                                    },
                                    events: final(p).events,
                                    outbox: final(p).outbox,
                                    ..*old(p)
                                })
                            })
            }),
    {
        ReentrancyGuard::enter(p)?;
        let result = match AddressHelper::require_valid_address(caller) {
            Ok(a) => EmergencyManager::enter_recovery(p, &a, plan),
            Err(e) => Err(e),
        };
        ReentrancyGuard::exit(p);
        result
    }

    /// Resumes normal operation (admin or emergency manager).
    pub fn resume_operations(p: &mut Protocol, caller: &String) -> (r: Result<(), ProtocolError>)
        requires
            old(p).wf(),
        ensures
            final(p).wf(),
            spec_entry(old(p), caller@) is Err ==> r == spec_entry(old(p), caller@) && *final(p) == *old(p),
            spec_entry(old(p), caller@) is Ok ==> ({
                &&& (r == (if EmergencyManager::spec_authorized(old(p).admin, old(p).emergency.emergency_managers@, *caller) {
                                Ok::<(), ProtocolError>(())
                            } else {
                                Err(ProtocolError::Unauthorized)
                            }))
                &&& (r is Err ==> *final(p) == *old(p))
                &&& (r is Ok ==> {
                                let ev = final(p).outbox@.last()->Event_0;
                                &&& ev matches ProtocolEvent::EmergencyStatusChanged(st, why) && st@ == "operational"@ && why is None
                                &&& emitted(old(p), final(p), ev)
                                &&& *final(p) == (Protocol {
                                    emergency: EmergencyState {
                                        status: EmergencyStatus::Operational,
                                        reason: None,
                                        recovery_plan: None,
                                        last_recovery_update: old(p).now,
                                        ..old(p).emergency
                                    },
                                    events: final(p).events,
                                    outbox: final(p).outbox,
                                    ..*old(p)
                                })
                            })
            }),
    {
        ReentrancyGuard::enter(p)?;
        let result = match AddressHelper::require_valid_address(caller) {
            Ok(a) => EmergencyManager::resume(p, &a),
            Err(e) => Err(e),
        };
        ReentrancyGuard::exit(p);
        result
    }

    /// Records a recovery step (admin or emergency manager).
    pub fn record_recovery_step(p: &mut Protocol, caller: &String, step: String) -> (r: Result<(), ProtocolError>)
        requires
            old(p).wf(),
        ensures
            final(p).wf(),
            spec_entry(old(p), caller@) is Err ==> r == spec_entry(old(p), caller@) && *final(p) == *old(p),
            spec_entry(old(p), caller@) is Ok ==> ({
                &&& (r == (if EmergencyManager::spec_authorized(old(p).admin, old(p).emergency.emergency_managers@, *caller) {
                                Ok::<(), ProtocolError>(())
                            } else {
                                Err(ProtocolError::Unauthorized)
                            }))
                &&& (r is Err ==> *final(p) == *old(p))
                &&& (r is Ok ==> {
                                &&& final(p).emergency.recovery_steps@ == old(p).emergency.recovery_steps@.push(step)
                                &&& emitted(old(p), final(p), ProtocolEvent::EmergencyRecoveryStep(step))
                                &&& *final(p) == (Protocol {
                                    emergency: EmergencyState {
                                        recovery_steps: final(p).emergency.recovery_steps,
                                        last_recovery_update: old(p).now,
                                        ..old(p).emergency
                                    },
                                    events: final(p).events,
                                    outbox: final(p).outbox,
                                    ..*old(p)
                                })
                            })
            }),
    {
        ReentrancyGuard::enter(p)?;
        let result = match AddressHelper::require_valid_address(caller) {
            Ok(a) => EmergencyManager::record_recovery_step(p, &a, step),
            Err(e) => Err(e),
        };
        ReentrancyGuard::exit(p);
        result
    }

    /// Queues a parameter update (admin or emergency manager).
    pub fn queue_emergency_param_update(p: &mut Protocol, caller: &String, parameter: String, value: i128) -> (r: Result<(), ProtocolError>)
        requires
            old(p).wf(),
        ensures
            final(p).wf(),
            spec_entry(old(p), caller@) is Err ==> r == spec_entry(old(p), caller@) && *final(p) == *old(p),
            spec_entry(old(p), caller@) is Ok ==> ({
                &&& (r == (if EmergencyManager::spec_authorized(old(p).admin, old(p).emergency.emergency_managers@, *caller) {
                                Ok::<(), ProtocolError>(())
                            } else {
                                Err(ProtocolError::Unauthorized)
                            }))
                &&& (r is Err ==> *final(p) == *old(p))
                &&& (r is Ok ==> {
                                &&& final(p).emergency.pending_param_updates@ == old(p).emergency.pending_param_updates@.push(
                                    EmergencyParamUpdate { key: parameter, value, queued_by: *caller, queued_at: old(p).now },
                                )
                                &&& emitted(old(p), final(p), ProtocolEvent::EmergencyParamUpdateQueued(parameter, value))
                                &&& *final(p) == (Protocol {
                                    emergency: EmergencyState {
                                        pending_param_updates: final(p).emergency.pending_param_updates,
                                        ..old(p).emergency
                                    },
                                    events: final(p).events,
                                    outbox: final(p).outbox,
                                    ..*old(p)
                                })
                            })
            }),
    {
        ReentrancyGuard::enter(p)?;
        let result = match AddressHelper::require_valid_address(caller) {
            Ok(a) => EmergencyManager::queue_param_update(p, &a, parameter, value),
            Err(e) => Err(e),
        };
        ReentrancyGuard::exit(p);
        result
    }

    /// Applies the queued parameter updates (admin or emergency manager).
    pub fn apply_emergency_param_updates(p: &mut Protocol, caller: &String) -> (r: Result<(), ProtocolError>)
        requires
            old(p).wf(),
        ensures
            final(p).wf(),
            spec_entry(old(p), caller@) is Err ==> r == spec_entry(old(p), caller@) && *final(p) == *old(p),
            spec_entry(old(p), caller@) is Ok ==> ({
                &&& (!EmergencyManager::spec_authorized(old(p).admin, old(p).emergency.emergency_managers@, *caller) ==> r
                                == Err::<(), ProtocolError>(ProtocolError::Unauthorized) && *final(p) == *old(p))
                &&& (EmergencyManager::spec_authorized(old(p).admin, old(p).emergency.emergency_managers@, *caller) ==> {
                                let us = old(p).emergency.pending_param_updates@;
                                let res = spec_apply_from(settings_of(old(p)), old(p).admin, us, 0);
                                &&& r == res.2
                                &&& r is Err ==> *final(p) == *old(p)
                                &&& r is Ok ==> {
                                    &&& settings_of(final(p)) == res.0
                                    &&& old(p).events.appended_all(final(p).events, applied_records(us, us.len() as int, old(p).now))
                                    &&& final(p).outbox@ == old(p).outbox@ + applied_notices(us, us.len() as int)
                                    &&& final(p).emergency.pending_param_updates@ == Seq::<EmergencyParamUpdate>::empty()
                                    &&& *final(p) == (Protocol {
                                        min_collateral_ratio: final(p).min_collateral_ratio,
                                        interest_config: final(p).interest_config,
                                        flash_loan_fee_bps: final(p).flash_loan_fee_bps,
                                        emergency: EmergencyState {
                                            pending_param_updates: final(p).emergency.pending_param_updates,
                                            ..old(p).emergency
                                        },
                                        events: final(p).events,
                                        outbox: final(p).outbox,
                                        ..*old(p)
                                    })
                                }
                            })
            }),
    {
        ReentrancyGuard::enter(p)?;
        let result = match AddressHelper::require_valid_address(caller) {
            Ok(a) => EmergencyManager::apply_param_updates(p, &a),
            Err(e) => Err(e),
        };
        ReentrancyGuard::exit(p);
        result
    }

    /// Adjusts the emergency fund (admin or emergency manager).
    pub fn adjust_emergency_fund(p: &mut Protocol, caller: &String, token: Option<String>, delta: i128, reserve_delta: i128) -> (r: Result<(), ProtocolError>)
        requires
            old(p).wf(),
            spec_entry(old(p), caller@) is Ok && EmergencyManager::spec_authorized(
                old(p).admin,
                old(p).emergency.emergency_managers@,
                *caller,
            ) ==> i128::MIN <= old(p).emergency.fund.balance + delta <= i128::MAX,
            spec_entry(old(p), caller@) is Ok && EmergencyManager::spec_authorized(
                old(p).admin,
                old(p).emergency.emergency_managers@,
                *caller,
            ) && old(p).emergency.fund.balance + delta >= 0 ==> i128::MIN <= old(p).emergency.fund.reserved
                + reserve_delta <= i128::MAX,
        ensures
            final(p).wf(),
            spec_entry(old(p), caller@) is Err ==> r == spec_entry(old(p), caller@) && *final(p) == *old(p),
            spec_entry(old(p), caller@) is Ok ==> ({
                &&& (!EmergencyManager::spec_authorized(old(p).admin, old(p).emergency.emergency_managers@, *caller) ==> r
                                == Err::<(), ProtocolError>(ProtocolError::Unauthorized))
                &&& (EmergencyManager::spec_authorized(old(p).admin, old(p).emergency.emergency_managers@, *caller) ==> match EmergencyManager::spec_adjusted_fund(
                                old(p).emergency.fund,
                                token,
                                delta,
                                reserve_delta,
                                old(p).now,
                            ) {
                                Err(e) => r == Err::<(), ProtocolError>(e),
                                Ok(f) => r is Ok && emitted(old(p), final(p), ProtocolEvent::EmergencyFundUpdated(*caller, delta, reserve_delta))
                                    && *final(p) == (Protocol {
                                    emergency: EmergencyState { fund: f, ..old(p).emergency },
                                    events: final(p).events,
                                    outbox: final(p).outbox,
                                    ..*old(p)
                                }),
                            })
                &&& (r is Err ==> *final(p) == *old(p))
            }),
    {
        ReentrancyGuard::enter(p)?;
        let result = match AddressHelper::require_valid_address(caller) {
            Ok(a) => EmergencyManager::adjust_fund(p, &a, token, delta, reserve_delta),
            Err(e) => Err(e),
        };
        ReentrancyGuard::exit(p);
        result
    }

    /// Sets a user's role.
    pub fn set_user_role(p: &mut Protocol, caller: &String, user: &String, role: UserRole) -> (r: Result<(), ProtocolError>)
        requires
            old(p).wf(),
        ensures
            final(p).wf(),
            spec_entry(old(p), caller@) is Err ==> r == spec_entry(old(p), caller@) && *final(p) == *old(p),
            spec_entry(old(p), caller@) is Ok ==> ({
                &&& (r == (if role == UserRole::Admin {
                                spec_require_admin(old(p).admin, *caller)
                            } else {
                                spec_can_manage(map_of(old(p).users@), old(p).admin, *caller, UserRole::Manager, old(p).now)
                            }))
                &&& (({
                                let checked = if role == UserRole::Admin {
                                    map_of(old(p).users@)
                                } else {
                                    after_manage_check(map_of(old(p).users@), old(p).admin, *caller, old(p).now)
                                };
                                match r {
                                    Ok(_) => map_of(final(p).users@) == checked.insert(
                                        user@,
                                        UserManager::spec_with_role(profile_in(checked, *user, old(p).now), role),
                                    ) && final(p).outbox@ == old(p).outbox@.push(
                                        Notice::UserRoleUpdated(final(p).outbox@.last()->UserRoleUpdated_0, role),
                                    ) && final(p).outbox@.last()->UserRoleUpdated_0@ == user@,
                                    Err(_) => final(p).users@ == old(p).users@ && final(p).outbox@ == old(p).outbox@,
                                }
                            }))
                &&& (*final(p) == (Protocol { users: final(p).users, outbox: final(p).outbox, ..*old(p) }))
            }),
    {
        ReentrancyGuard::enter(p)?;
        let result = match AddressHelper::require_valid_address(caller) {
            Ok(a) => {
                let now = p.now;
                let admin = ProtocolConfig::get_admin(p);
                UserManager::set_role(&mut p.users, &mut p.outbox, &admin, now, &a, user, role)
            },
            Err(e) => Err(e),
        };
        ReentrancyGuard::exit(p);
        result
    }

    /// Sets a user's verification status.
    pub fn set_user_verification(p: &mut Protocol, caller: &String, user: &String, status: VerificationStatus) -> (r: Result<(), ProtocolError>)
        requires
            old(p).wf(),
        ensures
            final(p).wf(),
            spec_entry(old(p), caller@) is Err ==> r == spec_entry(old(p), caller@) && *final(p) == *old(p),
            spec_entry(old(p), caller@) is Ok ==> ({
                &&& (r == spec_can_manage(map_of(old(p).users@), old(p).admin, *caller, UserRole::Analyst, old(p).now))
                &&& (({
                                let checked = after_manage_check(map_of(old(p).users@), old(p).admin, *caller, old(p).now);
                                match r {
                                    Ok(_) => map_of(final(p).users@) == checked.insert(
                                        user@,
                                        UserManager::spec_with_status(profile_in(checked, *user, old(p).now), status),
                                    ) && final(p).outbox@ == old(p).outbox@.push(
                                        Notice::UserVerificationUpdated(final(p).outbox@.last()->UserVerificationUpdated_0, status),
                                    ) && final(p).outbox@.last()->UserVerificationUpdated_0@ == user@,
                                    Err(_) => final(p).users@ == old(p).users@ && final(p).outbox@ == old(p).outbox@,
                                }
                            }))
                &&& (*final(p) == (Protocol { users: final(p).users, outbox: final(p).outbox, ..*old(p) }))
            }),
    {
        ReentrancyGuard::enter(p)?;
        let result = match AddressHelper::require_valid_address(caller) {
            Ok(a) => {
                let now = p.now;
                let admin = ProtocolConfig::get_admin(p);
                UserManager::set_verification_status(&mut p.users, &mut p.outbox, &admin, now, &a, user, status)
            },
            Err(e) => Err(e),
        };
        ReentrancyGuard::exit(p);
        result
    }

    /// Sets a user's operation limits.
    pub fn set_user_limits(p: &mut Protocol, caller: &String, user: &String, max_deposit: i128, max_borrow: i128, max_withdraw: i128, daily_limit: i128) -> (r: Result<(), ProtocolError>)
        requires
            old(p).wf(),
        ensures
            final(p).wf(),
            spec_entry(old(p), caller@) is Err ==> r == spec_entry(old(p), caller@) && *final(p) == *old(p),
            spec_entry(old(p), caller@) is Ok ==> ({
                &&& (r == (match spec_can_manage(map_of(old(p).users@), old(p).admin, *caller, UserRole::Manager, old(p).now) {
                                Err(e) => Err(e),
                                Ok(_) => if max_deposit <= 0 || max_borrow <= 0 || max_withdraw <= 0 || daily_limit <= 0 {
                                    Err(ProtocolError::InvalidParameters)
                                } else {
                                    Ok(())
                                },
                            }))
                &&& (({
                                let checked = after_manage_check(map_of(old(p).users@), old(p).admin, *caller, old(p).now);
                                let prof = profile_in(checked, *user, old(p).now);
                                match r {
                                    Ok(_) => map_of(final(p).users@) == checked.insert(
                                        user@,
                                        UserProfile {
                                            limits: UserLimits { max_deposit, max_borrow, max_withdraw, daily_limit, ..prof.limits },
                                            ..prof
                                        },
                                    ) && final(p).outbox@ == old(p).outbox@.push(
                                        Notice::UserLimitsUpdated(
                                            final(p).outbox@.last()->UserLimitsUpdated_0,
                                            max_deposit,
                                            max_borrow,
                                            max_withdraw,
                                            daily_limit,
                                        ),
                                    ) && final(p).outbox@.last()->UserLimitsUpdated_0@ == user@,
                                    Err(_) => final(p).users@ == old(p).users@ && final(p).outbox@ == old(p).outbox@,
                                }
                            }))
                &&& (*final(p) == (Protocol { users: final(p).users, outbox: final(p).outbox, ..*old(p) }))
            }),
    {
        ReentrancyGuard::enter(p)?;
        let result = match AddressHelper::require_valid_address(caller) {
            Ok(a) => {
                let now = p.now;
                let admin = ProtocolConfig::get_admin(p);
                UserManager::set_limits(&mut p.users, &mut p.outbox, &admin, now, &a, user, max_deposit, max_borrow, max_withdraw, daily_limit)
            },
            Err(e) => Err(e),
        };
        ReentrancyGuard::exit(p);
        result
    }

    /// Freezes a user.
    pub fn freeze_user(p: &mut Protocol, caller: &String, user: &String) -> (r: Result<(), ProtocolError>)
        requires
            old(p).wf(),
        ensures
            final(p).wf(),
            spec_entry(old(p), caller@) is Err ==> r == spec_entry(old(p), caller@) && *final(p) == *old(p),
            spec_entry(old(p), caller@) is Ok ==> ({
                &&& (r == spec_can_manage(map_of(old(p).users@), old(p).admin, *caller, UserRole::Manager, old(p).now))
                &&& (({
                                let checked = after_manage_check(map_of(old(p).users@), old(p).admin, *caller, old(p).now);
                                match r {
                                    Ok(_) => map_of(final(p).users@) == checked.insert(
                                        user@,
                                        UserProfile { is_frozen: true, ..profile_in(checked, *user, old(p).now) },
                                    ) && final(p).outbox@ == old(p).outbox@.push(
                                        Notice::UserRoleUpdated(final(p).outbox@.last()->UserRoleUpdated_0, UserRole::Suspended),
                                    ) && final(p).outbox@.last()->UserRoleUpdated_0@ == user@,
                                    Err(_) => final(p).users@ == old(p).users@ && final(p).outbox@ == old(p).outbox@,
                                }
                            }))
                &&& (*final(p) == (Protocol { users: final(p).users, outbox: final(p).outbox, ..*old(p) }))
            }),
    {
        ReentrancyGuard::enter(p)?;
        let result = match AddressHelper::require_valid_address(caller) {
            Ok(a) => {
                let now = p.now;
                let admin = ProtocolConfig::get_admin(p);
                UserManager::freeze_user(&mut p.users, &mut p.outbox, &admin, now, &a, user)
            },
            Err(e) => Err(e),
        };
        ReentrancyGuard::exit(p);
        result
    }

    /// Unfreezes a user.
    pub fn unfreeze_user(p: &mut Protocol, caller: &String, user: &String) -> (r: Result<(), ProtocolError>)
        requires
            old(p).wf(),
        ensures
            final(p).wf(),
            spec_entry(old(p), caller@) is Err ==> r == spec_entry(old(p), caller@) && *final(p) == *old(p),
            spec_entry(old(p), caller@) is Ok ==> ({
                &&& (r == spec_can_manage(map_of(old(p).users@), old(p).admin, *caller, UserRole::Manager, old(p).now))
                &&& (({
                                let checked = after_manage_check(map_of(old(p).users@), old(p).admin, *caller, old(p).now);
                                let prof = profile_in(checked, *user, old(p).now);
                                let role = if prof.role == UserRole::Suspended {
                                    UserRole::Standard
                                } else {
                                    prof.role
                                };
                                match r {
                                    Ok(_) => map_of(final(p).users@) == checked.insert(
                                        user@,
                                        UserProfile { is_frozen: false, role, ..prof },
                                    ) && final(p).outbox@ == old(p).outbox@.push(
                                        Notice::UserRoleUpdated(final(p).outbox@.last()->UserRoleUpdated_0, role),
                                    ) && final(p).outbox@.last()->UserRoleUpdated_0@ == user@,
                                    Err(_) => final(p).users@ == old(p).users@ && final(p).outbox@ == old(p).outbox@,
                                }
                            }))
                &&& (*final(p) == (Protocol { users: final(p).users, outbox: final(p).outbox, ..*old(p) }))
            }),
    {
        ReentrancyGuard::enter(p)?;
        let result = match AddressHelper::require_valid_address(caller) {
            Ok(a) => {
                let now = p.now;
                let admin = ProtocolConfig::get_admin(p);
                UserManager::unfreeze_user(&mut p.users, &mut p.outbox, &admin, now, &a, user)
            },
            Err(e) => Err(e),
        };
        ReentrancyGuard::exit(p);
        result
    }

    /// Registers a token under a key (admin only).
    pub fn register_token_asset(p: &mut Protocol, caller: &String, key: String, token: String) -> (r: Result<(), ProtocolError>)
        requires
            old(p).wf(),
        ensures
            final(p).wf(),
            spec_entry(old(p), caller@) is Err ==> r == spec_entry(old(p), caller@) && *final(p) == *old(p),
            spec_entry(old(p), caller@) is Ok ==> ({
                &&& (r == spec_require_admin(old(p).admin, *caller))
                &&& (r is Ok ==> map_of(final(p).tokens@) == map_of(old(p).tokens@).insert(key@, TokenEntry { key, token })
                                && *final(p) == (Protocol { tokens: final(p).tokens, ..*old(p) }))
                &&& (r is Err ==> *final(p) == *old(p))
            }),
    {
        ReentrancyGuard::enter(p)?;
        let result = match AddressHelper::require_valid_address(caller) {
            Ok(a) => TokenRegistry::set_asset(p, &a, key, token),
            Err(e) => Err(e),
        };
        ReentrancyGuard::exit(p);
        result
    }

    /// Registers the primary asset (admin only).
    pub fn set_primary_asset(p: &mut Protocol, caller: &String, token: String) -> (r: Result<(), ProtocolError>)
        requires
            old(p).wf(),
        ensures
            final(p).wf(),
            spec_entry(old(p), caller@) is Err ==> r == spec_entry(old(p), caller@) && *final(p) == *old(p),
            spec_entry(old(p), caller@) is Ok ==> ({
                &&& (r == spec_require_admin(old(p).admin, *caller))
                &&& (r is Ok ==> TokenRegistry::spec_asset(final(p), "primary_asset"@) == Some(token@)
                                && map_of(final(p).tokens@).remove("primary_asset"@) == map_of(old(p).tokens@).remove("primary_asset"@))
                &&& (r is Ok ==> *final(p) == (Protocol { tokens: final(p).tokens, ..*old(p) }))
                &&& (r is Err ==> *final(p) == *old(p))
            }),
    {
        ReentrancyGuard::enter(p)?;
        let result = match AddressHelper::require_valid_address(caller) {
            Ok(a) => TokenRegistry::set_primary_asset(p, &a, token),
            Err(e) => Err(e),
        };
        ReentrancyGuard::exit(p);
        result
    }

    /// A copy of the emergency state.
    pub fn get_emergency_state(p: &Protocol) -> (r: Result<EmergencyState, ProtocolError>)
        ensures
            r is Ok,
            ({
                let s = r->Ok_0;
                &&& s.status == p.emergency.status
                &&& s.paused_by == p.emergency.paused_by
                &&& s.paused_at == p.emergency.paused_at
                &&& s.reason == p.emergency.reason
                &&& s.recovery_plan == p.emergency.recovery_plan
                &&& s.recovery_steps@ == p.emergency.recovery_steps@
                &&& s.last_recovery_update == p.emergency.last_recovery_update
                &&& s.emergency_managers@ == p.emergency.emergency_managers@
                &&& s.pending_param_updates@ == p.emergency.pending_param_updates@
                &&& s.fund == p.emergency.fund
            }),
    {
        Ok(p.emergency.clone_state())
    }

    /// The per-type totals and the recently seen event types.
    pub fn get_event_summary(p: &Protocol) -> (r: Result<EventSummary, ProtocolError>)
        ensures
            r is Ok,
            agg_views(r->Ok_0.totals@) == agg_views(p.events.aggregates@),
            texts(r->Ok_0.recent_types@) == p.events.recent_view(),
    {
        Ok(EventStorage::get_summary(&p.events))
    }

    /// The per-type aggregates.
    pub fn get_event_aggregates(p: &Protocol) -> (r: Result<Vec<EventAggregate>, ProtocolError>)
        ensures
            r is Ok,
            agg_views(r->Ok_0@) == agg_views(p.events.aggregates@),
    {
        Ok(EventStorage::get_aggregates(&p.events))
    }

    /// The records of `event_type`, oldest first: the latest `limit` of them
    /// when `limit` is positive and smaller than their number.
    pub fn get_events_for_type(p: &Protocol, event_type: &String, limit: u32) -> (r: Result<
        Vec<EventRecord>,
        ProtocolError,
    >)
        requires
            p.wf(),
        ensures
            r is Ok,
            ({
                let log = p.events.log_of(event_type@);
                records_view(r->Ok_0@) == (if limit > 0 && log.len() > limit {
                    log.subrange(log.len() - limit, log.len() as int)
                } else {
                    log
                })
            }),
    {
        let events = EventStorage::get_logs(&p.events, event_type);
        let len = events.len();
        if limit > 0 && len > limit as usize {
            let start = len - limit as usize;
            let mut out: Vec<EventRecord> = Vec::new();
            let mut i: usize = start;
            while i < len
                invariant
                    start <= i <= len,
                    len == events@.len(),
                    records_view(out@) == records_view(events@).subrange(start as int, i as int),
                decreases len - i,
            {
                let ghost before = out@;
                out.push(events[i].clone_record());
                proof {
                    assert(records_view(out@) =~= records_view(before).push(events@[i as int]@));
                    assert(records_view(events@).subrange(start as int, i + 1) =~= records_view(events@).subrange(
                        start as int,
                        i as int,
                    ).push(events@[i as int]@));
                }
                i = i + 1;
            }
            return Ok(out);
        }
        Ok(events)
    }

    /// The recently seen event types.
    pub fn get_recent_event_types(p: &Protocol) -> (r: Result<Vec<String>, ProtocolError>)
        ensures
            r is Ok,
            texts(r->Ok_0@) == p.events.recent_view(),
    {
        Ok(EventStorage::get_summary(&p.events).recent_types)
    }

    /// The token registered under `key`.
    pub fn get_registered_asset(p: &Protocol, key: &String) -> (r: Result<Option<String>, ProtocolError>)
        requires
            p.wf(),
        ensures
            r is Ok,
            opt_view(r->Ok_0) == TokenRegistry::spec_asset(p, key@),
    {
        Ok(TokenRegistry::get_asset(p, key))
    }

    /// The user's profile (a first access stores a fresh one).
    pub fn get_user_profile(p: &mut Protocol, user: &String) -> (r: Result<UserProfile, ProtocolError>)
        requires
            old(p).wf(),
        ensures
            final(p).wf(),
            r == Ok::<UserProfile, ProtocolError>(profile_in(map_of(old(p).users@), *user, old(p).now)),
            map_of(final(p).users@) == with_profile(map_of(old(p).users@), *user, old(p).now),
            *final(p) == (Protocol { users: final(p).users, ..*old(p) }),
    {
        let now = p.now;
        Ok(UserManager::get_profile(&mut p.users, now, user))
    }

    /// The protocol report at the current time.
    pub fn get_protocol_report(p: &Protocol) -> (r: Result<ProtocolReport, ProtocolError>)
        ensures
            r == Ok::<ProtocolReport, ProtocolError>(
                ProtocolReport {
                    protocol_metrics: p.analytics.protocol_metrics,
                    risk_analytics: p.analytics.risk_analytics,
                    performance_metrics: p.analytics.performance_metrics,
                    total_users: p.analytics.user_analytics@.len() as i128,
                    active_users: count_active(
                        p.analytics.user_analytics@,
                        (if p.now >= SECONDS_PER_DAY { p.now - SECONDS_PER_DAY } else { 0 }) as u64,
                    ) as i128,
                    generated_at: p.now,
                },
            ),
    {
        AnalyticsModule::get_protocol_report(&p.analytics, p.now)
    }

    /// The report of a well-formed user address.
    pub fn get_user_report(p: &Protocol, user: &String) -> (r: Result<UserReport, ProtocolError>)
        requires
            p.wf(),
        ensures
            !spec_valid_address(user@) ==> r == Err::<UserReport, ProtocolError>(ProtocolError::InvalidAddress),
            spec_valid_address(user@) ==> {
                &&& r is Ok
                &&& r->Ok_0.user == *user
                &&& r->Ok_0.analytics == analytics_of(p.analytics.user_analytics@, user@)
                &&& log_view(r->Ok_0.recent_activities@) == activities_of(log_view(p.analytics.activity_log@), user@)
                &&& r->Ok_0.generated_at == p.now
            },
    {
        let user_addr = AddressHelper::require_valid_address(user)?;
        AnalyticsModule::get_user_report(&p.analytics, p.now, &user_addr)
    }

    /// The report of an asset.
    pub fn get_asset_report(p: &Protocol, asset: &String) -> (r: Result<AssetReport, ProtocolError>)
        requires
            p.wf(),
        ensures
            r is Ok,
            r->Ok_0.asset == *asset,
            r->Ok_0.analytics == asset_analytics_of(p.analytics.asset_analytics@, *asset),
            history_view(r->Ok_0.historical_data@) == asset_history(p.analytics.historical@, asset@),
            r->Ok_0.generated_at == p.now,
    {
        AnalyticsModule::get_asset_report(&p.analytics, p.now, asset)
    }

    /// Assesses and stores the protocol's risk.
    pub fn calculate_risk_analytics(p: &mut Protocol) -> (r: Result<RiskAnalytics, ProtocolError>)
        requires
            risk_fits(&old(p).analytics),
        ensures
            r == Ok::<RiskAnalytics, ProtocolError>(spec_risk(&old(p).analytics, old(p).now)),
            *final(p) == (Protocol {
                analytics: AnalyticsState { risk_analytics: spec_risk(&old(p).analytics, old(p).now), ..old(p).analytics },
                ..*old(p)
            }),
    {
        let now = p.now;
        AnalyticsModule::calculate_risk_analytics(&mut p.analytics, now)
    }

    /// The newest activities first, at most `limit` and at most 1000.
    pub fn get_recent_activity(p: &Protocol, limit: u32) -> (r: Result<ActivityFeed, ProtocolError>)
        ensures
            r is Ok,
            ({
                let log = log_view(p.analytics.activity_log@);
                let n = crate::math::min_int(crate::math::min_int(limit as int, log.len() as int), MAX_ACTIVITY_LOG as int);
                &&& log_view(r->Ok_0.entries@) == Seq::new(n as nat, |i: int| log[log.len() - 1 - i])
                &&& r->Ok_0.total_available == p.analytics.activity_log@.len() as u32
                &&& r->Ok_0.generated_at == p.now
            }),
    {
        Ok(AnalyticsModule::get_recent_activity(&p.analytics, p.now, limit))
    }

    /// Folds a processing time and an outcome into the performance metrics.
    pub fn update_performance_metrics(p: &mut Protocol, processing_time: i128, success: bool) -> (r: Result<
        (),
        ProtocolError,
    >)
        requires
            i128::MIN <= old(p).analytics.performance_metrics.avg_processing_time + processing_time <= i128::MAX,
            old(p).analytics.performance_metrics.success_rate + 100 <= i128::MAX,
            old(p).analytics.performance_metrics.error_rate + 100 <= i128::MAX,
        ensures
            r is Ok,
            *final(p) == (Protocol {
                analytics: AnalyticsState {
                    performance_metrics: spec_performance_after(
                        old(p).analytics.performance_metrics,
                        old(p).now,
                        processing_time,
                        success,
                    ),
                    ..old(p).analytics
                },
                ..*old(p)
            }),
    {
        let now = p.now;
        AnalyticsModule::update_performance_metrics(&mut p.analytics, now, processing_time, success)
    }

    /// Records an activity of a well-formed user address.
    pub fn record_activity(p: &mut Protocol, user: &String, activity_type: &String, amount: i128, asset: Option<String>) -> (r:
        Result<(), ProtocolError>)
        requires
            old(p).wf(),
            record_fits(&old(p).analytics, user@, activity_type@, amount),
        ensures
            final(p).wf(),
            !spec_valid_address(user@) ==> r == Err::<(), ProtocolError>(ProtocolError::InvalidAddress) && *final(p)
                == *old(p),
            spec_valid_address(user@) ==> {
                &&& r is Ok
                &&& recorded(&old(p).analytics, &final(p).analytics, user@, activity_type@, amount, opt_view(asset), old(p).now)
                &&& old(p).events.appended(final(p).events, analytics_capture(user@, amount, old(p).now))
                &&& final(p).outbox@ == old(p).outbox@.push(
                    Notice::Event(ProtocolEvent::AnalyticsUpdated(*user, *activity_type, amount, old(p).now)),
                )
                &&& *final(p) == (Protocol {
                    analytics: final(p).analytics,
                    events: final(p).events,
                    outbox: final(p).outbox,
                    ..*old(p)
                })
            },
    {
        let user_addr = AddressHelper::require_valid_address(user)?;
        let now = p.now;
        AnalyticsModule::record_activity(&mut p.analytics, &mut p.events, &mut p.outbox, now, &user_addr, activity_type, amount, asset)
    }

    /// Registers an AMM pair (admin only).
    pub fn register_amm_pair(
        p: &mut Protocol,
        admin: &String,
        asset_a: String,
        asset_b: String,
        amm_address: String,
        pool_address: Option<String>,
    ) -> (r: Result<(), ProtocolError>)
        requires
            old(p).wf(),
            !old(p).reentrancy && spec_require_admin(old(p).admin, *admin) is Ok && old(p).amm.pair_of(asset_a@, asset_b@)
                is None ==> old(p).amm.pair_count < i128::MAX,
        ensures
            final(p).wf(),
            r == (if old(p).reentrancy {
                Err(ProtocolError::ReentrancyDetected)
            } else if spec_require_admin(old(p).admin, *admin) is Err {
                spec_require_admin(old(p).admin, *admin)
            } else if old(p).amm.pair_of(asset_a@, asset_b@) is Some {
                Err(ProtocolError::AlreadyExists)
            } else {
                Ok(())
            }),
            r is Err ==> *final(p) == *old(p),
            r is Ok ==> ({
                let pair = AssetPair {
                    asset_a,
                    asset_b,
                    amm_address,
                    pool_address,
                    is_active: true,
                    registered_at: old(p).now,
                    last_updated: old(p).now,
                };
                let ev = ProtocolEvent::AMMLiquidityAdded(old(p).contract_address, asset_a, asset_b, 0, 0);
                &&& map_of(final(p).amm.pairs@) == map_of(old(p).amm.pairs@).insert(pair_view(asset_a@, asset_b@), pair)
                &&& final(p).amm.pair_count == old(p).amm.pair_count + 1
                &&& final(p).amm.swap_history == old(p).amm.swap_history
                &&& old(p).events.appended(final(p).events, capture_view(ev, old(p).now))
                &&& final(p).outbox@ == old(p).outbox@.push(Notice::Event(ev))
                &&& *final(p) == (Protocol {
                    amm: final(p).amm,
                    events: final(p).events,
                    outbox: final(p).outbox,
                    ..*old(p)
                })
            }),
    {
        ReentrancyGuard::enter(p)?;
        let result = match ProtocolConfig::require_admin(p, admin) {
            Ok(_) => AMMRegistry::register_pair(p, asset_a, asset_b, amm_address, pool_address),
            Err(e) => Err(e),
        };
        ReentrancyGuard::exit(p);
        result
    }

    /// Whether an active pair is registered for the two assets.
    pub fn is_amm_pair_registered(p: &Protocol, asset_a: &String, asset_b: &String) -> (b: bool)
        requires
            p.wf(),
        ensures
            b == (p.amm.pair_of(asset_a@, asset_b@) matches Some(pair) && pair.is_active),
    {
        AMMRegistry::is_pair_registered(p, asset_a, asset_b)
    }

    /// The pair registered for the two assets.
    pub fn get_amm_pair_info(p: &Protocol, asset_a: &String, asset_b: &String) -> (r: Result<AssetPair, ProtocolError>)
        requires
            p.wf(),
        ensures
            r == (match p.amm.pair_of(asset_a@, asset_b@) {
                Some(pair) => Ok(pair),
                None => Err(ProtocolError::NotFound),
            }),
    {
        AMMRegistry::get_pair_info(p, asset_a, asset_b)
    }

    /// Executes a swap through an active registered pair: a 0.3% fee is kept
    /// and the rest comes out 1:1; the swap is recorded in the history and
    /// `AMMSwap` is emitted.
    pub fn execute_amm_swap(p: &mut Protocol, params: SwapParams) -> (r: Result<SwapResult, ProtocolError>)
        requires
            old(p).wf(),
            swap_fits(old(p), params),
        ensures
            final(p).wf(),
            r == spec_swap(old(p), params),
            r is Err ==> *final(p) == *old(p),
            r is Ok ==> ({
                let res = r->Ok_0;
                let ev = ProtocolEvent::AMMSwap(
                    params.user,
                    params.asset_in,
                    params.asset_out,
                    params.amount_in,
                    res.amount_out,
                );
                &&& res.amount_out + res.fee_paid == params.amount_in
                &&& final(p).amm.swap_history@ == keep_last(
                    old(p).amm.swap_history@.push(res),
                    MAX_SWAP_HISTORY as int,
                )
                &&& old(p).events.appended(final(p).events, capture_view(ev, old(p).now))
                &&& final(p).outbox@ == old(p).outbox@.push(Notice::Event(ev))
                &&& *final(p) == (Protocol {
                    amm: AMMState { swap_history: final(p).amm.swap_history, ..old(p).amm },
                    events: final(p).events,
                    outbox: final(p).outbox,
                    ..*old(p)
                })
            }),
            !old(p).reentrancy ==> !final(p).reentrancy,
    {
        AMMRegistry::execute_swap(p, params)
    }

    /// Swaps a liquidator's collateral into the debt asset (2% slippage
    /// tolerance) and, when the liquidator has a position, lowers its
    /// collateral by the amount sold and its debt by the amount received.
    pub fn liquidation_swap_hook(
        p: &mut Protocol,
        liquidator: &String,
        collateral_asset: &String,
        debt_asset: &String,
        collateral_amount: i128,
        min_debt_amount: i128,
    ) -> (r: Result<SwapResult, ProtocolError>)
        requires
            old(p).wf(),
            swap_fits(
                old(p),
                liquidation_hook_params(*liquidator, *collateral_asset, *debt_asset, collateral_amount, min_debt_amount),
            ),
            ({
                let params = liquidation_hook_params(
                    *liquidator,
                    *collateral_asset,
                    *debt_asset,
                    collateral_amount,
                    min_debt_amount,
                );
                let pos = position_in(old(p), *liquidator);
                spec_swap(old(p), params) is Ok && old(p).position_of(liquidator@) is Some ==> {
                    &&& i128::MIN <= pos.collateral - collateral_amount <= i128::MAX
                    &&& i128::MIN <= pos.debt - spec_swap(old(p), params)->Ok_0.amount_out <= i128::MAX
                }
            }),
        ensures
            final(p).wf(),
            ({
                let params = liquidation_hook_params(
                    *liquidator,
                    *collateral_asset,
                    *debt_asset,
                    collateral_amount,
                    min_debt_amount,
                );
                &&& r == spec_swap(old(p), params)
                &&& r is Err ==> *final(p) == *old(p)
                &&& r is Ok ==> ({
                    let res = r->Ok_0;
                    let pos = position_in(old(p), *liquidator);
                    let ev = ProtocolEvent::AMMSwap(
                        *liquidator,
                        *collateral_asset,
                        *debt_asset,
                        collateral_amount,
                        res.amount_out,
                    );
                    &&& map_of(final(p).positions@) == (if old(p).position_of(liquidator@) is Some {
                        map_of(old(p).positions@).insert(
                            liquidator@,
                            Position {
                                collateral: (pos.collateral - collateral_amount) as i128,
                                debt: (pos.debt - res.amount_out) as i128,
                                ..pos
                            },
                        )
                    } else {
                        map_of(old(p).positions@)
                    })
                    &&& final(p).amm.swap_history@ == keep_last(
                        old(p).amm.swap_history@.push(res),
                        MAX_SWAP_HISTORY as int,
                    )
                    &&& old(p).events.appended(final(p).events, capture_view(ev, old(p).now))
                    &&& final(p).outbox@ == old(p).outbox@.push(Notice::Event(ev))
                    &&& *final(p) == (Protocol {
                        positions: final(p).positions,
                        amm: AMMState { swap_history: final(p).amm.swap_history, ..old(p).amm },
                        events: final(p).events,
                        outbox: final(p).outbox,
                        ..*old(p)
                    })
                })
            }),
            !old(p).reentrancy ==> !final(p).reentrancy,
    {
        AMMRegistry::liquidation_swap_hook(p, liquidator, collateral_asset, debt_asset, collateral_amount, min_debt_amount)
    }

    /// Sells an asset to reduce a user's debt (1.5% slippage tolerance); when
    /// the user has a position, its debt drops by the amount received.
    pub fn deleverage_swap_hook(
        p: &mut Protocol,
        user: &String,
        asset_to_sell: &String,
        debt_asset: &String,
        sell_amount: i128,
        min_debt_repayment: i128,
    ) -> (r: Result<SwapResult, ProtocolError>)
        requires
            old(p).wf(),
            swap_fits(old(p), deleverage_hook_params(*user, *asset_to_sell, *debt_asset, sell_amount, min_debt_repayment)),
            ({
                let params = deleverage_hook_params(*user, *asset_to_sell, *debt_asset, sell_amount, min_debt_repayment);
                spec_swap(old(p), params) is Ok && old(p).position_of(user@) is Some ==> i128::MIN <= position_in(
                    old(p),
                    *user,
                ).debt - spec_swap(old(p), params)->Ok_0.amount_out <= i128::MAX
            }),
        ensures
            final(p).wf(),
            ({
                let params = deleverage_hook_params(*user, *asset_to_sell, *debt_asset, sell_amount, min_debt_repayment);
                &&& r == spec_swap(old(p), params)
                &&& r is Err ==> *final(p) == *old(p)
                &&& r is Ok ==> ({
                    let res = r->Ok_0;
                    let pos = position_in(old(p), *user);
                    let ev = ProtocolEvent::AMMSwap(*user, *asset_to_sell, *debt_asset, sell_amount, res.amount_out);
                    &&& map_of(final(p).positions@) == (if old(p).position_of(user@) is Some {
                        map_of(old(p).positions@).insert(
                            user@,
                            Position { debt: (pos.debt - res.amount_out) as i128, ..pos },
                        )
                    } else {
                        map_of(old(p).positions@)
                    })
                    &&& final(p).amm.swap_history@ == keep_last(
                        old(p).amm.swap_history@.push(res),
                        MAX_SWAP_HISTORY as int,
                    )
                    &&& old(p).events.appended(final(p).events, capture_view(ev, old(p).now))
                    &&& final(p).outbox@ == old(p).outbox@.push(Notice::Event(ev))
                    &&& *final(p) == (Protocol {
                        positions: final(p).positions,
                        amm: AMMState { swap_history: final(p).amm.swap_history, ..old(p).amm },
                        events: final(p).events,
                        outbox: final(p).outbox,
                        ..*old(p)
                    })
                })
            }),
            !old(p).reentrancy ==> !final(p).reentrancy,
    {
        AMMRegistry::deleverage_swap_hook(p, user, asset_to_sell, debt_asset, sell_amount, min_debt_repayment)
    }

    /// How many pairs were registered.
    pub fn get_total_amm_pairs(p: &Protocol) -> (r: i128)
        ensures
            r == p.amm.pair_count,
    {
        AMMRegistry::get_total_pairs(p)
    }

    /// All registered pairs.
    pub fn get_all_amm_pairs(p: &Protocol) -> (r: Vec<AssetPair>)
        ensures
            r@ == p.amm.pairs@,
    {
        AMMRegistry::get_all_pairs(p)
    }

    /// The latest swaps, oldest first.
    pub fn get_amm_swap_history(p: &Protocol) -> (r: Vec<SwapResult>)
        ensures
            r@ == p.amm.swap_history@,
    {
        AMMRegistry::get_swap_history(p)
    }

    /// Deactivates a pair (admin only).
    pub fn deactivate_amm_pair(p: &mut Protocol, admin: &String, asset_a: &String, asset_b: &String) -> (r: Result<
        (),
        ProtocolError,
    >)
        requires
            old(p).wf(),
        ensures
            final(p).wf(),
            r == (if old(p).reentrancy {
                Err(ProtocolError::ReentrancyDetected)
            } else if spec_require_admin(old(p).admin, *admin) is Err {
                spec_require_admin(old(p).admin, *admin)
            } else if old(p).amm.pair_of(asset_a@, asset_b@) is None {
                Err(ProtocolError::NotFound)
            } else {
                Ok(())
            }),
            r is Err ==> *final(p) == *old(p),
            r is Ok ==> ({
                let pair = old(p).amm.pair_of(asset_a@, asset_b@)->Some_0;
                &&& map_of(final(p).amm.pairs@) == map_of(old(p).amm.pairs@).insert(
                    pair_view(asset_a@, asset_b@),
                    AssetPair { is_active: false, last_updated: old(p).now, ..pair },
                )
                &&& *final(p) == (Protocol { amm: AMMState { pairs: final(p).amm.pairs, ..old(p).amm }, ..*old(p) })
            }),
    {
        ReentrancyGuard::enter(p)?;
        let result = match ProtocolConfig::require_admin(p, admin) {
            Ok(_) => AMMRegistry::deactivate_pair(p, asset_a, asset_b),
            Err(e) => Err(e),
        };
        ReentrancyGuard::exit(p);
        result
    }

    /// Reactivates a pair (admin only).
    pub fn activate_amm_pair(p: &mut Protocol, admin: &String, asset_a: &String, asset_b: &String) -> (r: Result<
        (),
        ProtocolError,
    >)
        requires
            old(p).wf(),
        ensures
            final(p).wf(),
            r == (if old(p).reentrancy {
                Err(ProtocolError::ReentrancyDetected)
            } else if spec_require_admin(old(p).admin, *admin) is Err {
                spec_require_admin(old(p).admin, *admin)
            } else if old(p).amm.pair_of(asset_a@, asset_b@) is None {
                Err(ProtocolError::NotFound)
            } else {
                Ok(())
            }),
            r is Err ==> *final(p) == *old(p),
            r is Ok ==> ({
                let pair = old(p).amm.pair_of(asset_a@, asset_b@)->Some_0;
                &&& map_of(final(p).amm.pairs@) == map_of(old(p).amm.pairs@).insert(
                    pair_view(asset_a@, asset_b@),
                    AssetPair { is_active: true, last_updated: old(p).now, ..pair },
                )
                &&& *final(p) == (Protocol { amm: AMMState { pairs: final(p).amm.pairs, ..old(p).amm }, ..*old(p) })
            }),
    {
        ReentrancyGuard::enter(p)?;
        let result = match ProtocolConfig::require_admin(p, admin) {
            Ok(_) => AMMRegistry::activate_pair(p, asset_a, asset_b),
            Err(e) => Err(e),
        };
        ReentrancyGuard::exit(p);
        result
    }
}

} // verus!
