//! Token transfers between users and the contract, checked against the
//! balances observed before and after.
//!
//! The host moves the tokens. The protocol decides whether a transfer may
//! start (`transfer_in`, `transfer_out`) and judges the balances observed
//! around it (`settle`); repayments and withdrawals keep their outcome in
//! `Protocol::pending` until the host reports the balances after the move.
use vstd::prelude::*;
use crate::analytics::{AnalyticsModule, recorded, record_fits, analytics_capture, analytics_notice};
use crate::errors::ProtocolError;
use crate::events::{EventStore, EventRecordView, EventTracker, Notice, ProtocolEvent, capture_view, text};
use crate::interest::{InterestRateState, Position};
use crate::keyed::map_of;
use crate::math::sat;
use crate::state::{Protocol, ReentrancyGuard, StateHelper, TokenRegistry, spec_ratio, ratio_fits, collateral_ratio};
use crate::users::{OperationKind, UserManager, profile_in, with_profile};

verus! {

/// Token balances of the contract and of the user, read by the host.
#[derive(Clone, Copy, Debug, PartialEq, Eq, Structural)]
pub struct BalanceReading {
    pub contract: i128,
    pub user: i128,
}

/// A transfer the host is asked to perform.
#[derive(Debug)]
pub struct TransferOrder {
    pub from: String,
    pub to: String,
    pub asset: String,
    pub amount: i128,
    /// The operation the transfer belongs to (`repay`, `withdraw`).
    pub flow: String,
    /// Whether the tokens move into the contract.
    pub incoming: bool,
}

/// The content of a `TransferOrder`.
pub struct TransferOrderView {
    pub from: Seq<char>,
    pub to: Seq<char>,
    pub asset: Seq<char>,
    pub amount: i128,
    pub flow: Seq<char>,
    pub incoming: bool,
}

impl View for TransferOrder {
    type V = TransferOrderView;

    open spec fn view(&self) -> TransferOrderView {
        TransferOrderView {
            from: self.from@,
            to: self.to@,
            asset: self.asset@,
            amount: self.amount,
            flow: self.flow@,
            incoming: self.incoming,
        }
    }
}

impl TransferOrder {
    pub fn clone_order(&self) -> (r: Self)
        ensures
            r == *self,
    {
        TransferOrder {
            from: self.from.clone(),
            to: self.to.clone(),
            asset: self.asset.clone(),
            amount: self.amount,
            flow: self.flow.clone(),
            incoming: self.incoming,
        }
    }
}

/// The operation waiting for its transfer to settle.
#[derive(Clone, Copy, Debug, PartialEq, Eq, Structural)]
pub enum PendingKind {
    Repay,
    Withdraw,
}

/// A repayment or withdrawal whose transfer the host is performing.
pub struct PendingTransfer {
    pub kind: PendingKind,
    pub order: TransferOrder,
    pub before: BalanceReading,
    /// The position stored once the transfer settles.
    pub position: Position,
    /// The interest rate state stored once the transfer settles.
    pub interest_state: InterestRateState,
}

/// The record of a transfer notice of type `kind` with the given second and third topics.
pub open spec fn transfer_view(
    kind: Seq<char>,
    o: TransferOrderView,
    rest: Seq<Seq<char>>,
    now: u64,
) -> EventRecordView {
    EventRecordView {
        event_type: kind,
        topics: seq![o.flow] + rest,
        user: Some(o.from),
        asset: Some(o.asset),
        amount: o.amount,
        timestamp: now,
    }
}

pub open spec fn attempt_view(o: TransferOrderView, now: u64) -> EventRecordView {
    transfer_view("transfer_attempt"@, o, seq!["from"@, "to"@], now)
}

pub open spec fn success_view(o: TransferOrderView, now: u64) -> EventRecordView {
    transfer_view("transfer_success"@, o, seq!["from"@, "to"@], now)
}

pub open spec fn failure_view(o: TransferOrderView, reason: Seq<char>, now: u64) -> EventRecordView {
    transfer_view("transfer_failure"@, o, seq![reason], now)
}

/// The notice published for an attempt.
pub open spec fn attempt_notice(n: Notice, o: TransferOrderView) -> bool {
    n matches Notice::TransferAttempt(f, a, b, t, x) && f@ == o.flow && a@ == o.from && b@ == o.to && t@ == o.asset
        && x == o.amount
}

pub open spec fn success_notice(n: Notice, o: TransferOrderView) -> bool {
    n matches Notice::TransferSuccess(f, a, b, t, x) && f@ == o.flow && a@ == o.from && b@ == o.to && t@ == o.asset
        && x == o.amount
}

pub open spec fn failure_notice(n: Notice, o: TransferOrderView, reason: Seq<char>) -> bool {
    n matches Notice::TransferFailure(f, a, b, t, x, why) && f@ == o.flow && a@ == o.from && b@ == o.to
        && t@ == o.asset && x == o.amount && why@ == reason
}

/// The primary asset's token, if registered.
pub open spec fn primary_asset(p: &Protocol) -> Option<Seq<char>> {
    TokenRegistry::spec_asset(p, "primary_asset"@)
}

/// The order for moving `amount` between `user` and the contract.
pub open spec fn order_view(p: &Protocol, user: Seq<char>, amount: i128, flow: Seq<char>, incoming: bool) -> TransferOrderView {
    let c = p.contract_address@;
    TransferOrderView {
        from: if incoming { user } else { c },
        to: if incoming { c } else { user },
        asset: primary_asset(p).unwrap(),
        amount,
        flow,
        incoming,
    }
}

/// The balance changes the transfer must have caused: each side moved by
/// exactly the amount (differences saturate).
pub open spec fn spec_settle(o: TransferOrderView, before: BalanceReading, after: BalanceReading) -> Result<(), ProtocolError> {
    let contract_delta = if o.incoming {
        sat(after.contract - before.contract)
    } else {
        sat(before.contract - after.contract)
    };
    let user_delta = if o.incoming {
        sat(before.user - after.user)
    } else {
        sat(after.user - before.user)
    };
    if contract_delta != o.amount || user_delta != o.amount {
        Err(ProtocolError::BalanceInvariantViolation)
    } else {
        Ok(())
    }
}

/// Settling the pending operation does not overflow.
pub open spec fn pending_fits(p: &Protocol) -> bool {
    let pt = p.pending->Some_0;
    &&& ratio_fits(pt.position.collateral as int, pt.position.debt as int)
    &&& record_fits(&p.analytics, pt.position.user@, pt.order.flow@, pt.order.amount)
}

/// The operation kind of a pending transfer.
pub open spec fn pending_operation(k: PendingKind) -> OperationKind {
    match k {
        PendingKind::Repay => OperationKind::Repay,
        PendingKind::Withdraw => OperationKind::Withdraw,
    }
}

/// The event published once a pending operation settles.
pub open spec fn settled_event(pt: PendingTransfer) -> ProtocolEvent {
    ProtocolEvent::PositionUpdated(
        pt.position.user,
        pt.position.collateral,
        pt.position.debt,
        spec_ratio(pt.position.collateral as int, pt.position.debt as int) as i128,
    )
}

/// Transfer checks around token movements.
pub struct TransferEnforcer;

impl TransferEnforcer {
    fn record_transfer(
        events: &mut EventStore,
        now: u64,
        kind: &str,
        order: &TransferOrder,
        second: String,
        third: Option<String>,
    )
        requires
            old(events).wf(),
        ensures
            old(events).appended(
                *final(events),
                transfer_view(
                    kind@,
                    order@,
                    match third {
                        Some(t) => seq![second@, t@],
                        None => seq![second@],
                    },
                    now,
                ),
            ),
    {
        let ghost third_v = third;
        let mut topics: Vec<String> = Vec::new();
        topics.push(order.flow.clone());
        topics.push(second);
        match third {
            Some(t) => {
                topics.push(t);
            },
            None => {},
        }
        proof {
            assert(crate::events::texts(topics@) =~= seq![order.flow@] + match third_v {
                Some(t) => seq![topics@[1]@, t@],
                None => seq![topics@[1]@],
            });
        }
        EventTracker::record(
            events,
            now,
            text(kind),
            topics,
            Some(order.from.clone()),
            Some(order.asset.clone()),
            order.amount,
        );
    }

    fn emit_attempt(events: &mut EventStore, outbox: &mut Vec<Notice>, now: u64, order: &TransferOrder)
        requires
            old(events).wf(),
        ensures
            old(events).appended(*final(events), attempt_view(order@, now)),
            final(outbox)@.len() == old(outbox)@.len() + 1,
            final(outbox)@.drop_last() == old(outbox)@,
            attempt_notice(final(outbox)@.last(), order@),
    {
        Self::record_transfer(events, now, "transfer_attempt", order, text("from"), Some(text("to")));
        outbox.push(
            Notice::TransferAttempt(
                order.flow.clone(),
                order.from.clone(),
                order.to.clone(),
                order.asset.clone(),
                order.amount,
            ),
        );
        proof {
            assert(final(outbox)@.drop_last() =~= old(outbox)@);
        }
    }

    fn emit_success(events: &mut EventStore, outbox: &mut Vec<Notice>, now: u64, order: &TransferOrder)
        requires
            old(events).wf(),
        ensures
            old(events).appended(*final(events), success_view(order@, now)),
            final(outbox)@.len() == old(outbox)@.len() + 1,
            final(outbox)@.drop_last() == old(outbox)@,
            success_notice(final(outbox)@.last(), order@),
    {
        Self::record_transfer(events, now, "transfer_success", order, text("from"), Some(text("to")));
        outbox.push(
            Notice::TransferSuccess(
                order.flow.clone(),
                order.from.clone(),
                order.to.clone(),
                order.asset.clone(),
                order.amount,
            ),
        );
        proof {
            assert(final(outbox)@.drop_last() =~= old(outbox)@);
        }
    }

    fn emit_failure(events: &mut EventStore, outbox: &mut Vec<Notice>, now: u64, order: &TransferOrder, reason: &str)
        requires
            old(events).wf(),
        ensures
            old(events).appended(*final(events), failure_view(order@, reason@, now)),
            final(outbox)@.len() == old(outbox)@.len() + 1,
            final(outbox)@.drop_last() == old(outbox)@,
            failure_notice(final(outbox)@.last(), order@, reason@),
    {
        Self::record_transfer(events, now, "transfer_failure", order, text(reason), None);
        outbox.push(
            Notice::TransferFailure(
                order.flow.clone(),
                order.from.clone(),
                order.to.clone(),
                order.asset.clone(),
                order.amount,
                text(reason),
            ),
        );
        proof {
            assert(final(outbox)@.drop_last() =~= old(outbox)@);
        }
    }

    fn order_for(p: &Protocol, user: &String, amount: i128, flow: &String, incoming: bool) -> (r: Result<
        TransferOrder,
        ProtocolError,
    >)
        requires
            p.wf(),
        ensures
            match r {
                Ok(o) => primary_asset(p).is_some() && o@ == order_view(p, user@, amount, flow@, incoming),
                Err(e) => primary_asset(p).is_none() && e == ProtocolError::AssetNotSupported,
            },
    {
        let asset = TokenRegistry::require_primary_asset(p)?;
        let contract = p.contract_address.clone();
        let (from, to) = if incoming {
            (user.clone(), contract)
        } else {
            (contract, user.clone())
        };
        Ok(TransferOrder { from, to, asset, amount, flow: flow.clone(), incoming })
    }

    /// Starts moving `amount` from `user` into the contract: the amount must
    /// be positive and a primary asset registered; records the attempt.
    pub fn transfer_in(p: &mut Protocol, user: &String, amount: i128, flow: &String) -> (r: Result<
        TransferOrder,
        ProtocolError,
    >)
        requires
            old(p).wf(),
        ensures
            final(p).wf(),
            r is Err ==> *final(p) == *old(p),
            match r {
                Ok(o) => amount > 0 && primary_asset(old(p)).is_some() && o@ == order_view(
                    old(p),
                    user@,
                    amount,
                    flow@,
                    true,
                ) && old(p).events.appended(final(p).events, attempt_view(o@, old(p).now)) && final(p).outbox@.drop_last()
                    == old(p).outbox@ && final(p).outbox@.len() == old(p).outbox@.len() + 1 && attempt_notice(
                    final(p).outbox@.last(),
                    o@,
                ) && *final(p) == (Protocol { events: final(p).events, outbox: final(p).outbox, ..*old(p) }),
                Err(e) => e == (if amount <= 0 {
                    ProtocolError::InvalidAmount
                } else {
                    ProtocolError::AssetNotSupported
                }) && (amount > 0 ==> primary_asset(old(p)).is_none()),
            },
    {
        let order = Self::order_in(p, user, amount, flow)?;
        let now = p.now;
        Self::emit_attempt(&mut p.events, &mut p.outbox, now, &order);
        Ok(order)
    }

    /// The order moving `amount` from `user` into the contract: the amount
    /// must be positive and a primary asset registered (nothing is recorded).
    pub fn order_in(p: &Protocol, user: &String, amount: i128, flow: &String) -> (r: Result<TransferOrder, ProtocolError>)
        requires
            p.wf(),
        ensures
            match r {
                Ok(o) => amount > 0 && primary_asset(p).is_some() && o@ == order_view(p, user@, amount, flow@, true),
                Err(e) => e == (if amount <= 0 {
                    ProtocolError::InvalidAmount
                } else {
                    ProtocolError::AssetNotSupported
                }) && (amount > 0 ==> primary_asset(p).is_none()),
            },
    {
        if amount <= 0 {
            return Err(ProtocolError::InvalidAmount);
        }
        Self::order_for(p, user, amount, flow, true)
    }

    /// The order moving `amount` from the contract to `user`: the amount must
    /// be positive, a primary asset registered and the contract's balance
    /// (`contract_balance`) must cover it, else the failure is recorded.
    pub fn order_out(p: &mut Protocol, user: &String, amount: i128, flow: &String, contract_balance: i128) -> (r:
        Result<TransferOrder, ProtocolError>)
        requires
            old(p).wf(),
        ensures
            final(p).wf(),
            match r {
                Ok(o) => amount > 0 && primary_asset(old(p)).is_some() && contract_balance >= amount && o@
                    == order_view(old(p), user@, amount, flow@, false) && *final(p) == *old(p),
                Err(e) => if amount <= 0 {
                    e == ProtocolError::InvalidAmount && *final(p) == *old(p)
                } else if primary_asset(old(p)).is_none() {
                    e == ProtocolError::AssetNotSupported && *final(p) == *old(p)
                } else {
                    let o = order_view(old(p), user@, amount, flow@, false);
                    &&& contract_balance < amount
                    &&& e == ProtocolError::InsufficientLiquidity
                    &&& old(p).events.appended(final(p).events, failure_view(o, "insufficient_liquidity"@, old(p).now))
                    &&& final(p).outbox@.drop_last() == old(p).outbox@
                    &&& final(p).outbox@.len() == old(p).outbox@.len() + 1
                    &&& failure_notice(final(p).outbox@.last(), o, "insufficient_liquidity"@)
                    &&& *final(p) == (Protocol { events: final(p).events, outbox: final(p).outbox, ..*old(p) })
                },
            },
    {
        if amount <= 0 {
            return Err(ProtocolError::InvalidAmount);
        }
        let order = Self::order_for(p, user, amount, flow, false)?;
        let now = p.now;
        if contract_balance < amount {
            Self::emit_failure(&mut p.events, &mut p.outbox, now, &order, "insufficient_liquidity");
            return Err(ProtocolError::InsufficientLiquidity);
        }
        Ok(order)
    }

    /// Whether both sides moved by exactly the order's amount.
    pub fn check_settlement(order: &TransferOrder, before: BalanceReading, after: BalanceReading) -> (r: Result<
        (),
        ProtocolError,
    >)
        ensures
            r == spec_settle(order@, before, after),
    {
        let (contract_delta, user_delta) = if order.incoming {
            (crate::math::sat_sub(after.contract, before.contract), crate::math::sat_sub(before.user, after.user))
        } else {
            (crate::math::sat_sub(before.contract, after.contract), crate::math::sat_sub(after.user, before.user))
        };
        if contract_delta != order.amount || user_delta != order.amount {
            return Err(ProtocolError::BalanceInvariantViolation);
        }
        Ok(())
    }

    /// Starts moving `amount` from the contract to `user`: the amount must be
    /// positive, a primary asset registered and the contract's balance
    /// (`contract_balance`) must cover it, else the failure is recorded;
    /// records the attempt.
    pub fn transfer_out(p: &mut Protocol, user: &String, amount: i128, flow: &String, contract_balance: i128) -> (r:
        Result<TransferOrder, ProtocolError>)
        requires
            old(p).wf(),
        ensures
            final(p).wf(),
            match r {
                Ok(o) => amount > 0 && primary_asset(old(p)).is_some() && contract_balance >= amount && o@
                    == order_view(old(p), user@, amount, flow@, false) && old(p).events.appended(
                    final(p).events,
                    attempt_view(o@, old(p).now),
                ) && final(p).outbox@.drop_last() == old(p).outbox@ && final(p).outbox@.len() == old(p).outbox@.len()
                    + 1 && attempt_notice(final(p).outbox@.last(), o@) && *final(p) == (Protocol {
                    events: final(p).events,
                    outbox: final(p).outbox,
                    ..*old(p)
                }),
                Err(e) => if amount <= 0 {
                    e == ProtocolError::InvalidAmount && *final(p) == *old(p)
                } else if primary_asset(old(p)).is_none() {
                    e == ProtocolError::AssetNotSupported && *final(p) == *old(p)
                } else {
                    let o = order_view(old(p), user@, amount, flow@, false);
                    &&& contract_balance < amount
                    &&& e == ProtocolError::InsufficientLiquidity
                    &&& old(p).events.appended(final(p).events, failure_view(o, "insufficient_liquidity"@, old(p).now))
                    &&& final(p).outbox@.drop_last() == old(p).outbox@
                    &&& final(p).outbox@.len() == old(p).outbox@.len() + 1
                    &&& failure_notice(final(p).outbox@.last(), o, "insufficient_liquidity"@)
                    &&& *final(p) == (Protocol { events: final(p).events, outbox: final(p).outbox, ..*old(p) })
                },
            },
    {
        let order = Self::order_out(p, user, amount, flow, contract_balance)?;
        let now = p.now;
        Self::emit_attempt(&mut p.events, &mut p.outbox, now, &order);
        Ok(order)
    }

    /// Judges a performed transfer by the balances read before and after it:
    /// both sides must have moved by exactly the amount. Records the success
    /// or the failure.
    pub fn settle(p: &mut Protocol, order: &TransferOrder, before: BalanceReading, after: BalanceReading) -> (r: Result<
        (),
        ProtocolError,
    >)
        requires
            old(p).wf(),
        ensures
            final(p).wf(),
            r == spec_settle(order@, before, after),
            r is Ok ==> old(p).events.appended(final(p).events, success_view(order@, old(p).now)) && success_notice(
                final(p).outbox@.last(),
                order@,
            ),
            r is Err ==> old(p).events.appended(
                final(p).events,
                failure_view(order@, "invariant_violation"@, old(p).now),
            ) && failure_notice(final(p).outbox@.last(), order@, "invariant_violation"@),
            final(p).outbox@.drop_last() == old(p).outbox@,
            final(p).outbox@.len() == old(p).outbox@.len() + 1,
            *final(p) == (Protocol { events: final(p).events, outbox: final(p).outbox, ..*old(p) }),
    {
        let now = p.now;
        if Self::check_settlement(order, before, after).is_err() {
            Self::emit_failure(&mut p.events, &mut p.outbox, now, order, "invariant_violation");
            return Err(ProtocolError::BalanceInvariantViolation);
        }
        Self::emit_success(&mut p.events, &mut p.outbox, now, order);
        Ok(())
    }

    /// Finishes the pending repayment or withdrawal with the balances read
    /// after its transfer. A transfer that did not move exactly the amount
    /// records the failure; an operation over the user's limits is refused.
    /// Either way nothing else changes. A settled operation stores the new
    /// interest rate state and position, records the transfer's attempt and
    /// success, emits `PositionUpdated`, records the activity in analytics and
    /// against the user's limits. The reentrancy guard is released in every
    /// case.
    pub fn complete_pending(p: &mut Protocol, after: BalanceReading) -> (r: Result<(), ProtocolError>)
        requires
            old(p).wf(),
            old(p).pending is Some,
            pending_fits(old(p)),
        ensures
            final(p).wf(),
            ({
                let pt = old(p).pending->Some_0;
                let now = old(p).now;
                let user = pt.position.user;
                let amount = pt.order.amount;
                let op = pending_operation(pt.kind);
                let prof = profile_in(map_of(old(p).users@), user, now);
                let rec = prof.limits.spec_refreshed(now).spec_check(op, amount);
                let n = old(p).outbox@.len() as int;
                match spec_settle(pt.order@, pt.before, after) {
                    Err(e) => {
                        &&& r == Err::<(), ProtocolError>(e)
                        &&& old(p).events.appended(final(p).events, failure_view(pt.order@, "invariant_violation"@, now))
                        &&& final(p).outbox@.drop_last() == old(p).outbox@
                        &&& final(p).outbox@.len() == n + 1
                        &&& failure_notice(final(p).outbox@.last(), pt.order@, "invariant_violation"@)
                        &&& *final(p) == (Protocol {
                            events: final(p).events,
                            outbox: final(p).outbox,
                            reentrancy: false,
                            pending: None,
                            ..*old(p)
                        })
                    },
                    Ok(_) => if rec is Err {
                        &&& r == rec
                        &&& *final(p) == (Protocol { reentrancy: false, pending: None, ..*old(p) })
                    } else {
                        &&& r is Ok
                        &&& map_of(final(p).positions@) == map_of(old(p).positions@).insert(user@, pt.position)
                        &&& map_of(final(p).users@) == map_of(old(p).users@).insert(
                            user@,
                            UserManager::spec_recorded(prof, now, amount),
                        )
                        &&& recorded(&old(p).analytics, &final(p).analytics, user@, pt.order.flow@, amount, None, now)
                        &&& old(p).events.appended_all(
                            final(p).events,
                            seq![
                                attempt_view(pt.order@, now),
                                success_view(pt.order@, now),
                                capture_view(settled_event(pt), now),
                                analytics_capture(user@, amount, now),
                            ],
                        )
                        &&& final(p).outbox@.len() == n + 5
                        &&& final(p).outbox@.subrange(0, n) == old(p).outbox@
                        &&& attempt_notice(final(p).outbox@[n], pt.order@)
                        &&& success_notice(final(p).outbox@[n + 1], pt.order@)
                        &&& final(p).outbox@[n + 2] == Notice::Event(settled_event(pt))
                        &&& analytics_notice(final(p).outbox@[n + 3], user@, pt.order.flow@, amount, now)
                        &&& final(p).outbox@[n + 4] matches Notice::UserActivityTracked(u, o, a, t) && u@ == user@ && o
                            == op && a == amount && t == now
                        &&& *final(p) == (Protocol {
                            interest_state: pt.interest_state,
                            positions: final(p).positions,
                            users: final(p).users,
                            analytics: final(p).analytics,
                            events: final(p).events,
                            outbox: final(p).outbox,
                            reentrancy: false,
                            pending: None,
                            ..*old(p)
                        })
                    },
                }
            }),
    {
        let ghost p0 = *p;
        let pt = p.pending.take().unwrap();
        let now = p.now;
        if Self::check_settlement(&pt.order, pt.before, after).is_err() {
            Self::emit_failure(&mut p.events, &mut p.outbox, now, &pt.order, "invariant_violation");
            ReentrancyGuard::exit(p);
            return Err(ProtocolError::BalanceInvariantViolation);
        }
        let user = pt.position.user.clone();
        let amount = pt.order.amount;
        let operation = match pt.kind {
            PendingKind::Repay => OperationKind::Repay,
            PendingKind::Withdraw => OperationKind::Withdraw,
        };
        let limits = UserManager::check_activity(&p.users, now, &user, operation, amount);
        if limits.is_err() {
            ReentrancyGuard::exit(p);
            return limits;
        }
        let ghost ptv = pt;
        p.interest_state = pt.interest_state;
        Self::emit_attempt(&mut p.events, &mut p.outbox, now, &pt.order);
        let ghost events1 = p.events;
        Self::emit_success(&mut p.events, &mut p.outbox, now, &pt.order);
        let ghost events2 = p.events;
        let collateral = pt.position.collateral;
        let debt = pt.position.debt;
        StateHelper::save_position(p, pt.position);
        let ratio = collateral_ratio(collateral, debt);
        let ev = ProtocolEvent::PositionUpdated(user.clone(), collateral, debt, ratio);
        proof {
            assert(ev == settled_event(ptv));
        }
        ev.emit(&mut p.events, &mut p.outbox, now);
        let ghost events3 = p.events;
        AnalyticsModule::record_activity(
            &mut p.analytics,
            &mut p.events,
            &mut p.outbox,
            now,
            &user,
            &pt.order.flow,
            amount,
            None,
        )?;
        proof {
            p0.events.lemma_appended_three(
                events1,
                events2,
                events3,
                attempt_view(ptv.order@, now),
                success_view(ptv.order@, now),
                capture_view(settled_event(ptv), now),
            );
            p0.events.lemma_appended_push(
                events3,
                p.events,
                seq![attempt_view(ptv.order@, now), success_view(ptv.order@, now), capture_view(settled_event(ptv), now)],
                analytics_capture(user@, amount, now),
            );
            assert(seq![attempt_view(ptv.order@, now), success_view(ptv.order@, now), capture_view(settled_event(ptv), now)].push(
                analytics_capture(user@, amount, now),
            ) =~= seq![
                attempt_view(ptv.order@, now),
                success_view(ptv.order@, now),
                capture_view(settled_event(ptv), now),
                analytics_capture(user@, amount, now),
            ]);
        }
        let ghost outbox4 = p.outbox@;
        let result = UserManager::record_activity(&mut p.users, &mut p.outbox, now, &user, operation, amount);
        proof {
            let n = p0.outbox@.len() as int;
            assert(p.outbox@.subrange(0, n) =~= p0.outbox@);
            assert(outbox4.subrange(0, n) =~= p0.outbox@);
            assert(p.outbox@[n] == outbox4[n]);
            assert(p.outbox@[n + 1] == outbox4[n + 1]);
            assert(p.outbox@[n + 2] == outbox4[n + 2]);
            assert(p.outbox@[n + 3] == outbox4[n + 3]);
        }
        ReentrancyGuard::exit(p);
        result
    }
}

} // verus!
