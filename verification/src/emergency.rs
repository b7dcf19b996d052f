//! Emergency controls: pause and recovery modes, queued parameter updates
//! and the emergency fund.
use vstd::prelude::*;
use crate::errors::ProtocolError;
use crate::users::{OperationKind, is_admin, spec_require_admin};
use crate::events::{ProtocolEvent, Notice, EventRecordView, capture_view, text};
use crate::interest::InterestRateConfig;
use crate::state::{Protocol, ProtocolConfig};

verus! {

/// Emergency lifecycle states of the protocol.
#[derive(Clone, Copy, Debug, PartialEq, Eq, Structural)]
pub enum EmergencyStatus {
    Operational,
    Paused,
    Recovery,
}

/// A parameter update queued for application during emergency handling.
pub struct EmergencyParamUpdate {
    pub key: String,
    pub value: i128,
    pub queued_by: String,
    pub queued_at: u64,
}

impl EmergencyParamUpdate {
    /// An update queued at `now`.
    pub fn new(now: u64, key: String, value: i128, queued_by: String) -> (u: Self)
        ensures
            u == (EmergencyParamUpdate { key, value, queued_by, queued_at: now }),
    {
        EmergencyParamUpdate { key, value, queued_by, queued_at: now }
    }
}

/// The protocol's emergency fund.
#[derive(Debug)]
pub struct EmergencyFund {
    pub balance: i128,
    pub reserved: i128,
    pub token: Option<String>,
    pub last_update: u64,
}

impl EmergencyFund {
    /// An empty fund.
    pub fn initial(now: u64) -> (f: Self)
        ensures
            f == (EmergencyFund { balance: 0, reserved: 0, token: None, last_update: now }),
    {
        EmergencyFund { balance: 0, reserved: 0, token: None, last_update: now }
    }

    /// Reserved funds never exceed the balance, and neither is negative.
    pub open spec fn consistent(&self) -> bool {
        0 <= self.reserved <= self.balance
    }
}

/// Emergency state tracked on-chain.
pub struct EmergencyState {
    pub status: EmergencyStatus,
    pub paused_by: Option<String>,
    pub paused_at: u64,
    pub reason: Option<String>,
    pub recovery_plan: Option<String>,
    pub recovery_steps: Vec<String>,
    pub last_recovery_update: u64,
    pub emergency_managers: Vec<String>,
    pub pending_param_updates: Vec<EmergencyParamUpdate>,
    pub fund: EmergencyFund,
}

impl EmergencyState {
    /// Operational, with no managers, steps, pending updates or funds.
    pub fn default(now: u64) -> (s: Self)
        ensures
            s.status == EmergencyStatus::Operational,
            s.paused_by.is_none(),
            s.paused_at == 0,
            s.reason.is_none(),
            s.recovery_plan.is_none(),
            s.recovery_steps@.len() == 0,
            s.last_recovery_update == 0,
            s.emergency_managers@.len() == 0,
            s.pending_param_updates@.len() == 0,
            s.fund == (EmergencyFund { balance: 0, reserved: 0, token: None, last_update: now }),
    {
        EmergencyState {
            status: EmergencyStatus::Operational,
            paused_by: None,
            paused_at: 0,
            reason: None,
            recovery_plan: None,
            recovery_steps: Vec::new(),
            last_recovery_update: 0,
            emergency_managers: Vec::new(),
            pending_param_updates: Vec::new(),
            fund: EmergencyFund::initial(now),
        }
    }
}

impl EmergencyParamUpdate {
    pub fn clone_update(&self) -> (r: Self)
        ensures
            r == *self,
    {
        EmergencyParamUpdate {
            key: self.key.clone(),
            value: self.value,
            queued_by: self.queued_by.clone(),
            queued_at: self.queued_at,
        }
    }
}

impl EmergencyState {
    /// A copy of the state.
    pub fn clone_state(&self) -> (r: Self)
        ensures
            r.status == self.status,
            r.paused_by == self.paused_by,
            r.paused_at == self.paused_at,
            r.reason == self.reason,
            r.recovery_plan == self.recovery_plan,
            r.recovery_steps@ == self.recovery_steps@,
            r.last_recovery_update == self.last_recovery_update,
            r.emergency_managers@ == self.emergency_managers@,
            r.pending_param_updates@ == self.pending_param_updates@,
            r.fund == self.fund,
    {
        let mut steps: Vec<String> = Vec::new();
        let mut i: usize = 0;
        while i < self.recovery_steps.len()
            invariant
                i <= self.recovery_steps@.len(),
                steps@ == self.recovery_steps@.subrange(0, i as int),
            decreases self.recovery_steps@.len() - i,
        {
            steps.push(self.recovery_steps[i].clone());
            proof {
                assert(steps@ =~= self.recovery_steps@.subrange(0, i + 1));
            }
            i = i + 1;
        }
        let mut managers: Vec<String> = Vec::new();
        let mut j: usize = 0;
        while j < self.emergency_managers.len()
            invariant
                j <= self.emergency_managers@.len(),
                managers@ == self.emergency_managers@.subrange(0, j as int),
            decreases self.emergency_managers@.len() - j,
        {
            managers.push(self.emergency_managers[j].clone());
            proof {
                assert(managers@ =~= self.emergency_managers@.subrange(0, j + 1));
            }
            j = j + 1;
        }
        let mut updates: Vec<EmergencyParamUpdate> = Vec::new();
        let mut k: usize = 0;
        while k < self.pending_param_updates.len()
            invariant
                k <= self.pending_param_updates@.len(),
                updates@ == self.pending_param_updates@.subrange(0, k as int),
            decreases self.pending_param_updates@.len() - k,
        {
            updates.push(self.pending_param_updates[k].clone_update());
            proof {
                assert(updates@ =~= self.pending_param_updates@.subrange(0, k + 1));
            }
            k = k + 1;
        }
        proof {
            assert(steps@ =~= self.recovery_steps@);
            assert(managers@ =~= self.emergency_managers@);
            assert(updates@ =~= self.pending_param_updates@);
        }
        EmergencyState {
            status: self.status,
            paused_by: crate::events::clone_opt_exact(&self.paused_by),
            paused_at: self.paused_at,
            reason: crate::events::clone_opt_exact(&self.reason),
            recovery_plan: crate::events::clone_opt_exact(&self.recovery_plan),
            recovery_steps: steps,
            last_recovery_update: self.last_recovery_update,
            emergency_managers: managers,
            pending_param_updates: updates,
            fund: EmergencyFund {
                balance: self.fund.balance,
                reserved: self.fund.reserved,
                token: crate::events::clone_opt_exact(&self.fund.token),
                last_update: self.fund.last_update,
            },
        }
    }
}

/// Whether an operation may run in an emergency status: everything while
/// operational; only admin and governance while paused; additionally repay
/// and deposit while recovering.
pub open spec fn spec_emergency_allows(status: EmergencyStatus, operation: OperationKind) -> Result<
    (),
    ProtocolError,
> {
    match status {
        EmergencyStatus::Operational => Ok(()),
        EmergencyStatus::Paused => if operation == OperationKind::Admin || operation
            == OperationKind::Governance {
            Ok(())
        } else {
            Err(ProtocolError::ProtocolPaused)
        },
        EmergencyStatus::Recovery => if operation == OperationKind::Repay || operation
            == OperationKind::Deposit || operation == OperationKind::Governance || operation
            == OperationKind::Admin {
            Ok(())
        } else {
            Err(ProtocolError::RecoveryModeRestricted)
        },
    }
}

pub open spec fn texts_of(v: Seq<String>) -> Seq<Seq<char>> {
    v.map_values(|s: String| s@)
}

/// The manager list after enabling or disabling `manager`: enabling appends
/// it when absent, disabling removes every occurrence.
pub open spec fn spec_managers_after(managers: Seq<Seq<char>>, manager: Seq<char>, enabled: bool) -> Seq<
    Seq<char>,
> {
    if enabled {
        if managers.contains(manager) {
            managers
        } else {
            managers.push(manager)
        }
    } else {
        managers.filter(|m: Seq<char>| m != manager)
    }
}

/// Emergency management: authorization and flow controls.
pub struct EmergencyManager;

impl EmergencyManager {
    /// The configured admin or a registered emergency manager.
    pub open spec fn spec_authorized(admin: Option<String>, managers: Seq<String>, caller: String) -> bool {
        crate::users::is_admin(admin, caller) || texts_of(managers).contains(caller@)
    }

    pub fn is_authorized(admin: &Option<String>, state: &EmergencyState, caller: &String) -> (b: bool)
        ensures
            b == EmergencyManager::spec_authorized(*admin, state.emergency_managers@, *caller),
    {
        if let Some(a) = admin {
            if a.eq(caller) {
                return true;
            }
        }
        let managers = &state.emergency_managers;
        let mut idx: usize = 0;
        while idx < managers.len()
            invariant
                idx <= managers@.len(),
                managers@ == state.emergency_managers@,
                !crate::users::is_admin(*admin, *caller),
                forall|j: int| 0 <= j < idx ==> #[trigger] managers@[j]@ != caller@,
            decreases managers@.len() - idx,
        {
            if managers[idx].eq(caller) {
                assert(texts_of(managers@)[idx as int] == caller@);
                return true;
            }
            idx = idx + 1;
        }
        assert(!texts_of(managers@).contains(caller@)) by {
            if texts_of(managers@).contains(caller@) {
                let j = choose|j: int| 0 <= j < texts_of(managers@).len() && texts_of(managers@)[j] == caller@;
                assert(managers@[j]@ == caller@);
            }
        }
        false
    }

    pub fn ensure_authorized(admin: &Option<String>, state: &EmergencyState, caller: &String) -> (r: Result<
        (),
        ProtocolError,
    >)
        ensures
            r == (if EmergencyManager::spec_authorized(*admin, state.emergency_managers@, *caller) {
                Ok::<(), ProtocolError>(())
            } else {
                Err(ProtocolError::Unauthorized)
            }),
    {
        if Self::is_authorized(admin, state, caller) {
            Ok(())
        } else {
            Err(ProtocolError::Unauthorized)
        }
    }

    /// Whether `operation` may run under the current emergency status.
    pub fn ensure_operation_allowed(state: &EmergencyState, operation: OperationKind) -> (r: Result<
        (),
        ProtocolError,
    >)
        ensures
            r == spec_emergency_allows(state.status, operation),
    {
        match state.status {
            EmergencyStatus::Operational => Ok(()),
            EmergencyStatus::Paused => match operation {
                OperationKind::Admin | OperationKind::Governance => Ok(()),
                _ => Err(ProtocolError::ProtocolPaused),
            },
            EmergencyStatus::Recovery => match operation {
                OperationKind::Repay
                | OperationKind::Deposit
                | OperationKind::Governance
                | OperationKind::Admin => Ok(()),
                _ => Err(ProtocolError::RecoveryModeRestricted),
            },
        }
    }

    /// The manager list with `manager` enabled or disabled.
    pub fn updated_managers(managers: &Vec<String>, manager: &String, enabled: bool) -> (r: Vec<String>)
        ensures
            texts_of(r@) == spec_managers_after(texts_of(managers@), manager@, enabled),
    {
        let mut updated: Vec<String> = Vec::new();
        let mut exists = false;
        let mut idx: usize = 0;
        while idx < managers.len()
            invariant
                idx <= managers@.len(),
                exists == texts_of(managers@).subrange(0, idx as int).contains(manager@),
                texts_of(updated@) == (if enabled {
                    texts_of(managers@).subrange(0, idx as int)
                } else {
                    texts_of(managers@).subrange(0, idx as int).filter(|m: Seq<char>| m != manager@)
                }),
            decreases managers@.len() - idx,
        {
            let entry = managers[idx].clone();
            let ghost prefix = texts_of(managers@).subrange(0, idx as int);
            let ghost next = texts_of(managers@).subrange(0, idx + 1);
            proof {
                assert(next =~= prefix.push(entry@));
                reveal(Seq::filter);
                assert(prefix.push(entry@).filter(|m: Seq<char>| m != manager@) =~= (if entry@ != manager@ {
                    prefix.filter(|m: Seq<char>| m != manager@).push(entry@)
                } else {
                    prefix.filter(|m: Seq<char>| m != manager@)
                })) by {
                    assert(prefix.push(entry@).drop_last() =~= prefix);
                }
                assert(next.contains(manager@) == (prefix.contains(manager@) || entry@ == manager@)) by {
                    if next.contains(manager@) {
                        let j = choose|j: int| 0 <= j < next.len() && next[j] == manager@;
                        if j < prefix.len() {
                            assert(prefix[j] == manager@);
                        }
                    }
                    if prefix.contains(manager@) {
                        let j = choose|j: int| 0 <= j < prefix.len() && prefix[j] == manager@;
                        assert(next[j] == manager@);
                    }
                    if entry@ == manager@ {
                        assert(next[idx as int] == manager@);
                    }
                }
            }
            if entry.eq(manager) {
                exists = true;
                if enabled {
                    updated.push(entry);
                }
            } else {
                updated.push(entry);
            }
            proof {
                assert(texts_of(updated@) =~= (if enabled {
                    next
                } else {
                    next.filter(|m: Seq<char>| m != manager@)
                }));
            }
            idx = idx + 1;
        }
        proof {
            assert(texts_of(managers@).subrange(0, managers@.len() as int) =~= texts_of(managers@));
        }
        if enabled && !exists {
            updated.push(manager.clone());
            proof {
                assert(texts_of(updated@) =~= texts_of(managers@).push(manager@));
            }
        }
        updated
    }

    /// The fund after adjusting the balance by `delta` and the reserve by
    /// `reserve_delta`, if the result stays consistent.
    pub open spec fn spec_adjusted_fund(fund: EmergencyFund, token: Option<String>, delta: i128, reserve_delta: i128, now: u64) -> Result<EmergencyFund, ProtocolError> {
        let balance = fund.balance + delta;
        let reserved = fund.reserved + reserve_delta;
        if balance < 0 {
            Err(ProtocolError::EmergencyFundInsufficient)
        } else if reserved < 0 || reserved > balance {
            Err(ProtocolError::EmergencyFundInsufficient)
        } else {
            Ok(EmergencyFund {
                balance: balance as i128,
                reserved: reserved as i128,
                token: if token.is_some() { token } else { fund.token },
                last_update: now,
            })
        }
    }

    /// Applies a fund adjustment (the arithmetic must not overflow).
    pub fn adjusted_fund(fund: EmergencyFund, token: Option<String>, delta: i128, reserve_delta: i128, now: u64) -> (r: Result<EmergencyFund, ProtocolError>)
        requires
            i128::MIN <= fund.balance + delta <= i128::MAX,
            fund.balance + delta >= 0 ==> i128::MIN <= fund.reserved + reserve_delta <= i128::MAX,
        ensures
            r == EmergencyManager::spec_adjusted_fund(fund, token, delta, reserve_delta, now),
    {
        let mut fund = fund;
        let new_balance = fund.balance + delta;
        if new_balance < 0 {
            return Err(ProtocolError::EmergencyFundInsufficient);
        }
        let new_reserved = fund.reserved + reserve_delta;
        if new_reserved < 0 || new_reserved > new_balance {
            return Err(ProtocolError::EmergencyFundInsufficient);
        }
        if token.is_some() {
            fund.token = token;
        }
        fund.balance = new_balance;
        fund.reserved = new_reserved;
        fund.last_update = now;
        Ok(fund)
    }
}

/// The settings an emergency parameter update can change: the minimum
/// collateral ratio, the interest rate model and the flash loan fee.
#[derive(Clone, Copy)]
pub struct ParamSettings {
    pub min_collateral_ratio: Option<i128>,
    pub interest_config: InterestRateConfig,
    pub flash_loan_fee_bps: Option<i128>,
}

/// The settings of the protocol.
pub open spec fn settings_of(p: &Protocol) -> ParamSettings {
    ParamSettings {
        min_collateral_ratio: p.min_collateral_ratio,
        interest_config: p.interest_config,
        flash_loan_fee_bps: p.flash_loan_fee_bps,
    }
}

/// The settings after applying one update: a known key sets its parameter
/// (the ratio must be positive and the fee within 0..=10000 bps, both need
/// a configured admin); an unknown key fails.
pub open spec fn spec_apply_update(s: ParamSettings, admin: Option<String>, key: Seq<char>, value: i128) -> Result<
    ParamSettings,
    ProtocolError,
> {
    let c = s.interest_config;
    if key == "min_collateral_ratio"@ {
        if admin is None {
            Err(ProtocolError::ConfigurationError)
        } else if value <= 0 {
            Err(ProtocolError::InvalidInput)
        } else {
            Ok(ParamSettings { min_collateral_ratio: Some(value), ..s })
        }
    } else if key == "reserve_factor"@ {
        Ok(ParamSettings { interest_config: InterestRateConfig { reserve_factor: value, ..c }, ..s })
    } else if key == "base_rate"@ {
        Ok(ParamSettings { interest_config: InterestRateConfig { base_rate: value, ..c }, ..s })
    } else if key == "kink_utilization"@ {
        Ok(ParamSettings { interest_config: InterestRateConfig { kink_utilization: value, ..c }, ..s })
    } else if key == "multiplier"@ {
        Ok(ParamSettings { interest_config: InterestRateConfig { multiplier: value, ..c }, ..s })
    } else if key == "rate_ceiling"@ {
        Ok(ParamSettings { interest_config: InterestRateConfig { rate_ceiling: value, ..c }, ..s })
    } else if key == "rate_floor"@ {
        Ok(ParamSettings { interest_config: InterestRateConfig { rate_floor: value, ..c }, ..s })
    } else if key == "flash_fee_bps"@ {
        if admin is None {
            Err(ProtocolError::ConfigurationError)
        } else if !(0 <= value <= 10000) {
            Err(ProtocolError::InvalidInput)
        } else {
            Ok(ParamSettings { flash_loan_fee_bps: Some(value), ..s })
        }
    } else {
        Err(ProtocolError::InvalidParameters)
    }
}

/// Applying the updates from index `i` on, in order, stopping at the first
/// failure: the settings reached, how many updates were applied in all,
/// and the outcome.
pub open spec fn spec_apply_from(
    s: ParamSettings,
    admin: Option<String>,
    us: Seq<EmergencyParamUpdate>,
    i: int,
) -> (ParamSettings, int, Result<(), ProtocolError>)
    decreases us.len() - i,
{
    if i < 0 || i >= us.len() {
        (s, i, Ok(()))
    } else {
        match spec_apply_update(s, admin, us[i].key@, us[i].value) {
            Err(e) => (s, i, Err(e)),
            Ok(s1) => spec_apply_from(s1, admin, us, i + 1),
        }
    }
}

/// The records of the `EmergencyParamUpdateApplied` events of the first `n` updates.
pub open spec fn applied_records(us: Seq<EmergencyParamUpdate>, n: int, now: u64) -> Seq<EventRecordView> {
    Seq::new(n as nat, |j: int| capture_view(ProtocolEvent::EmergencyParamUpdateApplied(us[j].key, us[j].value), now))
}

/// The notices of the `EmergencyParamUpdateApplied` events of the first `n` updates.
pub open spec fn applied_notices(us: Seq<EmergencyParamUpdate>, n: int) -> Seq<Notice> {
    Seq::new(n as nat, |j: int| Notice::Event(ProtocolEvent::EmergencyParamUpdateApplied(us[j].key, us[j].value)))
}

/// `after` is `before` with one event emitted and nothing else changed.
pub open spec fn emitted(before: &Protocol, after: &Protocol, ev: ProtocolEvent) -> bool {
    &&& before.events.appended(after.events, capture_view(ev, before.now))
    &&& after.outbox@ == before.outbox@.push(Notice::Event(ev))
}

impl EmergencyManager {
    /// Enables or disables an emergency manager (admin only); emits
    /// `EmergencyManagerUpdated`.
    pub fn set_manager(p: &mut Protocol, caller: &String, manager: &String, enabled: bool) -> (r: Result<(), ProtocolError>)
        requires
            old(p).wf(),
        ensures
            final(p).wf(),
            r == spec_require_admin(old(p).admin, *caller),
            r is Err ==> *final(p) == *old(p),
            r is Ok ==> {
                &&& texts_of(final(p).emergency.emergency_managers@) == spec_managers_after(
                    texts_of(old(p).emergency.emergency_managers@),
                    manager@,
                    enabled,
                )
                &&& emitted(old(p), final(p), ProtocolEvent::EmergencyManagerUpdated(*manager, enabled))
                &&& *final(p) == (Protocol {
                    emergency: EmergencyState {
                        emergency_managers: final(p).emergency.emergency_managers,
                        ..old(p).emergency
                    },
                    events: final(p).events,
                    outbox: final(p).outbox,
                    ..*old(p)
                })
            },
    {
        ProtocolConfig::require_admin(p, caller)?;
        let updated = Self::updated_managers(&p.emergency.emergency_managers, manager, enabled);
        p.emergency.emergency_managers = updated;
        let now = p.now;
        ProtocolEvent::EmergencyManagerUpdated(manager.clone(), enabled).emit(&mut p.events, &mut p.outbox, now);
        Ok(())
    }

    /// Pauses the protocol (admin or manager), recording who, when and why;
    /// emits `EmergencyStatusChanged`.
    pub fn pause(p: &mut Protocol, caller: &String, reason: Option<String>) -> (r: Result<(), ProtocolError>)
        requires
            old(p).wf(),
        ensures
            final(p).wf(),
            r == (if EmergencyManager::spec_authorized(old(p).admin, old(p).emergency.emergency_managers@, *caller) {
                Ok::<(), ProtocolError>(())
            } else {
                Err(ProtocolError::Unauthorized)
            }),
            r is Err ==> *final(p) == *old(p),
            r is Ok ==> {
                let ev = final(p).outbox@.last()->Event_0;
                &&& ev matches ProtocolEvent::EmergencyStatusChanged(st, why) && st@ == "paused"@ && why == reason
                &&& emitted(old(p), final(p), ev)
                &&& *final(p) == (Protocol {
                    emergency: EmergencyState {
                        status: EmergencyStatus::Paused,
                        paused_by: Some(*caller),
                        paused_at: old(p).now,
                        reason,
                        ..old(p).emergency
                    },
                    events: final(p).events,
                    outbox: final(p).outbox,
                    ..*old(p)
                })
            },
    {
        Self::ensure_authorized(&p.admin, &p.emergency, caller)?;
        let now = p.now;
        let ev = ProtocolEvent::EmergencyStatusChanged(text("paused"), crate::events::clone_opt_exact(&reason));
        p.emergency.status = EmergencyStatus::Paused;
        p.emergency.paused_by = Some(caller.clone());
        p.emergency.paused_at = now;
        p.emergency.reason = reason;
        ev.emit(&mut p.events, &mut p.outbox, now);
        Ok(())
    }

    /// Enters recovery mode with an optional plan (admin or manager); emits
    /// `EmergencyStatusChanged`.
    pub fn enter_recovery(p: &mut Protocol, caller: &String, plan: Option<String>) -> (r: Result<(), ProtocolError>)
        requires
            old(p).wf(),
        ensures
            final(p).wf(),
            r == (if EmergencyManager::spec_authorized(old(p).admin, old(p).emergency.emergency_managers@, *caller) {
                Ok::<(), ProtocolError>(())
            } else {
                Err(ProtocolError::Unauthorized)
            }),
            r is Err ==> *final(p) == *old(p),
            r is Ok ==> {
                let ev = final(p).outbox@.last()->Event_0;
                &&& ev matches ProtocolEvent::EmergencyStatusChanged(st, why) && st@ == "recovery"@ && why == plan
                &&& emitted(old(p), final(p), ev)
                &&& *final(p) == (Protocol {
                    emergency: EmergencyState {
                        status: EmergencyStatus::Recovery,
                        recovery_plan: plan,
                        last_recovery_update: old(p).now,
                        ..old(p).emergency
                    },
                    events: final(p).events,
                    outbox: final(p).outbox,
                    ..*old(p)
                })
            },
    {
        Self::ensure_authorized(&p.admin, &p.emergency, caller)?;
        let now = p.now;
        let ev = ProtocolEvent::EmergencyStatusChanged(text("recovery"), crate::events::clone_opt_exact(&plan));
        p.emergency.status = EmergencyStatus::Recovery;
        p.emergency.recovery_plan = plan;
        p.emergency.last_recovery_update = now;
        ev.emit(&mut p.events, &mut p.outbox, now);
        Ok(())
    }

    /// Returns to normal operation (admin or manager), clearing the reason
    /// and the plan; emits `EmergencyStatusChanged`.
    pub fn resume(p: &mut Protocol, caller: &String) -> (r: Result<(), ProtocolError>)
        requires
            old(p).wf(),
        ensures
            final(p).wf(),
            r == (if EmergencyManager::spec_authorized(old(p).admin, old(p).emergency.emergency_managers@, *caller) {
                Ok::<(), ProtocolError>(())
            } else {
                Err(ProtocolError::Unauthorized)
            }),
            r is Err ==> *final(p) == *old(p),
            r is Ok ==> {
                let ev = final(p).outbox@.last()->Event_0;
                &&& ev matches ProtocolEvent::EmergencyStatusChanged(st, why) && st@ == "operational"@ && why is None
                &&& emitted(old(p), final(p), ev)
                &&& *final(p) == (Protocol {
                    emergency: EmergencyState {
                        status: EmergencyStatus::Operational,
                        reason: None,
                        recovery_plan: None,
                        last_recovery_update: old(p).now,
                        ..old(p).emergency
                    },
                    events: final(p).events,
                    outbox: final(p).outbox,
                    ..*old(p)
                })
            },
    {
        Self::ensure_authorized(&p.admin, &p.emergency, caller)?;
        let now = p.now;
        p.emergency.status = EmergencyStatus::Operational;
        p.emergency.reason = None;
        p.emergency.recovery_plan = None;
        p.emergency.last_recovery_update = now;
        ProtocolEvent::EmergencyStatusChanged(text("operational"), None).emit(&mut p.events, &mut p.outbox, now);
        Ok(())
    }

    /// Records a recovery step (admin or manager); emits `EmergencyRecoveryStep`.
    pub fn record_recovery_step(p: &mut Protocol, caller: &String, step: String) -> (r: Result<(), ProtocolError>)
        requires
            old(p).wf(),
        ensures
            final(p).wf(),
            r == (if EmergencyManager::spec_authorized(old(p).admin, old(p).emergency.emergency_managers@, *caller) {
                Ok::<(), ProtocolError>(())
            } else {
                Err(ProtocolError::Unauthorized)
            }),
            r is Err ==> *final(p) == *old(p),
            r is Ok ==> {
                &&& final(p).emergency.recovery_steps@ == old(p).emergency.recovery_steps@.push(step)
                &&& emitted(old(p), final(p), ProtocolEvent::EmergencyRecoveryStep(step))
                &&& *final(p) == (Protocol {
                    emergency: EmergencyState {
                        recovery_steps: final(p).emergency.recovery_steps,
                        last_recovery_update: old(p).now,
                        ..old(p).emergency
                    },
                    events: final(p).events,
                    outbox: final(p).outbox,
                    ..*old(p)
                })
            },
    {
        Self::ensure_authorized(&p.admin, &p.emergency, caller)?;
        let now = p.now;
        let ev = ProtocolEvent::EmergencyRecoveryStep(step.clone());
        p.emergency.recovery_steps.push(step);
        p.emergency.last_recovery_update = now;
        ev.emit(&mut p.events, &mut p.outbox, now);
        Ok(())
    }

    /// Queues a parameter update (admin or manager); emits
    /// `EmergencyParamUpdateQueued`.
    pub fn queue_param_update(p: &mut Protocol, caller: &String, key: String, value: i128) -> (r: Result<
        (),
        ProtocolError,
    >)
        requires
            old(p).wf(),
        ensures
            final(p).wf(),
            r == (if EmergencyManager::spec_authorized(old(p).admin, old(p).emergency.emergency_managers@, *caller) {
                Ok::<(), ProtocolError>(())
            } else {
                Err(ProtocolError::Unauthorized)
            }),
            r is Err ==> *final(p) == *old(p),
            r is Ok ==> {
                &&& final(p).emergency.pending_param_updates@ == old(p).emergency.pending_param_updates@.push(
                    EmergencyParamUpdate { key, value, queued_by: *caller, queued_at: old(p).now },
                )
                &&& emitted(old(p), final(p), ProtocolEvent::EmergencyParamUpdateQueued(key, value))
                &&& *final(p) == (Protocol {
                    emergency: EmergencyState {
                        pending_param_updates: final(p).emergency.pending_param_updates,
                        ..old(p).emergency
                    },
                    events: final(p).events,
                    outbox: final(p).outbox,
                    ..*old(p)
                })
            },
    {
        Self::ensure_authorized(&p.admin, &p.emergency, caller)?;
        let now = p.now;
        let ev = ProtocolEvent::EmergencyParamUpdateQueued(key.clone(), value);
        p.emergency.pending_param_updates.push(EmergencyParamUpdate::new(now, key, value, caller.clone()));
        ev.emit(&mut p.events, &mut p.outbox, now);
        Ok(())
    }

    /// The settings after one queued update (nothing is stored).
    fn apply_single_update(settings: ParamSettings, admin: &Option<String>, key: &String, value: i128) -> (r: Result<
        ParamSettings,
        ProtocolError,
    >)
        ensures
            r == spec_apply_update(settings, *admin, key@, value),
    {
        proof {
            reveal_strlit("min_collateral_ratio");
            reveal_strlit("reserve_factor");
            reveal_strlit("base_rate");
            reveal_strlit("kink_utilization");
            reveal_strlit("multiplier");
            reveal_strlit("rate_ceiling");
            reveal_strlit("rate_floor");
            reveal_strlit("flash_fee_bps");
        }
        if key.eq(&text("min_collateral_ratio")) {
            if admin.is_none() {
                return Err(ProtocolError::ConfigurationError);
            }
            if value <= 0 {
                return Err(ProtocolError::InvalidInput);
            }
            return Ok(ParamSettings { min_collateral_ratio: Some(value), ..settings });
        }
        let mut config = settings.interest_config;
        if key.eq(&text("reserve_factor")) {
            config.reserve_factor = value;
        } else if key.eq(&text("base_rate")) {
            config.base_rate = value;
        } else if key.eq(&text("kink_utilization")) {
            config.kink_utilization = value;
        } else if key.eq(&text("multiplier")) {
            config.multiplier = value;
        } else if key.eq(&text("rate_ceiling")) {
            config.rate_ceiling = value;
        } else if key.eq(&text("rate_floor")) {
            config.rate_floor = value;
        } else if key.eq(&text("flash_fee_bps")) {
            if admin.is_none() {
                return Err(ProtocolError::ConfigurationError);
            }
            if !(0 <= value && value <= 10000) {
                return Err(ProtocolError::InvalidInput);
            }
            return Ok(ParamSettings { flash_loan_fee_bps: Some(value), ..settings });
        } else {
            return Err(ProtocolError::InvalidParameters);
        }
        Ok(ParamSettings { interest_config: config, ..settings })
    }

    /// Applies the queued updates in order (admin or manager), emitting
    /// `EmergencyParamUpdateApplied` for each, and empties the queue. When
    /// an update fails the call is refused and nothing changes.
    pub fn apply_param_updates(p: &mut Protocol, caller: &String) -> (r: Result<(), ProtocolError>)
        requires
            old(p).wf(),
        ensures
            final(p).wf(),
            !EmergencyManager::spec_authorized(old(p).admin, old(p).emergency.emergency_managers@, *caller) ==> r
                == Err::<(), ProtocolError>(ProtocolError::Unauthorized) && *final(p) == *old(p),
            EmergencyManager::spec_authorized(old(p).admin, old(p).emergency.emergency_managers@, *caller) ==> {
                let us = old(p).emergency.pending_param_updates@;
                let res = spec_apply_from(settings_of(old(p)), old(p).admin, us, 0);
                &&& r == res.2
                &&& r is Err ==> *final(p) == *old(p)
                &&& r is Ok ==> {
                    &&& settings_of(final(p)) == res.0
                    &&& old(p).events.appended_all(final(p).events, applied_records(us, us.len() as int, old(p).now))
                    &&& final(p).outbox@ == old(p).outbox@ + applied_notices(us, us.len() as int)
                    &&& final(p).emergency.pending_param_updates@ == Seq::<EmergencyParamUpdate>::empty()
                    &&& *final(p) == (Protocol {
                        min_collateral_ratio: final(p).min_collateral_ratio,
                        interest_config: final(p).interest_config,
                        flash_loan_fee_bps: final(p).flash_loan_fee_bps,
                        emergency: EmergencyState {
                            pending_param_updates: final(p).emergency.pending_param_updates,
                            ..old(p).emergency
                        },
                        events: final(p).events,
                        outbox: final(p).outbox,
                        ..*old(p)
                    })
                }
            },
    {
        Self::ensure_authorized(&p.admin, &p.emergency, caller)?;
        let ghost p0 = *p;
        let ghost us = p.emergency.pending_param_updates@;
        let n = p.emergency.pending_param_updates.len();
        let mut settings = ParamSettings {
            min_collateral_ratio: p.min_collateral_ratio,
            interest_config: p.interest_config,
            flash_loan_fee_bps: p.flash_loan_fee_bps,
        };
        let mut idx: usize = 0;
        while idx < n
            invariant
                p0 == *old(p),
                p0.wf(),
                EmergencyManager::spec_authorized(p0.admin, p0.emergency.emergency_managers@, *caller),
                *p == p0,
                n == us.len(),
                idx <= n,
                p.emergency.pending_param_updates@ == us,
                spec_apply_from(settings, p0.admin, us, idx as int) == spec_apply_from(settings_of(&p0), p0.admin, us, 0),
            decreases n - idx,
        {
            let next = Self::apply_single_update(
                settings,
                &p.admin,
                &p.emergency.pending_param_updates[idx].key,
                p.emergency.pending_param_updates[idx].value,
            );
            match next {
                Ok(s) => {
                    settings = s;
                },
                Err(e) => {
                    return Err(e);
                },
            }
            idx = idx + 1;
        }
        p.min_collateral_ratio = settings.min_collateral_ratio;
        p.interest_config = settings.interest_config;
        p.flash_loan_fee_bps = settings.flash_loan_fee_bps;
        let ghost p1 = *p;
        let mut k: usize = 0;
        proof {
            p0.events.lemma_appended_all_empty();
            assert(applied_records(us, 0, p0.now) =~= Seq::<EventRecordView>::empty());
            assert(p.outbox@ =~= p0.outbox@ + applied_notices(us, 0));
        }
        while k < n
            invariant
                p0.wf(),
                p.wf(),
                n == us.len(),
                k <= n,
                p.emergency.pending_param_updates@ == us,
                p.now == p0.now,
                p0.events.appended_all(p.events, applied_records(us, k as int, p0.now)),
                p.outbox@ == p0.outbox@ + applied_notices(us, k as int),
                *p == (Protocol { events: p.events, outbox: p.outbox, ..p1 }),
            decreases n - k,
        {
            let key = p.emergency.pending_param_updates[k].key.clone();
            let value = p.emergency.pending_param_updates[k].value;
            let ghost mid = p.events;
            let now = p.now;
            ProtocolEvent::EmergencyParamUpdateApplied(key, value).emit(&mut p.events, &mut p.outbox, now);
            proof {
                p0.events.lemma_appended_push(mid, p.events, applied_records(us, k as int, now), capture_view(
                    ProtocolEvent::EmergencyParamUpdateApplied(us[k as int].key, value),
                    now,
                ));
                assert(applied_records(us, k as int, now).push(capture_view(
                    ProtocolEvent::EmergencyParamUpdateApplied(us[k as int].key, value),
                    now,
                )) =~= applied_records(us, k + 1, now));
                assert(p.outbox@ =~= p0.outbox@ + applied_notices(us, k + 1));
            }
            k = k + 1;
        }
        p.emergency.pending_param_updates = Vec::new();
        proof {
            assert(p.emergency.pending_param_updates@ =~= Seq::<EmergencyParamUpdate>::empty());
        }
        Ok(())
    }

    /// Adjusts the emergency fund (admin or manager): the balance by
    /// `delta` and the reserve by `reserve_delta`, which must leave
    /// `0 <= reserved <= balance`; emits `EmergencyFundUpdated`.
    pub fn adjust_fund(p: &mut Protocol, caller: &String, token: Option<String>, delta: i128, reserve_delta: i128) -> (r:
        Result<(), ProtocolError>)
        requires
            old(p).wf(),
            EmergencyManager::spec_authorized(old(p).admin, old(p).emergency.emergency_managers@, *caller) ==> i128::MIN
                <= old(p).emergency.fund.balance + delta <= i128::MAX,
            EmergencyManager::spec_authorized(old(p).admin, old(p).emergency.emergency_managers@, *caller)
                && old(p).emergency.fund.balance + delta >= 0 ==> i128::MIN <= old(p).emergency.fund.reserved
                + reserve_delta <= i128::MAX,
        ensures
            final(p).wf(),
            !EmergencyManager::spec_authorized(old(p).admin, old(p).emergency.emergency_managers@, *caller) ==> r
                == Err::<(), ProtocolError>(ProtocolError::Unauthorized),
            EmergencyManager::spec_authorized(old(p).admin, old(p).emergency.emergency_managers@, *caller) ==> match EmergencyManager::spec_adjusted_fund(
                old(p).emergency.fund,
                token,
                delta,
                reserve_delta,
                old(p).now,
            ) {
                Err(e) => r == Err::<(), ProtocolError>(e),
                Ok(f) => r is Ok && emitted(old(p), final(p), ProtocolEvent::EmergencyFundUpdated(*caller, delta, reserve_delta))
                    && *final(p) == (Protocol {
                    emergency: EmergencyState { fund: f, ..old(p).emergency },
                    events: final(p).events,
                    outbox: final(p).outbox,
                    ..*old(p)
                }),
            },
            r is Err ==> *final(p) == *old(p),
    {
        Self::ensure_authorized(&p.admin, &p.emergency, caller)?;
        let now = p.now;
        let fund = EmergencyFund {
            balance: p.emergency.fund.balance,
            reserved: p.emergency.fund.reserved,
            token: crate::events::clone_opt_exact(&p.emergency.fund.token),
            last_update: p.emergency.fund.last_update,
        };
        let updated = Self::adjusted_fund(fund, token, delta, reserve_delta, now)?;
        p.emergency.fund = updated;
        ProtocolEvent::EmergencyFundUpdated(caller.clone(), delta, reserve_delta).emit(&mut p.events, &mut p.outbox, now);
        Ok(())
    }
}

} // verus!
