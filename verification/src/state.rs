//! The protocol's on-ledger state and its storage helpers.
use vstd::prelude::*;
use crate::analytics::AnalyticsState;
use crate::emergency::EmergencyState;
use crate::errors::ProtocolError;
use crate::events::{EventStore, Notice};
use crate::interest::{
    InterestRateConfig, InterestRateState, Position, RiskConfig, spec_updated_state, updated_state,
};
use crate::transfer::PendingTransfer;
use crate::amm::AMMState;
use crate::oracle::OracleState;
use crate::governance::GovState;
use crate::keyed::{Keyed, keys_unique, map_of, find_key, upsert, lemma_lookup_at};
use crate::users::{UserProfile, spec_require_admin, require_admin_of};

verus! {

/// A registered token asset.
pub struct TokenEntry {
    pub key: String,
    pub token: String,
}

impl Keyed for TokenEntry {
    type Key = String;

    type KeyView = Seq<char>;

    open spec fn key_view(&self) -> Seq<char> {
        self.key@
    }

    open spec fn view_of_key(k: &String) -> Seq<char> {
        k@
    }

    fn has_key_of(&self, k: &String) -> (b: bool) {
        self.key.eq(k)
    }

    fn key_copy(&self) -> (k: String) {
        self.key.clone()
    }
}

/// The contract's storage together with the ledger values it reads.
pub struct Protocol {
    /// The contract's own address.
    pub contract_address: String,
    /// The ledger timestamp of the current invocation.
    pub now: u64,
    pub admin: Option<String>,
    pub oracle_address: Option<String>,
    pub min_collateral_ratio: Option<i128>,
    pub flash_loan_fee_bps: Option<i128>,
    /// The reentrancy flag.
    pub reentrancy: bool,
    pub interest_config: InterestRateConfig,
    pub interest_state: InterestRateState,
    pub risk_config: RiskConfig,
    /// Positions, one per user.
    pub positions: Vec<Position>,
    pub users: Vec<UserProfile>,
    pub emergency: EmergencyState,
    pub tokens: Vec<TokenEntry>,
    pub events: EventStore,
    /// Notices awaiting publication by the host, oldest first.
    pub outbox: Vec<Notice>,
    pub analytics: AnalyticsState,
    pub amm: AMMState,
    pub oracle: OracleState,
    pub gov: GovState,
    /// A repayment or withdrawal waiting for its token transfer to settle.
    pub pending: Option<PendingTransfer>,
}

impl Protocol {
    /// The storage invariants: keyed collections hold each key once.
    pub open spec fn wf(&self) -> bool {
        &&& keys_unique(self.positions@)
        &&& keys_unique(self.users@)
        &&& keys_unique(self.tokens@)
        &&& self.events.wf()
        &&& self.analytics.wf()
        &&& self.amm.wf()
        &&& self.oracle.wf()
        &&& self.gov.wf()
    }

    /// Empty storage of a contract at `contract_address`, at time `now`.
    pub fn new(contract_address: String, now: u64) -> (p: Self)
        ensures
            p.wf(),
            p.contract_address == contract_address,
            p.now == now,
            p.admin.is_none(),
            p.min_collateral_ratio.is_none(),
            !p.reentrancy,
            p.interest_config == InterestRateConfig::spec_default(),
            p.interest_state == InterestRateState::spec_initial(),
            p.risk_config == RiskConfig::spec_default(),
            p.positions@.len() == 0,
            p.users@.len() == 0,
            p.outbox@.len() == 0,
            p.pending.is_none(),
            p.oracle_address.is_none(),
            p.flash_loan_fee_bps.is_none(),
            p.tokens@.len() == 0,
            p.emergency.status == crate::emergency::EmergencyStatus::Operational,
            p.emergency.emergency_managers@.len() == 0,
            p.emergency.pending_param_updates@.len() == 0,
            p.events.logs@.len() == 0 && p.events.aggregates@.len() == 0 && p.events.recent_types@.len() == 0,
            p.analytics.activity_log@.len() == 0 && p.analytics.user_analytics@.len() == 0,
            p.amm.pairs@.len() == 0 && p.amm.pair_count == 0 && p.amm.swap_history@.len() == 0,
            p.oracle.sources@.len() == 0 && p.oracle.price_cache@.len() == 0,
            p.gov.proposals@.len() == 0 && p.gov.counter == 0,
    {
        Protocol {
            contract_address,
            now,
            admin: None,
            oracle_address: None,
            min_collateral_ratio: None,
            flash_loan_fee_bps: None,
            reentrancy: false,
            interest_config: InterestRateConfig::default(),
            interest_state: InterestRateState::initial(),
            risk_config: RiskConfig::default(),
            positions: Vec::new(),
            users: Vec::new(),
            emergency: EmergencyState::default(now),
            tokens: Vec::new(),
            events: EventStore::new(),
            outbox: Vec::new(),
            analytics: AnalyticsState::new(),
            amm: AMMState::new(),
            oracle: OracleState::new(),
            gov: GovState::new(),
            pending: None,
        }
    }

    /// Advances the ledger clock.
    pub fn set_ledger_timestamp(&mut self, now: u64)
        ensures
            *final(self) == (Protocol { now, ..*old(self) }),
    {
        self.now = now;
    }

    /// The minimum collateral ratio in percent (150 until set).
    pub open spec fn spec_min_ratio(&self) -> i128 {
        match self.min_collateral_ratio {
            Some(r) => r,
            None => 150,
        }
    }

    /// The flash loan fee in bps (5 until set).
    pub open spec fn spec_flash_fee(&self) -> i128 {
        match self.flash_loan_fee_bps {
            Some(f) => f,
            None => 5,
        }
    }

    /// The stored position of `user`, if any.
    pub open spec fn position_of(&self, user: Seq<char>) -> Option<Position> {
        if map_of(self.positions@).contains_key(user) {
            Some(map_of(self.positions@)[user])
        } else {
            None
        }
    }
}

/// Collateral ratio in percent, `collateral * 100 / debt` (0 without debt).
pub open spec fn spec_ratio(collateral: int, debt: int) -> int {
    if debt > 0 {
        crate::math::tdiv(collateral * 100, debt)
    } else {
        0
    }
}

/// The ratio computation does not overflow.
pub open spec fn ratio_fits(collateral: int, debt: int) -> bool {
    debt > 0 ==> i128::MIN <= collateral * 100 <= i128::MAX
}

pub fn collateral_ratio(collateral: i128, debt: i128) -> (r: i128)
    requires
        ratio_fits(collateral as int, debt as int),
    ensures
        r == spec_ratio(collateral as int, debt as int),
{
    if debt > 0 {
        (collateral * 100) / debt
    } else {
        0
    }
}

/// The position of `user` with interest accrued at the freshly updated rates.
pub open spec fn accrued_position(p: &Protocol, user: String) -> Position {
    let st = spec_updated_state(p.interest_state, p.interest_config, p.now);
    crate::interest::spec_accrued(position_in(p, user), st.current_borrow_rate as int, st.current_supply_rate as int, p.now)
}

/// The stored position of `user`, or an empty one for a first access.
pub open spec fn position_in(p: &Protocol, user: String) -> Position {
    match p.position_of(user@) {
        Some(q) => q,
        None => Position {
            user,
            collateral: 0,
            debt: 0,
            borrow_interest: 0,
            supply_interest: 0,
            last_accrual_time: 0,
        },
    }
}

/// Protocol configuration.
pub struct ProtocolConfig;

impl ProtocolConfig {
    pub fn set_admin(p: &mut Protocol, admin: &String)
        ensures
            *final(p) == (Protocol { admin: Some(*admin), ..*old(p) }),
    {
        p.admin = Some(admin.clone());
    }

    pub fn get_admin(p: &Protocol) -> (a: Option<String>)
        ensures
            a == p.admin,
    {
        match &p.admin {
            Some(a) => Some(a.clone()),
            None => None,
        }
    }

    /// The caller must be the configured admin.
    pub fn require_admin(p: &Protocol, caller: &String) -> (r: Result<(), ProtocolError>)
        ensures
            r == spec_require_admin(p.admin, *caller),
    {
        require_admin_of(&p.admin, caller)
    }

    /// Sets the oracle address (admin only).
    pub fn set_oracle(p: &mut Protocol, caller: &String, oracle: &String) -> (r: Result<(), ProtocolError>)
        ensures
            r == spec_require_admin(old(p).admin, *caller),
            r is Ok ==> *final(p) == (Protocol { oracle_address: Some(*oracle), ..*old(p) }),
            r is Err ==> *final(p) == *old(p),
    {
        Self::require_admin(p, caller)?;
        p.oracle_address = Some(oracle.clone());
        Ok(())
    }

    /// Sets the minimum collateral ratio (admin only, positive).
    pub fn set_min_collateral_ratio(p: &mut Protocol, caller: &String, ratio: i128) -> (r: Result<(), ProtocolError>)
        ensures
            r == (match spec_require_admin(old(p).admin, *caller) {
                Err(e) => Err(e),
                Ok(_) => if ratio <= 0 {
                    Err(ProtocolError::InvalidInput)
                } else {
                    Ok(())
                },
            }),
            r is Ok ==> *final(p) == (Protocol { min_collateral_ratio: Some(ratio), ..*old(p) }),
            r is Err ==> *final(p) == *old(p),
    {
        Self::require_admin(p, caller)?;
        if ratio <= 0 {
            return Err(ProtocolError::InvalidInput);
        }
        p.min_collateral_ratio = Some(ratio);
        Ok(())
    }

    /// The minimum collateral ratio in percent (150 until set).
    pub fn get_min_collateral_ratio(p: &Protocol) -> (r: i128)
        ensures
            r == p.spec_min_ratio(),
    {
        match p.min_collateral_ratio {
            Some(r) => r,
            None => 150,
        }
    }

    /// Sets the flash loan fee (admin only, 0..=10000 bps).
    pub fn set_flash_loan_fee_bps(p: &mut Protocol, caller: &String, bps: i128) -> (r: Result<(), ProtocolError>)
        ensures
            r == (match spec_require_admin(old(p).admin, *caller) {
                Err(e) => Err(e),
                Ok(_) => if !(0 <= bps <= 10000) {
                    Err(ProtocolError::InvalidInput)
                } else {
                    Ok(())
                },
            }),
            r is Ok ==> *final(p) == (Protocol { flash_loan_fee_bps: Some(bps), ..*old(p) }),
            r is Err ==> *final(p) == *old(p),
    {
        Self::require_admin(p, caller)?;
        if !(0 <= bps && bps <= 10000) {
            return Err(ProtocolError::InvalidInput);
        }
        p.flash_loan_fee_bps = Some(bps);
        Ok(())
    }

    /// The flash loan fee in bps (5 until set).
    pub fn get_flash_loan_fee_bps(p: &Protocol) -> (r: i128)
        ensures
            r == p.spec_flash_fee(),
    {
        match p.flash_loan_fee_bps {
            Some(f) => f,
            None => 5,
        }
    }
}

/// Reentrancy guard.
pub struct ReentrancyGuard;

impl ReentrancyGuard {
    /// Fails while another protected operation runs; otherwise sets the flag.
    pub fn enter(p: &mut Protocol) -> (r: Result<(), ProtocolError>)
        ensures
            r == (if old(p).reentrancy {
                Err::<(), ProtocolError>(ProtocolError::ReentrancyDetected)
            } else {
                Ok(())
            }),
            *final(p) == (Protocol { reentrancy: true, ..*old(p) }),
    {
        if p.reentrancy {
            return Err(ProtocolError::ReentrancyDetected);
        }
        p.reentrancy = true;
        Ok(())
    }

    /// Clears the flag.
    pub fn exit(p: &mut Protocol)
        ensures
            *final(p) == (Protocol { reentrancy: false, ..*old(p) }),
    {
        p.reentrancy = false;
    }
}

/// State helper for user positions.
pub struct StateHelper;

impl StateHelper {
    /// Stores a position under its user.
    pub fn save_position(p: &mut Protocol, position: Position)
        requires
            old(p).wf(),
        ensures
            final(p).wf(),
            map_of(final(p).positions@) == map_of(old(p).positions@).insert(position.user@, position),
            *final(p) == (Protocol { positions: final(p).positions, ..*old(p) }),
    {
        upsert(&mut p.positions, position);
    }

    /// A copy of the stored position of `user`.
    pub fn get_position(p: &Protocol, user: &String) -> (r: Option<Position>)
        requires
            p.wf(),
        ensures
            r == p.position_of(user@),
    {
        match find_key(&p.positions, user) {
            Some(i) => {
                proof {
                    lemma_lookup_at(p.positions@, i as int);
                }
                let q = &p.positions[i];
                Some(
                    Position {
                        user: q.user.clone(),
                        collateral: q.collateral,
                        debt: q.debt,
                        borrow_interest: q.borrow_interest,
                        supply_interest: q.supply_interest,
                        last_accrual_time: q.last_accrual_time,
                    },
                )
            },
            None => None,
        }
    }
}

/// Storage helper for the risk configuration.
pub struct RiskConfigStorage;

impl RiskConfigStorage {
    pub fn save(p: &mut Protocol, config: RiskConfig)
        ensures
            *final(p) == (Protocol { risk_config: config, ..*old(p) }),
    {
        p.risk_config = config;
    }

    pub fn get(p: &Protocol) -> (c: RiskConfig)
        ensures
            c == p.risk_config,
    {
        p.risk_config
    }
}

/// Storage helper for the interest rate model.
pub struct InterestRateStorage;

impl InterestRateStorage {
    pub fn save_config(p: &mut Protocol, config: InterestRateConfig)
        ensures
            *final(p) == (Protocol { interest_config: config, ..*old(p) }),
    {
        p.interest_config = config;
    }

    pub fn get_config(p: &Protocol) -> (c: InterestRateConfig)
        ensures
            c == p.interest_config,
    {
        p.interest_config
    }

    pub fn save_state(p: &mut Protocol, state: InterestRateState)
        ensures
            *final(p) == (Protocol { interest_state: state, ..*old(p) }),
    {
        p.interest_state = state;
    }

    pub fn get_state(p: &Protocol) -> (s: InterestRateState)
        ensures
            s == p.interest_state,
    {
        p.interest_state
    }

    /// Recomputes utilization and rates at the current time and stores them.
    pub fn update_state(p: &mut Protocol) -> (s: InterestRateState)
        ensures
            s == spec_updated_state(old(p).interest_state, old(p).interest_config, old(p).now),
            *final(p) == (Protocol { interest_state: s, ..*old(p) }),
    {
        let s = updated_state(&p.interest_state, &p.interest_config, p.now);
        p.interest_state = s;
        s
    }
}

/// Storage helper for the emergency state.
pub struct EmergencyStorage;

impl EmergencyStorage {
    pub fn save(p: &mut Protocol, state: EmergencyState)
        ensures
            *final(p) == (Protocol { emergency: state, ..*old(p) }),
    {
        p.emergency = state;
    }

    pub fn get(p: &Protocol) -> (s: &EmergencyState)
        ensures
            *s == p.emergency,
    {
        &p.emergency
    }
}

/// Registry of token assets supported by the protocol.
pub struct TokenRegistry;

impl TokenRegistry {
    /// The token registered under `key`.
    pub open spec fn spec_asset(p: &Protocol, key: Seq<char>) -> Option<Seq<char>> {
        if map_of(p.tokens@).contains_key(key) {
            Some(map_of(p.tokens@)[key].token@)
        } else {
            None
        }
    }

    /// A copy of the registered tokens.
    pub fn assets(p: &Protocol) -> (r: Vec<TokenEntry>)
        ensures
            r@ == p.tokens@,
    {
        let mut out: Vec<TokenEntry> = Vec::new();
        let mut i: usize = 0;
        while i < p.tokens.len()
            invariant
                i <= p.tokens@.len(),
                out@ == p.tokens@.subrange(0, i as int),
            decreases p.tokens@.len() - i,
        {
            out.push(TokenEntry { key: p.tokens[i].key.clone(), token: p.tokens[i].token.clone() });
            proof {
                assert(out@ =~= p.tokens@.subrange(0, i + 1));
            }
            i = i + 1;
        }
        proof {
            assert(out@ =~= p.tokens@);
        }
        out
    }

    /// Registers `token` under `key` (admin only).
    pub fn set_asset(p: &mut Protocol, caller: &String, key: String, token: String) -> (r: Result<(), ProtocolError>)
        requires
            old(p).wf(),
        ensures
            final(p).wf(),
            r == spec_require_admin(old(p).admin, *caller),
            r is Ok ==> map_of(final(p).tokens@) == map_of(old(p).tokens@).insert(key@, TokenEntry { key, token })
                && *final(p) == (Protocol { tokens: final(p).tokens, ..*old(p) }),
            r is Err ==> *final(p) == *old(p),
    {
        ProtocolConfig::require_admin(p, caller)?;
        upsert(&mut p.tokens, TokenEntry { key, token });
        Ok(())
    }

    /// The token registered under `key`.
    pub fn get_asset(p: &Protocol, key: &String) -> (r: Option<String>)
        requires
            p.wf(),
        ensures
            crate::events::opt_view(r) == TokenRegistry::spec_asset(p, key@),
    {
        match find_key(&p.tokens, key) {
            Some(i) => {
                proof {
                    lemma_lookup_at(p.tokens@, i as int);
                }
                Some(p.tokens[i].token.clone())
            },
            None => None,
        }
    }

    /// Registers the primary asset (admin only).
    pub fn set_primary_asset(p: &mut Protocol, caller: &String, token: String) -> (r: Result<(), ProtocolError>)
        requires
            old(p).wf(),
        ensures
            final(p).wf(),
            r == spec_require_admin(old(p).admin, *caller),
            r is Ok ==> TokenRegistry::spec_asset(final(p), "primary_asset"@) == Some(token@)
                && map_of(final(p).tokens@).remove("primary_asset"@) == map_of(old(p).tokens@).remove("primary_asset"@),
            r is Ok ==> *final(p) == (Protocol { tokens: final(p).tokens, ..*old(p) }),
            r is Err ==> *final(p) == *old(p),
    {
        let key = String::from_str("primary_asset");
        proof {
            reveal_strlit("primary_asset");
        }
        let r = Self::set_asset(p, caller, key, token);
        proof {
            if r is Ok {
                assert(map_of(p.tokens@).remove("primary_asset"@) =~= map_of(old(p).tokens@).remove("primary_asset"@));
            }
        }
        r
    }

    /// The primary asset, or `AssetNotSupported`.
    pub fn require_primary_asset(p: &Protocol) -> (r: Result<String, ProtocolError>)
        requires
            p.wf(),
        ensures
            match r {
                Ok(t) => TokenRegistry::spec_asset(p, "primary_asset"@) == Some(t@),
                Err(e) => TokenRegistry::spec_asset(p, "primary_asset"@).is_none() && e == ProtocolError::AssetNotSupported,
            },
    {
        let key = String::from_str("primary_asset");
        proof {
            reveal_strlit("primary_asset");
        }
        match Self::get_asset(p, &key) {
            Some(t) => Ok(t),
            None => Err(ProtocolError::AssetNotSupported),
        }
    }
}

} // verus!
