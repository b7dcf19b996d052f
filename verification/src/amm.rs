//! AMM registry and swap hooks: registered asset pairs, simulated swaps
//! (0.3% fee, 1:1 rate) and the swap history.
use vstd::prelude::*;
use crate::errors::ProtocolError;
use crate::events::{ProtocolEvent, Notice, capture_view, keep_last};
use crate::interest::Position;
use crate::keyed::{Keyed, keys_unique, map_of, find_key, upsert, lemma_lookup_at};
use crate::math::{SCALE, BPS, tdiv};
use crate::state::{Protocol, ReentrancyGuard, StateHelper, position_in};

verus! {

/// Swaps kept in the history.
pub const MAX_SWAP_HISTORY: usize = 100;

/// The simulated swap fee in basis points.
pub const SWAP_FEE_BPS: i128 = 30;

/// AMM-specific errors.
#[derive(Clone, Copy, Debug, PartialEq, Eq, Structural)]
pub enum AMMError {
    PairNotRegistered,
    PairAlreadyExists,
    InvalidAMMAddress,
    InsufficientLiquidity,
    SlippageExceeded,
    InvalidSwapParams,
    Unauthorized,
    SwapFailed,
}

impl AMMError {
    pub open spec fn spec_into(self) -> ProtocolError {
        match self {
            AMMError::PairNotRegistered => ProtocolError::NotFound,
            AMMError::PairAlreadyExists => ProtocolError::AlreadyExists,
            AMMError::InvalidAMMAddress => ProtocolError::InvalidAddress,
            AMMError::InsufficientLiquidity => ProtocolError::InvalidAmount,
            AMMError::SlippageExceeded => ProtocolError::InvalidAmount,
            AMMError::InvalidSwapParams => ProtocolError::InvalidParameters,
            AMMError::Unauthorized => ProtocolError::Unauthorized,
            AMMError::SwapFailed => ProtocolError::InvalidAmount,
        }
    }
}

impl From<AMMError> for ProtocolError {
    fn from(err: AMMError) -> (r: ProtocolError) {
        match err {
            AMMError::PairNotRegistered => ProtocolError::NotFound,
            AMMError::PairAlreadyExists => ProtocolError::AlreadyExists,
            AMMError::InvalidAMMAddress => ProtocolError::InvalidAddress,
            AMMError::InsufficientLiquidity => ProtocolError::InvalidAmount,
            AMMError::SlippageExceeded => ProtocolError::InvalidAmount,
            AMMError::InvalidSwapParams => ProtocolError::InvalidParameters,
            AMMError::Unauthorized => ProtocolError::Unauthorized,
            AMMError::SwapFailed => ProtocolError::InvalidAmount,
        }
    }
}

impl vstd::std_specs::convert::FromSpecImpl<AMMError> for ProtocolError {
    open spec fn obeys_from_spec() -> bool {
        true
    }

    open spec fn from_spec(v: AMMError) -> ProtocolError {
        v.spec_into()
    }
}

/// `a` precedes `b` in lexicographic order of characters, comparing from position `i`.
pub open spec fn lex_lt_from(a: Seq<char>, b: Seq<char>, i: int) -> bool
    decreases a.len() - i,
{
    if i < 0 || i >= a.len() {
        0 <= i < b.len()
    } else if i >= b.len() {
        false
    } else if a[i] != b[i] {
        (a[i] as u32) < (b[i] as u32)
    } else {
        lex_lt_from(a, b, i + 1)
    }
}

/// Lexicographic order of texts, by character code.
pub open spec fn text_lt(a: Seq<char>, b: Seq<char>) -> bool {
    lex_lt_from(a, b, 0)
}

proof fn lemma_lex_order(a: Seq<char>, b: Seq<char>, i: int)
    requires
        0 <= i,
        forall|j: int| 0 <= j < i && j < a.len() && j < b.len() ==> a[j] == b[j],
        i <= a.len() || i <= b.len(),
    ensures
        !(lex_lt_from(a, b, i) && lex_lt_from(b, a, i)),
        !lex_lt_from(a, b, i) && !lex_lt_from(b, a, i) && i <= a.len() && i <= b.len() ==> a == b,
    decreases a.len() + b.len() - 2 * i,
{
    if i < a.len() && i < b.len() && a[i] == b[i] {
        lemma_lex_order(a, b, i + 1);
    } else if i < a.len() && i < b.len() {
        if a[i] as u32 == b[i] as u32 {
            vstd::utf8::char_u32_cast(a[i], a[i] as u32);
            vstd::utf8::char_u32_cast(b[i], b[i] as u32);
        }
    } else if i >= a.len() && i >= b.len() && i <= a.len() && i <= b.len() {
        assert(a =~= b);
    }
}

/// Texts are totally ordered: exactly one of `a < b`, `b < a`, `a == b`.
pub proof fn lemma_text_order(a: Seq<char>, b: Seq<char>)
    ensures
        !(text_lt(a, b) && text_lt(b, a)),
        !text_lt(a, b) && !text_lt(b, a) ==> a == b,
{
    lemma_lex_order(a, b, 0);
}

/// Whether `a` orders before `b`.
pub fn text_less(a: &String, b: &String) -> (r: bool)
    ensures
        r == text_lt(a@, b@),
{
    let sa = a.as_str();
    let sb = b.as_str();
    let la = sa.unicode_len();
    let lb = sb.unicode_len();
    let mut i: usize = 0;
    while i < la && i < lb
        invariant
            i <= la,
            i <= lb,
            la == a@.len(),
            lb == b@.len(),
            sa@ == a@,
            sb@ == b@,
            text_lt(a@, b@) == lex_lt_from(a@, b@, i as int),
        decreases la - i,
    {
        let ca = sa.get_char(i);
        let cb = sb.get_char(i);
        if ca != cb {
            return (ca as u32) < (cb as u32);
        }
        i = i + 1;
    }
    i < lb
}

/// The key of the pair of `a` and `b`: the two assets in text order.
pub open spec fn pair_view(a: Seq<char>, b: Seq<char>) -> (Seq<char>, Seq<char>) {
    if text_lt(a, b) {
        (a, b)
    } else {
        (b, a)
    }
}

/// Asset pair information for the AMM.
pub struct AssetPair {
    pub asset_a: String,
    pub asset_b: String,
    /// AMM contract managing the pair
    pub amm_address: String,
    /// Liquidity pool address (if different from the AMM)
    pub pool_address: Option<String>,
    pub is_active: bool,
    pub registered_at: u64,
    pub last_updated: u64,
}

impl AssetPair {
    pub fn new(asset_a: String, asset_b: String, amm_address: String, timestamp: u64) -> (r: Self)
        ensures
            r == (AssetPair {
                asset_a,
                asset_b,
                amm_address,
                pool_address: None,
                is_active: true,
                registered_at: timestamp,
                last_updated: timestamp,
            }),
    {
        AssetPair {
            asset_a,
            asset_b,
            amm_address,
            pool_address: None,
            is_active: true,
            registered_at: timestamp,
            last_updated: timestamp,
        }
    }

    pub fn with_pool(asset_a: String, asset_b: String, amm_address: String, pool_address: String, timestamp: u64) -> (r:
        Self)
        ensures
            r == (AssetPair {
                asset_a,
                asset_b,
                amm_address,
                pool_address: Some(pool_address),
                is_active: true,
                registered_at: timestamp,
                last_updated: timestamp,
            }),
    {
        AssetPair {
            asset_a,
            asset_b,
            amm_address,
            pool_address: Some(pool_address),
            is_active: true,
            registered_at: timestamp,
            last_updated: timestamp,
        }
    }

    pub fn clone_pair(&self) -> (r: Self)
        ensures
            r == *self,
    {
        AssetPair {
            asset_a: self.asset_a.clone(),
            asset_b: self.asset_b.clone(),
            amm_address: self.amm_address.clone(),
            pool_address: match &self.pool_address {
                Some(a) => Some(a.clone()),
                None => None,
            },
            is_active: self.is_active,
            registered_at: self.registered_at,
            last_updated: self.last_updated,
        }
    }
}

/// The storage key of a pair: its two assets in text order.
pub struct PairKey {
    pub asset_a: String,
    pub asset_b: String,
}

impl PairKey {
    /// The key of the pair of `asset_a` and `asset_b`, whichever order they come in.
    pub fn new(asset_a: String, asset_b: String) -> (k: Self)
        ensures
            (k.asset_a@, k.asset_b@) == pair_view(asset_a@, asset_b@),
    {
        if text_less(&asset_a, &asset_b) {
            PairKey { asset_a, asset_b }
        } else {
            PairKey { asset_a: asset_b, asset_b: asset_a }
        }
    }
}

impl Keyed for AssetPair {
    type Key = PairKey;

    type KeyView = (Seq<char>, Seq<char>);

    open spec fn key_view(&self) -> (Seq<char>, Seq<char>) {
        pair_view(self.asset_a@, self.asset_b@)
    }

    open spec fn view_of_key(k: &PairKey) -> (Seq<char>, Seq<char>) {
        (k.asset_a@, k.asset_b@)
    }

    fn has_key_of(&self, k: &PairKey) -> (b: bool) {
        let mine = PairKey::new(self.asset_a.clone(), self.asset_b.clone());
        mine.asset_a.eq(&k.asset_a) && mine.asset_b.eq(&k.asset_b)
    }

    fn key_copy(&self) -> (k: PairKey) {
        PairKey::new(self.asset_a.clone(), self.asset_b.clone())
    }
}

/// Swap parameters.
pub struct SwapParams {
    pub user: String,
    pub asset_in: String,
    pub asset_out: String,
    pub amount_in: i128,
    /// Minimum amount of `asset_out` expected
    pub min_amount_out: i128,
    /// Maximum slippage tolerance in basis points
    pub max_slippage_bps: i128,
    /// Deadline timestamp (0: none)
    pub deadline: u64,
}

impl SwapParams {
    /// Parameters with 1% slippage tolerance and no deadline.
    pub fn new(user: String, asset_in: String, asset_out: String, amount_in: i128, min_amount_out: i128) -> (r: Self)
        ensures
            r == (SwapParams {
                user,
                asset_in,
                asset_out,
                amount_in,
                min_amount_out,
                max_slippage_bps: 100,
                deadline: 0,
            }),
    {
        SwapParams { user, asset_in, asset_out, amount_in, min_amount_out, max_slippage_bps: 100, deadline: 0 }
    }

    pub fn with_slippage(self, max_slippage_bps: i128) -> (r: Self)
        ensures
            r == (SwapParams { max_slippage_bps, ..self }),
    {
        SwapParams { max_slippage_bps, ..self }
    }

    pub fn with_deadline(self, deadline: u64) -> (r: Self)
        ensures
            r == (SwapParams { deadline, ..self }),
    {
        SwapParams { deadline, ..self }
    }
}

/// The outcome of a swap.
#[derive(Clone, Copy, Debug, PartialEq, Eq, Structural)]
pub struct SwapResult {
    pub amount_in: i128,
    pub amount_out: i128,
    /// Effective exchange rate (scaled by 1e8)
    pub exchange_rate: i128,
    /// Slippage experienced in basis points
    pub slippage_bps: i128,
    pub fee_paid: i128,
    pub timestamp: u64,
}

/// The exchange rate `amount_out / amount_in`, scaled by 1e8 (0 for no input).
pub open spec fn spec_exchange_rate(amount_in: i128, amount_out: i128) -> int {
    if amount_in > 0 {
        tdiv(amount_out * SCALE, amount_in as int)
    } else {
        0
    }
}

impl SwapResult {
    pub fn new(amount_in: i128, amount_out: i128, fee_paid: i128, timestamp: u64) -> (r: Self)
        requires
            amount_in > 0 ==> i128::MIN <= amount_out * SCALE <= i128::MAX,
        ensures
            r == (SwapResult {
                amount_in,
                amount_out,
                exchange_rate: spec_exchange_rate(amount_in, amount_out) as i128,
                slippage_bps: 0,
                fee_paid,
                timestamp,
            }),
    {
        let exchange_rate = if amount_in > 0 {
            (amount_out * SCALE) / amount_in
        } else {
            0
        };
        SwapResult { amount_in, amount_out, exchange_rate, slippage_bps: 0, fee_paid, timestamp }
    }

    pub fn with_slippage(self, slippage_bps: i128) -> (r: Self)
        ensures
            r == (SwapResult { slippage_bps, ..self }),
    {
        SwapResult { slippage_bps, ..self }
    }
}

/// The AMM's storage: registered pairs (one per key), how many were
/// registered, and the latest swaps (oldest first).
pub struct AMMState {
    pub pairs: Vec<AssetPair>,
    pub pair_count: i128,
    pub swap_history: Vec<SwapResult>,
}

impl AMMState {
    /// Each pair is stored once, and the history keeps at most 100 swaps.
    pub open spec fn wf(&self) -> bool {
        &&& keys_unique(self.pairs@)
        &&& self.swap_history@.len() <= MAX_SWAP_HISTORY
    }

    pub fn new() -> (s: Self)
        ensures
            s.wf(),
            s.pairs@.len() == 0,
            s.pair_count == 0,
            s.swap_history@.len() == 0,
    {
        AMMState { pairs: Vec::new(), pair_count: 0, swap_history: Vec::new() }
    }

    /// The pair registered for `a` and `b` (in either order).
    pub open spec fn pair_of(&self, a: Seq<char>, b: Seq<char>) -> Option<AssetPair> {
        if map_of(self.pairs@).contains_key(pair_view(a, b)) {
            Some(map_of(self.pairs@)[pair_view(a, b)])
        } else {
            None
        }
    }
}

/// The fee of a swap of `amount_in`.
pub open spec fn spec_swap_fee(amount_in: i128) -> int {
    tdiv(amount_in * SWAP_FEE_BPS, BPS as int)
}

/// The outcome of a swap.
pub open spec fn spec_swap(p: &Protocol, params: SwapParams) -> Result<SwapResult, ProtocolError> {
    let fee = spec_swap_fee(params.amount_in);
    let out = params.amount_in - fee;
    if p.reentrancy {
        Err(ProtocolError::ReentrancyDetected)
    } else if params.amount_in <= 0 || params.min_amount_out < 0 {
        Err(ProtocolError::InvalidParameters)
    } else if params.deadline > 0 && p.now > params.deadline {
        Err(ProtocolError::InvalidAmount)
    } else if p.amm.pair_of(params.asset_in@, params.asset_out@) is None {
        Err(ProtocolError::NotFound)
    } else if !p.amm.pair_of(params.asset_in@, params.asset_out@)->Some_0.is_active {
        Err(ProtocolError::NotFound)
    } else if out < params.min_amount_out {
        Err(ProtocolError::InvalidAmount)
    } else {
        Ok(
            SwapResult {
                amount_in: params.amount_in,
                amount_out: out as i128,
                exchange_rate: spec_exchange_rate(params.amount_in, out as i128) as i128,
                slippage_bps: 0,
                fee_paid: fee as i128,
                timestamp: p.now,
            },
        )
    }
}

/// The checks a swap passes before its fee is computed.
pub open spec fn swap_checks_pass(p: &Protocol, params: SwapParams) -> bool {
    &&& !p.reentrancy
    &&& params.amount_in > 0
    &&& params.min_amount_out >= 0
    &&& !(params.deadline > 0 && p.now > params.deadline)
    &&& p.amm.pair_of(params.asset_in@, params.asset_out@) matches Some(pair) && pair.is_active
}

/// A swap's arithmetic stays within `i128` where it is computed: the fee
/// once the checks pass, and the exchange rate of an accepted swap.
pub open spec fn swap_fits(p: &Protocol, params: SwapParams) -> bool {
    let out = params.amount_in - spec_swap_fee(params.amount_in);
    swap_checks_pass(p, params) ==> params.amount_in * SWAP_FEE_BPS <= i128::MAX && (out >= params.min_amount_out
        ==> out * SCALE <= i128::MAX)
}

/// The swap a liquidation hook performs: collateral into the debt asset,
/// 2% slippage tolerance, no deadline.
pub open spec fn liquidation_hook_params(
    liquidator: String,
    collateral_asset: String,
    debt_asset: String,
    collateral_amount: i128,
    min_debt_amount: i128,
) -> SwapParams {
    SwapParams {
        user: liquidator,
        asset_in: collateral_asset,
        asset_out: debt_asset,
        amount_in: collateral_amount,
        min_amount_out: min_debt_amount,
        max_slippage_bps: 200,
        deadline: 0,
    }
}

/// The swap a deleverage hook performs: 1.5% slippage tolerance, no deadline.
pub open spec fn deleverage_hook_params(
    user: String,
    asset_to_sell: String,
    debt_asset: String,
    sell_amount: i128,
    min_debt_repayment: i128,
) -> SwapParams {
    SwapParams {
        user,
        asset_in: asset_to_sell,
        asset_out: debt_asset,
        amount_in: sell_amount,
        min_amount_out: min_debt_repayment,
        max_slippage_bps: 150,
        deadline: 0,
    }
}

/// AMM storage helpers.
pub struct AMMStorage;

impl AMMStorage {
    /// The pair registered for `asset_a` and `asset_b` (in either order).
    pub fn get_pair(p: &Protocol, asset_a: &String, asset_b: &String) -> (r: Option<AssetPair>)
        requires
            p.wf(),
        ensures
            r == p.amm.pair_of(asset_a@, asset_b@),
    {
        let key = PairKey::new(asset_a.clone(), asset_b.clone());
        match find_key(&p.amm.pairs, &key) {
            Some(i) => {
                proof {
                    lemma_lookup_at(p.amm.pairs@, i as int);
                }
                Some(p.amm.pairs[i].clone_pair())
            },
            None => None,
        }
    }

    /// Stores a pair under its key.
    pub fn save_pair(p: &mut Protocol, pair: AssetPair)
        requires
            old(p).wf(),
        ensures
            final(p).wf(),
            map_of(final(p).amm.pairs@) == map_of(old(p).amm.pairs@).insert(pair.key_view(), pair),
            final(p).amm.pair_count == old(p).amm.pair_count,
            final(p).amm.swap_history == old(p).amm.swap_history,
            *final(p) == (Protocol { amm: final(p).amm, ..*old(p) }),
    {
        upsert(&mut p.amm.pairs, pair);
    }

    pub fn get_pair_count(p: &Protocol) -> (r: i128)
        ensures
            r == p.amm.pair_count,
    {
        p.amm.pair_count
    }

    pub fn increment_pair_count(p: &mut Protocol)
        requires
            old(p).amm.pair_count < i128::MAX,
        ensures
            *final(p) == (Protocol {
                amm: AMMState { pair_count: (old(p).amm.pair_count + 1) as i128, ..old(p).amm },
                ..*old(p)
            }),
    {
        p.amm.pair_count = p.amm.pair_count + 1;
    }

    /// All registered pairs.
    pub fn get_all_pairs(p: &Protocol) -> (r: Vec<AssetPair>)
        ensures
            r@ == p.amm.pairs@,
    {
        let mut out: Vec<AssetPair> = Vec::new();
        let mut i: usize = 0;
        while i < p.amm.pairs.len()
            invariant
                i <= p.amm.pairs@.len(),
                out@ == p.amm.pairs@.subrange(0, i as int),
            decreases p.amm.pairs@.len() - i,
        {
            out.push(p.amm.pairs[i].clone_pair());
            proof {
                assert(out@ =~= p.amm.pairs@.subrange(0, i + 1));
            }
            i = i + 1;
        }
        proof {
            assert(out@ =~= p.amm.pairs@);
        }
        out
    }

    /// The latest swaps, oldest first.
    pub fn get_swap_history(p: &Protocol) -> (r: Vec<SwapResult>)
        ensures
            r@ == p.amm.swap_history@,
    {
        let mut out: Vec<SwapResult> = Vec::new();
        let mut i: usize = 0;
        while i < p.amm.swap_history.len()
            invariant
                i <= p.amm.swap_history@.len(),
                out@ == p.amm.swap_history@.subrange(0, i as int),
            decreases p.amm.swap_history@.len() - i,
        {
            out.push(p.amm.swap_history[i]);
            proof {
                assert(out@ =~= p.amm.swap_history@.subrange(0, i + 1));
            }
            i = i + 1;
        }
        proof {
            assert(out@ =~= p.amm.swap_history@);
        }
        out
    }

    /// Appends a swap, keeping the latest 100.
    pub fn add_swap_to_history(p: &mut Protocol, swap: SwapResult)
        requires
            old(p).wf(),
        ensures
            final(p).wf(),
            final(p).amm.swap_history@ == keep_last(old(p).amm.swap_history@.push(swap), MAX_SWAP_HISTORY as int),
            final(p).amm.swap_history@.len() <= MAX_SWAP_HISTORY,
            *final(p) == (Protocol { amm: AMMState { swap_history: final(p).amm.swap_history, ..old(p).amm }, ..*old(p) }),
    {
        let ghost h = p.amm.swap_history@.push(swap);
        p.amm.swap_history.push(swap);
        if p.amm.swap_history.len() > MAX_SWAP_HISTORY {
            p.amm.swap_history.remove(0);
            proof {
                assert(p.amm.swap_history@ =~= h.subrange(h.len() - 100, h.len() as int));
            }
        }
    }
}

/// AMM registry and swap hooks.
pub struct AMMRegistry;

impl AMMRegistry {
    /// Registers a pair (active, stamped now) unless one exists for the two
    /// assets in either order; counts it and emits `AMMLiquidityAdded`.
    pub fn register_pair(
        p: &mut Protocol,
        asset_a: String,
        asset_b: String,
        amm_address: String,
        pool_address: Option<String>,
    ) -> (r: Result<(), ProtocolError>)
        requires
            old(p).wf(),
            old(p).amm.pair_of(asset_a@, asset_b@) is None ==> old(p).amm.pair_count < i128::MAX,
        ensures
            final(p).wf(),
            r == (if old(p).amm.pair_of(asset_a@, asset_b@) is Some {
                Err::<(), ProtocolError>(ProtocolError::AlreadyExists)
            } else {
                Ok(())
            }),
            r is Err ==> *final(p) == *old(p),
            r is Ok ==> ({
                let pair = AssetPair {
                    asset_a,
                    asset_b,
                    amm_address,
                    pool_address,
                    is_active: true,
                    registered_at: old(p).now,
                    last_updated: old(p).now,
                };
                let ev = ProtocolEvent::AMMLiquidityAdded(old(p).contract_address, asset_a, asset_b, 0, 0);
                &&& map_of(final(p).amm.pairs@) == map_of(old(p).amm.pairs@).insert(pair_view(asset_a@, asset_b@), pair)
                &&& final(p).amm.pair_count == old(p).amm.pair_count + 1
                &&& final(p).amm.swap_history == old(p).amm.swap_history
                &&& old(p).events.appended(final(p).events, capture_view(ev, old(p).now))
                &&& final(p).outbox@ == old(p).outbox@.push(Notice::Event(ev))
                &&& *final(p) == (Protocol {
                    amm: final(p).amm,
                    events: final(p).events,
                    outbox: final(p).outbox,
                    ..*old(p)
                })
            }),
    {
        if AMMStorage::get_pair(p, &asset_a, &asset_b).is_some() {
            return Err(AMMError::PairAlreadyExists.into());
        }
        let timestamp = p.now;
        let ev = ProtocolEvent::AMMLiquidityAdded(p.contract_address.clone(), asset_a.clone(), asset_b.clone(), 0, 0);
        let pair = match pool_address {
            Some(pool) => AssetPair::with_pool(asset_a, asset_b, amm_address, pool, timestamp),
            None => AssetPair::new(asset_a, asset_b, amm_address, timestamp),
        };
        AMMStorage::save_pair(p, pair);
        AMMStorage::increment_pair_count(p);
        ev.emit(&mut p.events, &mut p.outbox, timestamp);
        Ok(())
    }

    /// Whether a pair exists for the two assets and is active.
    pub fn is_pair_registered(p: &Protocol, asset_a: &String, asset_b: &String) -> (b: bool)
        requires
            p.wf(),
        ensures
            b == (p.amm.pair_of(asset_a@, asset_b@) matches Some(pair) && pair.is_active),
    {
        match AMMStorage::get_pair(p, asset_a, asset_b) {
            Some(pair) => pair.is_active,
            None => false,
        }
    }

    /// The pair registered for the two assets, or `NotFound`.
    pub fn get_pair_info(p: &Protocol, asset_a: &String, asset_b: &String) -> (r: Result<AssetPair, ProtocolError>)
        requires
            p.wf(),
        ensures
            r == (match p.amm.pair_of(asset_a@, asset_b@) {
                Some(pair) => Ok(pair),
                None => Err(ProtocolError::NotFound),
            }),
    {
        match AMMStorage::get_pair(p, asset_a, asset_b) {
            Some(pair) => Ok(pair),
            None => Err(AMMError::PairNotRegistered.into()),
        }
    }

    fn set_active(p: &mut Protocol, asset_a: &String, asset_b: &String, active: bool) -> (r: Result<(), ProtocolError>)
        requires
            old(p).wf(),
        ensures
            final(p).wf(),
            r == (if old(p).amm.pair_of(asset_a@, asset_b@) is Some {
                Ok::<(), ProtocolError>(())
            } else {
                Err(ProtocolError::NotFound)
            }),
            r is Err ==> *final(p) == *old(p),
            r is Ok ==> ({
                let pair = old(p).amm.pair_of(asset_a@, asset_b@)->Some_0;
                &&& map_of(final(p).amm.pairs@) == map_of(old(p).amm.pairs@).insert(
                    pair_view(asset_a@, asset_b@),
                    AssetPair { is_active: active, last_updated: old(p).now, ..pair },
                )
                &&& final(p).amm.pair_count == old(p).amm.pair_count
                &&& final(p).amm.swap_history == old(p).amm.swap_history
                &&& *final(p) == (Protocol { amm: final(p).amm, ..*old(p) })
            }),
    {
        let mut pair = match AMMStorage::get_pair(p, asset_a, asset_b) {
            Some(pair) => pair,
            None => return Err(AMMError::PairNotRegistered.into()),
        };
        proof {
            let k = pair_view(asset_a@, asset_b@);
            assert(map_of(p.amm.pairs@)[k].key_view() == k) by {
                crate::keyed::lemma_map_of_lookup(p.amm.pairs@, k);
                crate::keyed::lemma_lookup_key(p.amm.pairs@, k);
            }
        }
        pair.is_active = active;
        pair.last_updated = p.now;
        AMMStorage::save_pair(p, pair);
        Ok(())
    }

    /// Marks the pair inactive.
    pub fn deactivate_pair(p: &mut Protocol, asset_a: &String, asset_b: &String) -> (r: Result<(), ProtocolError>)
        requires
            old(p).wf(),
        ensures
            final(p).wf(),
            r == (if old(p).amm.pair_of(asset_a@, asset_b@) is Some {
                Ok::<(), ProtocolError>(())
            } else {
                Err(ProtocolError::NotFound)
            }),
            r is Err ==> *final(p) == *old(p),
            r is Ok ==> ({
                let pair = old(p).amm.pair_of(asset_a@, asset_b@)->Some_0;
                &&& map_of(final(p).amm.pairs@) == map_of(old(p).amm.pairs@).insert(
                    pair_view(asset_a@, asset_b@),
                    AssetPair { is_active: false, last_updated: old(p).now, ..pair },
                )
                &&& final(p).amm.pair_count == old(p).amm.pair_count
                &&& final(p).amm.swap_history == old(p).amm.swap_history
                &&& *final(p) == (Protocol { amm: final(p).amm, ..*old(p) })
            }),
    {
        Self::set_active(p, asset_a, asset_b, false)
    }

    /// Marks the pair active again.
    pub fn activate_pair(p: &mut Protocol, asset_a: &String, asset_b: &String) -> (r: Result<(), ProtocolError>)
        requires
            old(p).wf(),
        ensures
            final(p).wf(),
            r == (if old(p).amm.pair_of(asset_a@, asset_b@) is Some {
                Ok::<(), ProtocolError>(())
            } else {
                Err(ProtocolError::NotFound)
            }),
            r is Err ==> *final(p) == *old(p),
            r is Ok ==> ({
                let pair = old(p).amm.pair_of(asset_a@, asset_b@)->Some_0;
                &&& map_of(final(p).amm.pairs@) == map_of(old(p).amm.pairs@).insert(
                    pair_view(asset_a@, asset_b@),
                    AssetPair { is_active: true, last_updated: old(p).now, ..pair },
                )
                &&& final(p).amm.pair_count == old(p).amm.pair_count
                &&& final(p).amm.swap_history == old(p).amm.swap_history
                &&& *final(p) == (Protocol { amm: final(p).amm, ..*old(p) })
            }),
    {
        Self::set_active(p, asset_a, asset_b, true)
    }

    /// How many pairs were registered.
    pub fn get_total_pairs(p: &Protocol) -> (r: i128)
        ensures
            r == p.amm.pair_count,
    {
        AMMStorage::get_pair_count(p)
    }

    /// Executes a swap through an active registered pair: a 0.3% fee is
    /// kept and the rest comes out 1:1; fails when the output is below
    /// `min_amount_out` or the deadline has passed. Records the swap in the
    /// history (latest 100) and emits `AMMSwap`.
    pub fn execute_swap(p: &mut Protocol, params: SwapParams) -> (r: Result<SwapResult, ProtocolError>)
        requires
            old(p).wf(),
            swap_fits(old(p), params),
        ensures
            final(p).wf(),
            r == spec_swap(old(p), params),
            r is Err ==> *final(p) == *old(p),
            r is Ok ==> ({
                let res = r->Ok_0;
                let ev = ProtocolEvent::AMMSwap(
                    params.user,
                    params.asset_in,
                    params.asset_out,
                    params.amount_in,
                    res.amount_out,
                );
                &&& res.amount_out + res.fee_paid == params.amount_in
                &&& final(p).amm.swap_history@ == keep_last(
                    old(p).amm.swap_history@.push(res),
                    MAX_SWAP_HISTORY as int,
                )
                &&& old(p).events.appended(final(p).events, capture_view(ev, old(p).now))
                &&& final(p).outbox@ == old(p).outbox@.push(Notice::Event(ev))
                &&& *final(p) == (Protocol {
                    amm: AMMState { swap_history: final(p).amm.swap_history, ..old(p).amm },
                    events: final(p).events,
                    outbox: final(p).outbox,
                    ..*old(p)
                })
            }),
    {
        ReentrancyGuard::enter(p)?;
        if params.amount_in <= 0 {
            ReentrancyGuard::exit(p);
            return Err(AMMError::InvalidSwapParams.into());
        }
        if params.min_amount_out < 0 {
            ReentrancyGuard::exit(p);
            return Err(AMMError::InvalidSwapParams.into());
        }
        if params.deadline > 0 && p.now > params.deadline {
            ReentrancyGuard::exit(p);
            return Err(AMMError::SwapFailed.into());
        }
        let pair = match AMMStorage::get_pair(p, &params.asset_in, &params.asset_out) {
            Some(pair) => pair,
            None => {
                ReentrancyGuard::exit(p);
                return Err(AMMError::PairNotRegistered.into());
            },
        };
        if !pair.is_active {
            ReentrancyGuard::exit(p);
            return Err(AMMError::PairNotRegistered.into());
        }
        let fee = (params.amount_in * SWAP_FEE_BPS) / BPS;
        let amount_out = params.amount_in - fee;
        if amount_out < params.min_amount_out {
            ReentrancyGuard::exit(p);
            return Err(AMMError::SlippageExceeded.into());
        }
        let timestamp = p.now;
        proof {
            assert(0 <= fee <= params.amount_in);
        }
        let swap_result = SwapResult::new(params.amount_in, amount_out, fee, timestamp);
        AMMStorage::add_swap_to_history(p, swap_result);
        ProtocolEvent::AMMSwap(params.user, params.asset_in, params.asset_out, params.amount_in, amount_out).emit(
            &mut p.events,
            &mut p.outbox,
            timestamp,
        );
        ReentrancyGuard::exit(p);
        Ok(swap_result)
    }

    /// Swaps collateral into the debt asset for a liquidator (2% slippage
    /// tolerance); when the liquidator has a position, its collateral drops
    /// by the amount sold and its debt by the amount received.
    pub fn liquidation_swap_hook(
        p: &mut Protocol,
        liquidator: &String,
        collateral_asset: &String,
        debt_asset: &String,
        collateral_amount: i128,
        min_debt_amount: i128,
    ) -> (r: Result<SwapResult, ProtocolError>)
        requires
            old(p).wf(),
            swap_fits(
                old(p),
                liquidation_hook_params(*liquidator, *collateral_asset, *debt_asset, collateral_amount, min_debt_amount),
            ),
            ({
                let params = liquidation_hook_params(
                    *liquidator,
                    *collateral_asset,
                    *debt_asset,
                    collateral_amount,
                    min_debt_amount,
                );
                let pos = position_in(old(p), *liquidator);
                spec_swap(old(p), params) is Ok && old(p).position_of(liquidator@) is Some ==> {
                    &&& i128::MIN <= pos.collateral - collateral_amount <= i128::MAX
                    &&& i128::MIN <= pos.debt - spec_swap(old(p), params)->Ok_0.amount_out <= i128::MAX
                }
            }),
        ensures
            final(p).wf(),
            ({
                let params = liquidation_hook_params(
                    *liquidator,
                    *collateral_asset,
                    *debt_asset,
                    collateral_amount,
                    min_debt_amount,
                );
                &&& r == spec_swap(old(p), params)
                &&& r is Err ==> *final(p) == *old(p)
                &&& r is Ok ==> ({
                    let res = r->Ok_0;
                    let pos = position_in(old(p), *liquidator);
                    let ev = ProtocolEvent::AMMSwap(
                        *liquidator,
                        *collateral_asset,
                        *debt_asset,
                        collateral_amount,
                        res.amount_out,
                    );
                    &&& map_of(final(p).positions@) == (if old(p).position_of(liquidator@) is Some {
                        map_of(old(p).positions@).insert(
                            liquidator@,
                            Position {
                                collateral: (pos.collateral - collateral_amount) as i128,
                                debt: (pos.debt - res.amount_out) as i128,
                                ..pos
                            },
                        )
                    } else {
                        map_of(old(p).positions@)
                    })
                    &&& final(p).amm.swap_history@ == keep_last(
                        old(p).amm.swap_history@.push(res),
                        MAX_SWAP_HISTORY as int,
                    )
                    &&& old(p).events.appended(final(p).events, capture_view(ev, old(p).now))
                    &&& final(p).outbox@ == old(p).outbox@.push(Notice::Event(ev))
                    &&& *final(p) == (Protocol {
                        positions: final(p).positions,
                        amm: AMMState { swap_history: final(p).amm.swap_history, ..old(p).amm },
                        events: final(p).events,
                        outbox: final(p).outbox,
                        ..*old(p)
                    })
                })
            }),
    {
        let params = SwapParams::new(
            liquidator.clone(),
            collateral_asset.clone(),
            debt_asset.clone(),
            collateral_amount,
            min_debt_amount,
        ).with_slippage(200);
        let swap_result = Self::execute_swap(p, params)?;
        match StateHelper::get_position(p, liquidator) {
            Some(position) => {
                let mut position = position;
                position.collateral = position.collateral - collateral_amount;
                position.debt = position.debt - swap_result.amount_out;
                StateHelper::save_position(p, position);
            },
            None => {},
        }
        Ok(swap_result)
    }

    /// Sells an asset to reduce a user's debt (1.5% slippage tolerance);
    /// when the user has a position, its debt drops by the amount received.
    pub fn deleverage_swap_hook(
        p: &mut Protocol,
        user: &String,
        asset_to_sell: &String,
        debt_asset: &String,
        sell_amount: i128,
        min_debt_repayment: i128,
    ) -> (r: Result<SwapResult, ProtocolError>)
        requires
            old(p).wf(),
            swap_fits(old(p), deleverage_hook_params(*user, *asset_to_sell, *debt_asset, sell_amount, min_debt_repayment)),
            ({
                let params = deleverage_hook_params(*user, *asset_to_sell, *debt_asset, sell_amount, min_debt_repayment);
                spec_swap(old(p), params) is Ok && old(p).position_of(user@) is Some ==> i128::MIN <= position_in(
                    old(p),
                    *user,
                ).debt - spec_swap(old(p), params)->Ok_0.amount_out <= i128::MAX
            }),
        ensures
            final(p).wf(),
            ({
                let params = deleverage_hook_params(*user, *asset_to_sell, *debt_asset, sell_amount, min_debt_repayment);
                &&& r == spec_swap(old(p), params)
                &&& r is Err ==> *final(p) == *old(p)
                &&& r is Ok ==> ({
                    let res = r->Ok_0;
                    let pos = position_in(old(p), *user);
                    let ev = ProtocolEvent::AMMSwap(*user, *asset_to_sell, *debt_asset, sell_amount, res.amount_out);
                    &&& map_of(final(p).positions@) == (if old(p).position_of(user@) is Some {
                        map_of(old(p).positions@).insert(
                            user@,
                            Position { debt: (pos.debt - res.amount_out) as i128, ..pos },
                        )
                    } else {
                        map_of(old(p).positions@)
                    })
                    &&& final(p).amm.swap_history@ == keep_last(
                        old(p).amm.swap_history@.push(res),
                        MAX_SWAP_HISTORY as int,
                    )
                    &&& old(p).events.appended(final(p).events, capture_view(ev, old(p).now))
                    &&& final(p).outbox@ == old(p).outbox@.push(Notice::Event(ev))
                    &&& *final(p) == (Protocol {
                        positions: final(p).positions,
                        amm: AMMState { swap_history: final(p).amm.swap_history, ..old(p).amm },
                        events: final(p).events,
                        outbox: final(p).outbox,
                        ..*old(p)
                    })
                })
            }),
    {
        let params = SwapParams::new(user.clone(), asset_to_sell.clone(), debt_asset.clone(), sell_amount, min_debt_repayment)
            .with_slippage(150);
        let swap_result = Self::execute_swap(p, params)?;
        match StateHelper::get_position(p, user) {
            Some(position) => {
                let mut position = position;
                position.debt = position.debt - swap_result.amount_out;
                StateHelper::save_position(p, position);
            },
            None => {},
        }
        Ok(swap_result)
    }

    /// The latest swaps, oldest first.
    pub fn get_swap_history(p: &Protocol) -> (r: Vec<SwapResult>)
        ensures
            r@ == p.amm.swap_history@,
    {
        AMMStorage::get_swap_history(p)
    }

    /// All registered pairs.
    pub fn get_all_pairs(p: &Protocol) -> (r: Vec<AssetPair>)
        ensures
            r@ == p.amm.pairs@,
    {
        AMMStorage::get_all_pairs(p)
    }
}

} // verus!
