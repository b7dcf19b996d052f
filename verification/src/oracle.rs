//! Price oracle: registered sources per asset, staleness and positivity
//! filters, aggregation of fetched quotes (trimmed median with a deviation
//! filter, or an average over a window) and a cache of aggregated prices.
//!
//! The host asks each live source for its quote; the protocol decides which
//! sources are live (`Oracle::live_sources`) and aggregates what came back
//! (`Oracle::aggregate_price`), after consulting the cache
//! (`Oracle::cached_price`).
use vstd::prelude::*;
use vstd::relations::{sorted_by, total_ordering};
use crate::events::{ProtocolEvent, Notice, capture_view, text, texts};
use crate::keyed::{Keyed, keys_unique, map_of, find_key, upsert, remove_key, lemma_lookup_at};
use crate::math::{sat, tdiv, max_int, min_int};
use crate::state::Protocol;

verus! {

broadcast use vstd::multiset::group_multiset_axioms;

/// The prices as mathematical integers.
pub open spec fn ints(s: Seq<i128>) -> Seq<int> {
    s.map_values(|x: i128| x as int)
}

/// Swapping two entries keeps the multiset of a sequence.
proof fn lemma_swap_multiset(s: Seq<int>, i: int, j: int)
    requires
        0 <= i < s.len(),
        0 <= j < s.len(),
        i != j,
    ensures
        s.update(i, s[j]).update(j, s[i]).to_multiset() == s.to_multiset(),
{
    let s1 = s.update(i, s[j]);
    vstd::seq_lib::to_multiset_update(s, i, s[j]);
    vstd::seq_lib::to_multiset_update(s1, j, s[i]);
    vstd::seq_lib::to_multiset_contains(s, s[i]);
    vstd::seq_lib::to_multiset_contains(s, s[j]);
    assert(s1.update(j, s[i]).to_multiset() =~= s.to_multiset());
}

proof fn lemma_int_order_total()
    ensures
        total_ordering(|x: int, y: int| x <= y),
{
}

/// Sorts the prices ascending by exchanging out-of-order pairs.
pub fn sort_prices(v: &mut Vec<i128>)
    ensures
        ints(final(v)@) == ints(old(v)@).sort(),
        final(v)@.len() == old(v)@.len(),
{
    let n = v.len();
    let mut i: usize = 0;
    while i < n
        invariant
            n == v@.len(),
            i <= n,
            ints(v@).to_multiset() == ints(old(v)@).to_multiset(),
            forall|a: int, b: int| 0 <= a < b < i ==> v@[a] <= v@[b],
            forall|a: int, b: int| 0 <= a < i <= b < n ==> v@[a] <= v@[b],
        decreases n - i,
    {
        let mut j: usize = i + 1;
        while j < n
            invariant
                n == v@.len(),
                i < n,
                i + 1 <= j <= n,
                ints(v@).to_multiset() == ints(old(v)@).to_multiset(),
                forall|a: int, b: int| 0 <= a < b < i ==> v@[a] <= v@[b],
                forall|a: int, b: int| 0 <= a < i <= b < n ==> v@[a] <= v@[b],
                forall|k: int| i < k < j ==> v@[i as int] <= v@[k],
            decreases n - j,
        {
            if v[i] > v[j] {
                let a = v[i];
                let b = v[j];
                let ghost before = v@;
                v.set(i, b);
                v.set(j, a);
                proof {
                    lemma_swap_multiset(ints(before), i as int, j as int);
                    assert(ints(v@) =~= ints(before).update(i as int, ints(before)[j as int]).update(
                        j as int,
                        ints(before)[i as int],
                    ));
                }
            }
            j = j + 1;
        }
        i = i + 1;
    }
    proof {
        let leq = |x: int, y: int| x <= y;
        assert(sorted_by(ints(v@), leq));
        ints(old(v)@).lemma_sort_ensures();
        lemma_int_order_total();
        vstd::seq_lib::lemma_sorted_unique(ints(v@), ints(old(v)@).sort(), leq);
    }
}

/// The saturating sum of the prices, in order.
pub open spec fn sat_sum(s: Seq<i128>) -> int
    decreases s.len(),
{
    if s.len() == 0 {
        0
    } else {
        sat(sat_sum(s.drop_last()) + s.last())
    }
}

/// How many prices the average uses: at most the window (at least 1).
pub open spec fn twap_count(n: int, window: i128) -> int {
    min_int(n, max_int(window as int, 1))
}

/// The average of the first prices, as many as the window allows.
pub open spec fn spec_twap(s: Seq<i128>, window: i128) -> int {
    let use_n = twap_count(s.len() as int, window);
    tdiv(sat_sum(s.subrange(0, use_n)), use_n)
}

/// The median of `t[from..to)`: the middle value, or the truncated mean
/// of the two middle values for an even count.
pub open spec fn median_of(t: Seq<int>, from: int, to: int) -> int {
    let span = to - from;
    let mid = from + span / 2;
    if span % 2 == 1 {
        t[mid]
    } else {
        tdiv(t[mid - 1] + t[mid], 2)
    }
}

pub open spec fn abs_int(x: int) -> int {
    if x < 0 {
        -x
    } else {
        x
    }
}

/// The values of `s` within `max_diff` of `med`, in order.
pub open spec fn within(s: Seq<int>, med: int, max_diff: int) -> Seq<int>
    decreases s.len(),
{
    if s.len() == 0 {
        Seq::empty()
    } else {
        let rest = within(s.drop_last(), med, max_diff);
        if abs_int(s.last() - med) <= max_diff {
            rest.push(s.last())
        } else {
            rest
        }
    }
}

/// The range of sorted samples kept after trimming `trim` from each end
/// (nothing is trimmed when there are no more samples than `trim`).
pub open spec fn trim_bounds(n: int, trim: i128) -> (int, int) {
    let tr = max_int(trim as int, 0);
    if n > tr {
        (tr, n - tr)
    } else {
        (0, n)
    }
}

/// The largest distance from the median that the deviation filter keeps.
pub open spec fn max_deviation(med: int, deviation_bps: i128) -> int {
    tdiv(sat(abs_int(med) * max_int(deviation_bps as int, 0)), 10000)
}

/// The trimmed median of the prices with outliers beyond the deviation
/// removed: the median of the kept values (the plain trimmed median when
/// none is kept; the middle sample when trimming leaves nothing).
pub open spec fn spec_median_price(s: Seq<i128>, trim: i128, deviation_bps: i128) -> int {
    let t = ints(s).sort();
    let n = t.len() as int;
    let start = trim_bounds(n, trim).0;
    let end = trim_bounds(n, trim).1;
    if end <= start {
        t[n / 2]
    } else {
        let med = median_of(t, start, end);
        let f = within(t.subrange(start, end), med, max_deviation(med, deviation_bps)).sort();
        if f.len() == 0 {
            med
        } else {
            median_of(f, 0, f.len() as int)
        }
    }
}

/// The aggregated price: none without samples; the windowed average in
/// mode 1; the filtered median otherwise.
pub open spec fn spec_aggregate(s: Seq<i128>, mode: i128, window: i128, trim: i128, deviation_bps: i128) -> Option<int> {
    if s.len() == 0 {
        None
    } else if mode == 1 {
        Some(spec_twap(s, window))
    } else {
        Some(spec_median_price(s, trim, deviation_bps))
    }
}

/// The two middle values of `t[from..to)` sum within `i128`.
pub open spec fn middle_fits(t: Seq<int>, from: int, to: int) -> bool {
    let span = to - from;
    let mid = from + span / 2;
    span % 2 == 0 && span >= 2 ==> t[mid - 1] + t[mid] <= i128::MAX
}

/// The medians' sums stay within `i128`.
pub open spec fn aggregate_fits(s: Seq<i128>, mode: i128, trim: i128, deviation_bps: i128) -> bool {
    let t = ints(s).sort();
    let n = t.len() as int;
    let start = trim_bounds(n, trim).0;
    let end = trim_bounds(n, trim).1;
    let med = median_of(t, start, end);
    let f = within(t.subrange(start, end), med, max_deviation(med, deviation_bps)).sort();
    mode != 1 && n > 0 && end > start ==> middle_fits(t, start, end) && middle_fits(f, 0, f.len() as int)
}

/// Every price is positive.
pub open spec fn all_positive(s: Seq<i128>) -> bool {
    forall|i: int| 0 <= i < s.len() ==> s[i] > 0
}

pub proof fn lemma_sorted_positive(s: Seq<i128>)
    requires
        all_positive(s),
    ensures
        forall|k: int| 0 <= k < ints(s).sort().len() ==> ints(s).sort()[k] > 0,
        ints(s).sort().len() == s.len(),
{
    ints(s).lemma_sort_ensures();
    assert forall|k: int| 0 <= k < ints(s).sort().len() implies ints(s).sort()[k] > 0 by {
        let x = ints(s).sort()[k];
        vstd::seq_lib::to_multiset_contains(ints(s).sort(), x);
        vstd::seq_lib::to_multiset_contains(ints(s), x);
        assert(ints(s).sort().contains(x));
        assert(ints(s).contains(x));
    }
    vstd::seq_lib::to_multiset_len(ints(s).sort());
    vstd::seq_lib::to_multiset_len(ints(s));
}

pub proof fn lemma_within_sub(s: Seq<int>, med: int, max_diff: int)
    ensures
        forall|k: int| 0 <= k < within(s, med, max_diff).len() ==> s.contains(#[trigger] within(s, med, max_diff)[k]),
    decreases s.len(),
{
    if s.len() > 0 {
        lemma_within_sub(s.drop_last(), med, max_diff);
        let rest = within(s.drop_last(), med, max_diff);
        assert forall|k: int| 0 <= k < within(s, med, max_diff).len() implies s.contains(
            #[trigger] within(s, med, max_diff)[k],
        ) by {
            if k < rest.len() {
                let x = rest[k];
                assert(s.drop_last().contains(x));
                let j = choose|j: int| 0 <= j < s.drop_last().len() && s.drop_last()[j] == x;
                assert(s[j] == x);
            } else {
                assert(s[s.len() - 1] == s.last());
            }
        }
    }
}

fn median_at(t: &Vec<i128>, from: usize, to: usize) -> (r: i128)
    requires
        from < to <= t@.len(),
        forall|k: int| 0 <= k < t@.len() ==> t@[k] > 0,
        middle_fits(ints(t@), from as int, to as int),
    ensures
        r == median_of(ints(t@), from as int, to as int),
        r > 0,
{
    let span = to - from;
    let mid = from + span / 2;
    if span % 2 == 1 {
        t[mid]
    } else {
        (t[mid - 1] + t[mid]) / 2
    }
}

/// Aggregates positive prices: `None` without samples, else the windowed
/// average (mode 1) or the trimmed, deviation-filtered median.
pub fn aggregate_prices(prices: &Vec<i128>, mode: i128, twap_window: i128, trim_count: i128, deviation_bps: i128) -> (r:
    Option<i128>)
    requires
        all_positive(prices@),
        aggregate_fits(prices@, mode, trim_count, deviation_bps),
    ensures
        match spec_aggregate(prices@, mode, twap_window, trim_count, deviation_bps) {
            None => r.is_none(),
            Some(x) => r == Some(x as i128),
        },
{
    let n = prices.len();
    if n == 0 {
        return None;
    }
    if mode == 1 {
        let window: i128 = if twap_window < 1 {
            1
        } else {
            twap_window
        };
        let use_n: usize = if (n as i128) < window {
            n
        } else {
            window as usize
        };
        let mut sum: i128 = 0;
        let mut i: usize = 0;
        while i < use_n
            invariant
                use_n <= prices@.len(),
                i <= use_n,
                sum == sat_sum(prices@.subrange(0, i as int)),
            decreases use_n - i,
        {
            proof {
                assert(prices@.subrange(0, i + 1).drop_last() =~= prices@.subrange(0, i as int));
            }
            sum = crate::math::sat_add(sum, prices[i]);
            i = i + 1;
        }
        return Some(crate::math::div_pos(sum, use_n as i128));
    }
    let mut t: Vec<i128> = prices.clone();
    proof {
        lemma_sorted_positive(prices@);
    }
    sort_prices(&mut t);
    let ghost ts = ints(t@);
    proof {
        assert forall|k: int| 0 <= k < t@.len() implies t@[k] > 0 by {
            assert(ts[k] == t@[k] as int);
        }
    }
    let tr: i128 = if trim_count < 0 {
        0
    } else {
        trim_count
    };
    let (start, end): (usize, usize) = if (n as i128) > tr {
        (tr as usize, n - (tr as usize))
    } else {
        (0, n)
    };
    if end <= start {
        return Some(t[n / 2]);
    }
    let med = median_at(&t, start, end);
    let dev: i128 = if deviation_bps < 0 {
        0
    } else {
        deviation_bps
    };
    let max_diff = crate::math::div_pos(crate::math::sat_mul(med, dev), 10000);
    let mut filtered: Vec<i128> = Vec::new();
    let mut k: usize = start;
    while k < end
        invariant
            start <= k <= end,
            end <= t@.len(),
            ts == ints(t@),
            med > 0,
            forall|j: int| 0 <= j < t@.len() ==> t@[j] > 0,
            ints(filtered@) == within(ts.subrange(start as int, k as int), med as int, max_diff as int),
        decreases end - k,
    {
        let price = t[k];
        let diff = if price >= med {
            price - med
        } else {
            med - price
        };
        proof {
            assert(ts.subrange(start as int, k + 1).drop_last() =~= ts.subrange(start as int, k as int));
            assert(ts.subrange(start as int, k + 1).last() == price as int);
        }
        if diff <= max_diff {
            let ghost before = filtered@;
            filtered.push(price);
            proof {
                assert(ints(filtered@) =~= ints(before).push(price as int));
            }
        }
        k = k + 1;
    }
    let ghost f0 = ints(filtered@);
    if filtered.len() == 0 {
        proof {
            f0.lemma_sort_ensures();
            vstd::seq_lib::to_multiset_len(f0.sort());
            vstd::seq_lib::to_multiset_len(f0);
        }
        return Some(med);
    }
    proof {
        lemma_within_sub(ts.subrange(start as int, end as int), med as int, max_diff as int);
        assert forall|j: int| 0 <= j < filtered@.len() implies filtered@[j] > 0 by {
            assert(f0[j] == filtered@[j] as int);
            assert(ts.subrange(start as int, end as int).contains(f0[j]));
            let q = choose|q: int|
                0 <= q < ts.subrange(start as int, end as int).len() && ts.subrange(start as int, end as int)[q]
                    == f0[j];
            assert(ts[start + q] == t@[start + q] as int);
        }
    }
    let ghost fb = filtered@;
    sort_prices(&mut filtered);
    proof {
        assert forall|j: int| 0 <= j < filtered@.len() implies filtered@[j] > 0 by {
            lemma_sorted_positive(fb);
            assert(ints(filtered@)[j] == filtered@[j] as int);
        }
    }
    let m = filtered.len();
    Some(median_at(&filtered, 0, m))
}

/// A price source of an asset.
pub struct OracleSource {
    pub addr: String,
    /// Relative weight (the sum can be arbitrary)
    pub weight: i128,
    pub last_heartbeat: u64,
}

impl OracleSource {
    pub fn new(addr: String, weight: i128, last_heartbeat: u64) -> (r: Self)
        ensures
            r == (OracleSource { addr, weight, last_heartbeat }),
    {
        OracleSource { addr, weight, last_heartbeat }
    }

    pub fn clone_source(&self) -> (r: Self)
        ensures
            r == *self,
    {
        OracleSource { addr: self.addr.clone(), weight: self.weight, last_heartbeat: self.last_heartbeat }
    }
}

/// The sources registered for one asset.
pub struct AssetSources {
    pub asset: String,
    pub sources: Vec<OracleSource>,
}

impl Keyed for AssetSources {
    type Key = String;

    type KeyView = Seq<char>;

    open spec fn key_view(&self) -> Seq<char> {
        self.asset@
    }

    open spec fn view_of_key(k: &String) -> Seq<char> {
        k@
    }

    fn has_key_of(&self, k: &String) -> (b: bool) {
        self.asset.eq(k)
    }

    fn key_copy(&self) -> (k: String) {
        self.asset.clone()
    }
}

/// An aggregated price of an asset and when it was computed.
pub struct PriceCacheEntry {
    pub asset: String,
    pub price: i128,
    pub timestamp: u64,
}

impl Keyed for PriceCacheEntry {
    type Key = String;

    type KeyView = Seq<char>;

    open spec fn key_view(&self) -> Seq<char> {
        self.asset@
    }

    open spec fn view_of_key(k: &String) -> Seq<char> {
        k@
    }

    fn has_key_of(&self, k: &String) -> (b: bool) {
        self.asset.eq(k)
    }

    fn key_copy(&self) -> (k: String) {
        self.asset.clone()
    }
}

impl PriceCacheEntry {
    pub fn clone_entry(&self) -> (r: Self)
        ensures
            r == *self,
    {
        PriceCacheEntry { asset: self.asset.clone(), price: self.price, timestamp: self.timestamp }
    }
}

/// The oracle's storage and settings.
pub struct OracleState {
    pub sources: Vec<AssetSources>,
    /// Seconds after its last heartbeat that a source stays live (300)
    pub heartbeat_ttl: u64,
    /// Aggregation mode: 1 is the windowed average, anything else the median (0)
    pub mode: i128,
    /// How many aggregations ran
    pub perf_count: i128,
    /// Largest deviation from the median kept, in bps (500)
    pub deviation_bps: i128,
    /// Samples trimmed from each end before the median (1)
    pub trim_count: i128,
    /// Samples averaged in mode 1 (5)
    pub twap_window: i128,
    pub price_cache: Vec<PriceCacheEntry>,
    /// Seconds an aggregated price stays cached (30)
    pub price_cache_ttl: u64,
}

impl OracleState {
    pub open spec fn wf(&self) -> bool {
        keys_unique(self.sources@) && keys_unique(self.price_cache@)
    }

    /// Settings at their defaults, nothing registered or cached.
    pub fn new() -> (o: Self)
        ensures
            o.wf(),
            o.sources@.len() == 0,
            o.price_cache@.len() == 0,
            o.heartbeat_ttl == 300,
            o.mode == 0,
            o.perf_count == 0,
            o.deviation_bps == 500,
            o.trim_count == 1,
            o.twap_window == 5,
            o.price_cache_ttl == 30,
    {
        OracleState {
            sources: Vec::new(),
            heartbeat_ttl: 300,
            mode: 0,
            perf_count: 0,
            deviation_bps: 500,
            trim_count: 1,
            twap_window: 5,
            price_cache: Vec::new(),
            price_cache_ttl: 30,
        }
    }

    /// The sources registered for `asset`.
    pub open spec fn sources_of(&self, asset: Seq<char>) -> Seq<OracleSource> {
        if map_of(self.sources@).contains_key(asset) {
            map_of(self.sources@)[asset].sources@
        } else {
            Seq::empty()
        }
    }

    /// The cached price of `asset` and its time.
    pub open spec fn cached(&self, asset: Seq<char>) -> Option<(i128, u64)> {
        if map_of(self.price_cache@).contains_key(asset) {
            Some((map_of(self.price_cache@)[asset].price, map_of(self.price_cache@)[asset].timestamp))
        } else {
            None
        }
    }
}

/// The list after registering `src`: it replaces every source with its
/// address, or is appended when there is none.
pub open spec fn spec_set_source(list: Seq<OracleSource>, src: OracleSource) -> Seq<OracleSource> {
    if exists|i: int| 0 <= i < list.len() && #[trigger] list[i].addr@ == src.addr@ {
        list.map_values(|s: OracleSource| if s.addr@ == src.addr@ { src } else { s })
    } else {
        list.push(src)
    }
}

/// The list without the sources at `addr`, in order.
pub open spec fn spec_without(list: Seq<OracleSource>, addr: Seq<char>) -> Seq<OracleSource>
    decreases list.len(),
{
    if list.len() == 0 {
        Seq::empty()
    } else {
        let rest = spec_without(list.drop_last(), addr);
        if list.last().addr@ != addr {
            rest.push(list.last())
        } else {
            rest
        }
    }
}

/// A source heard from within `ttl` seconds of `now` is live.
pub open spec fn is_live(s: OracleSource, now: u64, ttl: u64) -> bool {
    (if now >= s.last_heartbeat {
        now - s.last_heartbeat
    } else {
        0
    }) <= ttl
}

/// The addresses of the live sources, in order.
pub open spec fn spec_live(list: Seq<OracleSource>, now: u64, ttl: u64) -> Seq<Seq<char>>
    decreases list.len(),
{
    if list.len() == 0 {
        Seq::empty()
    } else {
        let rest = spec_live(list.drop_last(), now, ttl);
        if is_live(list.last(), now, ttl) {
            rest.push(list.last().addr@)
        } else {
            rest
        }
    }
}

/// The positive quotes, in order.
pub open spec fn spec_positive(q: Seq<i128>) -> Seq<i128>
    decreases q.len(),
{
    if q.len() == 0 {
        Seq::empty()
    } else {
        let rest = spec_positive(q.drop_last());
        if q.last() > 0 {
            rest.push(q.last())
        } else {
            rest
        }
    }
}

proof fn lemma_positive_all(q: Seq<i128>)
    ensures
        all_positive(spec_positive(q)),
    decreases q.len(),
{
    if q.len() > 0 {
        lemma_positive_all(q.drop_last());
    }
}

/// The aggregated price of the positive quotes under the oracle's settings.
pub open spec fn spec_oracle_price(o: &OracleState, quotes: Seq<i128>) -> Option<int> {
    spec_aggregate(spec_positive(quotes), o.mode, o.twap_window, o.trim_count, o.deviation_bps)
}

/// The cache step of a price lookup: `Some` on a fresh hit, `None` when the
/// price must be fetched (a stale entry is evicted).
pub open spec fn spec_cache_lookup(o: &OracleState, asset: Seq<char>, now: u64) -> Option<i128> {
    match o.cached(asset) {
        Some((price, ts)) => if (if now >= ts {
            now - ts
        } else {
            0
        }) <= o.price_cache_ttl {
            Some(price)
        } else {
            None
        },
        None => None,
    }
}

/// The `CacheUpdated` event of the price cache with `action`.
pub open spec fn cache_event(ev: ProtocolEvent, action: Seq<char>) -> bool {
    ev matches ProtocolEvent::CacheUpdated(k, a) && k@ == "oracle_price_cache"@ && a@ == action
}

/// Storage helpers of the oracle.
pub struct OracleStorage;

impl OracleStorage {
    /// The sources registered for `asset`.
    pub fn get_sources(o: &OracleState, asset: &String) -> (r: Vec<OracleSource>)
        requires
            o.wf(),
        ensures
            r@ == o.sources_of(asset@),
    {
        match find_key(&o.sources, asset) {
            Some(i) => {
                proof {
                    lemma_lookup_at(o.sources@, i as int);
                }
                let list = &o.sources[i].sources;
                let mut out: Vec<OracleSource> = Vec::new();
                let mut j: usize = 0;
                while j < list.len()
                    invariant
                        j <= list@.len(),
                        out@ == list@.subrange(0, j as int),
                    decreases list@.len() - j,
                {
                    out.push(list[j].clone_source());
                    proof {
                        assert(out@ =~= list@.subrange(0, j + 1));
                    }
                    j = j + 1;
                }
                proof {
                    assert(out@ =~= list@);
                }
                out
            },
            None => Vec::new(),
        }
    }

    /// Replaces the sources of `asset`.
    pub fn put_sources(o: &mut OracleState, asset: &String, sources: Vec<OracleSource>)
        requires
            old(o).wf(),
        ensures
            final(o).wf(),
            forall|a: Seq<char>| #[trigger] final(o).sources_of(a) == (if a == asset@ {
                sources@
            } else {
                old(o).sources_of(a)
            }),
            *final(o) == (OracleState { sources: final(o).sources, ..*old(o) }),
    {
        upsert(&mut o.sources, AssetSources { asset: asset.clone(), sources });
    }

    pub fn get_heartbeat_ttl(o: &OracleState) -> (r: u64)
        ensures
            r == o.heartbeat_ttl,
    {
        o.heartbeat_ttl
    }

    pub fn set_heartbeat_ttl(o: &mut OracleState, ttl: u64)
        ensures
            *final(o) == (OracleState { heartbeat_ttl: ttl, ..*old(o) }),
    {
        o.heartbeat_ttl = ttl;
    }

    pub fn set_mode(o: &mut OracleState, mode: i128)
        ensures
            *final(o) == (OracleState { mode, ..*old(o) }),
    {
        o.mode = mode;
    }

    pub fn get_mode(o: &OracleState) -> (r: i128)
        ensures
            r == o.mode,
    {
        o.mode
    }

    /// Counts one more aggregation and returns the new count.
    pub fn inc_perf(o: &mut OracleState) -> (r: i128)
        requires
            old(o).perf_count < i128::MAX,
        ensures
            r == old(o).perf_count + 1,
            *final(o) == (OracleState { perf_count: r, ..*old(o) }),
    {
        o.perf_count = o.perf_count + 1;
        o.perf_count
    }

    pub fn get_deviation_bps(o: &OracleState) -> (r: i128)
        ensures
            r == o.deviation_bps,
    {
        o.deviation_bps
    }

    pub fn set_deviation_bps(o: &mut OracleState, bps: i128)
        ensures
            *final(o) == (OracleState { deviation_bps: bps, ..*old(o) }),
    {
        o.deviation_bps = bps;
    }

    pub fn get_trim_count(o: &OracleState) -> (r: i128)
        ensures
            r == o.trim_count,
    {
        o.trim_count
    }

    pub fn set_trim_count(o: &mut OracleState, count: i128)
        ensures
            *final(o) == (OracleState { trim_count: count, ..*old(o) }),
    {
        o.trim_count = count;
    }

    pub fn get_twap_window(o: &OracleState) -> (r: i128)
        ensures
            r == o.twap_window,
    {
        o.twap_window
    }

    pub fn set_twap_window(o: &mut OracleState, window: i128)
        ensures
            *final(o) == (OracleState { twap_window: window, ..*old(o) }),
    {
        o.twap_window = window;
    }

    /// A copy of the price cache.
    pub fn get_price_cache(o: &OracleState) -> (r: Vec<PriceCacheEntry>)
        ensures
            r@ == o.price_cache@,
    {
        let mut out: Vec<PriceCacheEntry> = Vec::new();
        let mut j: usize = 0;
        while j < o.price_cache.len()
            invariant
                j <= o.price_cache@.len(),
                out@ == o.price_cache@.subrange(0, j as int),
            decreases o.price_cache@.len() - j,
        {
            out.push(o.price_cache[j].clone_entry());
            proof {
                assert(out@ =~= o.price_cache@.subrange(0, j + 1));
            }
            j = j + 1;
        }
        proof {
            assert(out@ =~= o.price_cache@);
        }
        out
    }

    /// Replaces the price cache.
    pub fn put_price_cache(o: &mut OracleState, cache: Vec<PriceCacheEntry>)
        requires
            keys_unique(cache@),
        ensures
            *final(o) == (OracleState { price_cache: cache, ..*old(o) }),
    {
        o.price_cache = cache;
    }

    pub fn get_price_cache_ttl(o: &OracleState) -> (r: u64)
        ensures
            r == o.price_cache_ttl,
    {
        o.price_cache_ttl
    }

    pub fn set_price_cache_ttl(o: &mut OracleState, ttl: u64)
        ensures
            *final(o) == (OracleState { price_cache_ttl: ttl, ..*old(o) }),
    {
        o.price_cache_ttl = ttl;
    }
}

/// The oracle.
pub struct Oracle;

impl Oracle {
    /// Registers `source` for `asset`, replacing the sources with its
    /// address (access control is the caller's).
    pub fn set_source(o: &mut OracleState, _caller: &String, asset: &String, source: OracleSource)
        requires
            old(o).wf(),
        ensures
            final(o).wf(),
            forall|a: Seq<char>| #[trigger] final(o).sources_of(a) == (if a == asset@ {
                spec_set_source(old(o).sources_of(asset@), source)
            } else {
                old(o).sources_of(a)
            }),
            *final(o) == (OracleState { sources: final(o).sources, ..*old(o) }),
    {
        let list = OracleStorage::get_sources(o, asset);
        let mut replaced = false;
        let mut out: Vec<OracleSource> = Vec::new();
        let mut i: usize = 0;
        while i < list.len()
            invariant
                i <= list@.len(),
                out@ == list@.subrange(0, i as int).map_values(
                    |s: OracleSource| if s.addr@ == source.addr@ { source } else { s },
                ),
                replaced == exists|j: int| 0 <= j < i && #[trigger] list@[j].addr@ == source.addr@,
            decreases list@.len() - i,
        {
            if list[i].addr.eq(&source.addr) {
                out.push(source.clone_source());
                replaced = true;
            } else {
                out.push(list[i].clone_source());
            }
            proof {
                assert(out@ =~= list@.subrange(0, i + 1).map_values(
                    |s: OracleSource| if s.addr@ == source.addr@ { source } else { s },
                ));
            }
            i = i + 1;
        }
        proof {
            assert(list@.subrange(0, list@.len() as int) =~= list@);
        }
        if !replaced {
            out.push(source);
        }
        OracleStorage::put_sources(o, asset, out);
    }

    /// Removes the sources at `addr` from `asset`.
    pub fn remove_source(o: &mut OracleState, _caller: &String, asset: &String, addr: &String)
        requires
            old(o).wf(),
        ensures
            final(o).wf(),
            forall|a: Seq<char>| #[trigger] final(o).sources_of(a) == (if a == asset@ {
                spec_without(old(o).sources_of(asset@), addr@)
            } else {
                old(o).sources_of(a)
            }),
            *final(o) == (OracleState { sources: final(o).sources, ..*old(o) }),
    {
        let list = OracleStorage::get_sources(o, asset);
        let mut out: Vec<OracleSource> = Vec::new();
        let mut i: usize = 0;
        while i < list.len()
            invariant
                i <= list@.len(),
                out@ == spec_without(list@.subrange(0, i as int), addr@),
            decreases list@.len() - i,
        {
            proof {
                assert(list@.subrange(0, i + 1).drop_last() =~= list@.subrange(0, i as int));
            }
            if !list[i].addr.eq(addr) {
                out.push(list[i].clone_source());
            }
            i = i + 1;
        }
        proof {
            assert(list@.subrange(0, list@.len() as int) =~= list@);
        }
        OracleStorage::put_sources(o, asset, out);
    }

    /// The addresses of the sources of `asset` heard from within the
    /// heartbeat TTL of `now`; the host asks each for its quote.
    pub fn live_sources(o: &OracleState, now: u64, asset: &String) -> (r: Vec<String>)
        requires
            o.wf(),
        ensures
            texts(r@) == spec_live(o.sources_of(asset@), now, o.heartbeat_ttl),
    {
        let list = OracleStorage::get_sources(o, asset);
        let ttl = OracleStorage::get_heartbeat_ttl(o);
        let mut out: Vec<String> = Vec::new();
        let mut i: usize = 0;
        while i < list.len()
            invariant
                i <= list@.len(),
                list@ == o.sources_of(asset@),
                ttl == o.heartbeat_ttl,
                texts(out@) == spec_live(list@.subrange(0, i as int), now, ttl),
            decreases list@.len() - i,
        {
            proof {
                assert(list@.subrange(0, i + 1).drop_last() =~= list@.subrange(0, i as int));
            }
            if crate::math::sat_sub_u64(now, list[i].last_heartbeat) <= ttl {
                let ghost before = out@;
                out.push(list[i].addr.clone());
                proof {
                    assert(texts(out@) =~= texts(before).push(list@[i as int].addr@));
                }
            }
            i = i + 1;
        }
        proof {
            assert(list@.subrange(0, list@.len() as int) =~= list@);
        }
        out
    }

    /// The positive quotes, in order (the others are ignored).
    pub fn fetch_prices(quotes: &Vec<i128>) -> (r: Vec<i128>)
        ensures
            r@ == spec_positive(quotes@),
    {
        let mut out: Vec<i128> = Vec::new();
        let mut i: usize = 0;
        while i < quotes.len()
            invariant
                i <= quotes@.len(),
                out@ == spec_positive(quotes@.subrange(0, i as int)),
            decreases quotes@.len() - i,
        {
            proof {
                assert(quotes@.subrange(0, i + 1).drop_last() =~= quotes@.subrange(0, i as int));
            }
            if quotes[i] > 0 {
                out.push(quotes[i]);
            }
            i = i + 1;
        }
        proof {
            assert(quotes@.subrange(0, quotes@.len() as int) =~= quotes@);
        }
        out
    }

    /// The cache step of a price lookup: a price cached within the TTL is
    /// returned (`CacheUpdated` hit); a stale one is evicted (`CacheUpdated`
    /// evict) and `None` returned, as without an entry.
    pub fn cached_price(p: &mut Protocol, asset: &String) -> (r: Option<i128>)
        requires
            old(p).wf(),
        ensures
            final(p).wf(),
            r == spec_cache_lookup(&old(p).oracle, asset@, old(p).now),
            match old(p).oracle.cached(asset@) {
                None => *final(p) == *old(p),
                Some(_) => {
                    let ev = final(p).outbox@.last()->Event_0;
                    &&& final(p).outbox@ == old(p).outbox@.push(Notice::Event(ev))
                    &&& cache_event(ev, if r is Some { "hit"@ } else { "evict"@ })
                    &&& old(p).events.appended(final(p).events, capture_view(ev, old(p).now))
                    &&& map_of(final(p).oracle.price_cache@) == (if r is Some {
                        map_of(old(p).oracle.price_cache@)
                    } else {
                        map_of(old(p).oracle.price_cache@).remove(asset@)
                    })
                    &&& *final(p) == (Protocol {
                        oracle: OracleState { price_cache: final(p).oracle.price_cache, ..old(p).oracle },
                        events: final(p).events,
                        outbox: final(p).outbox,
                        ..*old(p)
                    })
                },
            },
    {
        let ttl = OracleStorage::get_price_cache_ttl(&p.oracle);
        let now = p.now;
        match find_key(&p.oracle.price_cache, asset) {
            Some(i) => {
                proof {
                    lemma_lookup_at(p.oracle.price_cache@, i as int);
                }
                let cached = p.oracle.price_cache[i].price;
                let ts = p.oracle.price_cache[i].timestamp;
                if crate::math::sat_sub_u64(now, ts) <= ttl {
                    ProtocolEvent::CacheUpdated(text("oracle_price_cache"), text("hit")).emit(
                        &mut p.events,
                        &mut p.outbox,
                        now,
                    );
                    Some(cached)
                } else {
                    remove_key(&mut p.oracle.price_cache, asset);
                    ProtocolEvent::CacheUpdated(text("oracle_price_cache"), text("evict")).emit(
                        &mut p.events,
                        &mut p.outbox,
                        now,
                    );
                    None
                }
            },
            None => None,
        }
    }

    /// Aggregates the quotes the live sources returned (non-positive ones
    /// ignored), counts the aggregation and caches the price it yields
    /// (`CacheUpdated` set); `None` without a positive quote.
    pub fn aggregate_price(p: &mut Protocol, asset: &String, quotes: &Vec<i128>) -> (r: Option<i128>)
        requires
            old(p).wf(),
            old(p).oracle.perf_count < i128::MAX,
            aggregate_fits(
                spec_positive(quotes@),
                old(p).oracle.mode,
                old(p).oracle.trim_count,
                old(p).oracle.deviation_bps,
            ),
        ensures
            final(p).wf(),
            match spec_oracle_price(&old(p).oracle, quotes@) {
                None => r.is_none() && *final(p) == (Protocol {
                    oracle: OracleState { perf_count: (old(p).oracle.perf_count + 1) as i128, ..old(p).oracle },
                    ..*old(p)
                }),
                Some(x) => {
                    let ev = final(p).outbox@.last()->Event_0;
                    &&& r == Some(x as i128)
                    &&& final(p).outbox@ == old(p).outbox@.push(Notice::Event(ev))
                    &&& cache_event(ev, "set"@)
                    &&& old(p).events.appended(final(p).events, capture_view(ev, old(p).now))
                    &&& map_of(final(p).oracle.price_cache@) == map_of(old(p).oracle.price_cache@).insert(
                        asset@,
                        PriceCacheEntry { asset: *asset, price: x as i128, timestamp: old(p).now },
                    )
                    &&& *final(p) == (Protocol {
                        oracle: OracleState {
                            price_cache: final(p).oracle.price_cache,
                            perf_count: (old(p).oracle.perf_count + 1) as i128,
                            ..old(p).oracle
                        },
                        events: final(p).events,
                        outbox: final(p).outbox,
                        ..*old(p)
                    })
                },
            },
    {
        let prices = Self::fetch_prices(quotes);
        OracleStorage::inc_perf(&mut p.oracle);
        proof {
            lemma_positive_all(quotes@);
        }
        let out = aggregate_prices(
            &prices,
            p.oracle.mode,
            p.oracle.twap_window,
            p.oracle.trim_count,
            p.oracle.deviation_bps,
        );
        match out {
            Some(price) => {
                let now = p.now;
                upsert(&mut p.oracle.price_cache, PriceCacheEntry { asset: asset.clone(), price, timestamp: now });
                ProtocolEvent::CacheUpdated(text("oracle_price_cache"), text("set")).emit(
                    &mut p.events,
                    &mut p.outbox,
                    now,
                );
                Some(price)
            },
            None => None,
        }
    }
}

} // verus!
