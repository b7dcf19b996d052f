//! Protocol events: the event enum, the on-ledger event log with per-type
//! aggregates, and the notices handed to the host for publication.
use vstd::prelude::*;
use crate::keyed::{Keyed, keys_unique, lookup, upsert, find_key, lemma_lookup_at};
use crate::math::sat;

verus! {

/// Protocol events.
pub enum ProtocolEvent {
    /// user, collateral, debt, collateral_ratio
    PositionUpdated(String, i128, i128, i128),
    /// user, borrow_interest, supply_interest
    InterestAccrued(String, i128, i128),
    /// liquidator, user, collateral_seized, debt_repaid
    LiquidationExecuted(String, String, i128, i128),
    /// close_factor, liquidation_incentive
    RiskParamsUpdated(i128, i128),
    /// pause_borrow, pause_deposit, pause_withdraw, pause_liquidate
    PauseSwitchesUpdated(bool, bool, bool, bool),
    CrossDeposit(String, String, i128),
    CrossBorrow(String, String, i128),
    CrossRepay(String, String, i128),
    CrossWithdraw(String, String, i128),
    /// initiator, asset, amount, fee
    FlashLoanInitiated(String, String, i128, i128),
    FlashLoanCompleted(String, String, i128, i128),
    /// asset, new collateral factor
    DynamicCFUpdated(String, i128),
    /// user, asset_in, asset_out, amount_in, amount_out
    AMMSwap(String, String, String, i128, i128),
    /// user, asset_a, asset_b, amount_a, amount_b
    AMMLiquidityAdded(String, String, String, i128, i128),
    /// user, pool, lp_amount
    AMMLiquidityRemoved(String, String, i128),
    /// base_limit, factor, min_rate_bps, max_rate_bps
    RiskParamsSet(i128, i128, i128, i128),
    /// user, score, credit limit
    UserRiskUpdated(String, i128, i128),
    /// user, asset, debt_portion
    AuctionStarted(String, String, i128),
    /// bidder, user, bid_amount
    AuctionBidPlaced(String, String, i128),
    /// winner, user, seized_collateral, repaid_debt
    AuctionSettled(String, String, i128, i128),
    /// user, risk_score
    RiskAlert(String, i128),
    /// metric name, value
    PerfMetric(String, i128),
    /// cache key, operation
    CacheUpdated(String, String),
    ComplianceKycUpdated(String, bool),
    ComplianceAlert(String, String),
    /// spread_bps, inventory_cap
    MMParamsUpdated(i128, i128),
    MMIncentiveAccrued(String, i128),
    /// target, topic
    WebhookRegistered(String, String),
    /// reporter, code
    BugReportLogged(String, String),
    /// action, reference
    AuditTrail(String, String),
    /// base_bps, tier1_bps
    FeesUpdated(i128, i128),
    /// premium_bps, coverage_cap
    InsuranceParamsUpdated(i128, i128),
    CircuitBreaker(bool),
    /// user, amount, reason
    ClaimFiled(String, i128, String),
    /// network_id, bridge, fee_bps
    BridgeRegistered(String, String, i128),
    BridgeFeeUpdated(String, i128),
    /// user, network_id, asset, amount, fee
    AssetBridgedIn(String, String, String, i128, i128),
    AssetBridgedOut(String, String, String, i128, i128),
    HealthReported(String),
    PerformanceReported(i128),
    SecurityIncident(String),
    IntegrationRegistered(String, String),
    IntegrationCalled(String, String),
    /// user, activity_type, amount, timestamp
    AnalyticsUpdated(String, String, i128, u64),
    EmergencyStatusChanged(String, Option<String>),
    EmergencyRecoveryStep(String),
    EmergencyParamUpdateQueued(String, i128),
    EmergencyParamUpdateApplied(String, i128),
    /// actor, delta, reserve_delta
    EmergencyFundUpdated(String, i128, i128),
    EmergencyManagerUpdated(String, bool),
}

/// The text of an optional string.
pub open spec fn opt_view(o: Option<String>) -> Option<Seq<char>> {
    match o {
        Some(s) => Some(s@),
        None => None,
    }
}

/// A snapshot of an emitted protocol event, kept for indexing and analytics.
pub struct EventRecord {
    pub event_type: String,
    pub topics: Vec<String>,
    pub user: Option<String>,
    pub asset: Option<String>,
    pub amount: i128,
    pub timestamp: u64,
}

/// The content of an `EventRecord`.
#[verifier::ext_equal]
pub struct EventRecordView {
    pub event_type: Seq<char>,
    pub topics: Seq<Seq<char>>,
    pub user: Option<Seq<char>>,
    pub asset: Option<Seq<char>>,
    pub amount: i128,
    pub timestamp: u64,
}

pub open spec fn texts(v: Seq<String>) -> Seq<Seq<char>> {
    v.map_values(|s: String| s@)
}

impl View for EventRecord {
    type V = EventRecordView;

    open spec fn view(&self) -> EventRecordView {
        EventRecordView {
            event_type: self.event_type@,
            topics: texts(self.topics@),
            user: opt_view(self.user),
            asset: opt_view(self.asset),
            amount: self.amount,
            timestamp: self.timestamp,
        }
    }
}

pub fn clone_text(s: &String) -> (r: String)
    ensures
        r@ == s@,
{
    s.clone()
}

pub fn clone_opt_text(o: &Option<String>) -> (r: Option<String>)
    ensures
        opt_view(r) == opt_view(*o),
{
    match o {
        Some(s) => Some(s.clone()),
        None => None,
    }
}

/// An exact copy of an optional string.
pub fn clone_opt_exact(o: &Option<String>) -> (r: Option<String>)
    ensures
        r == *o,
{
    match o {
        Some(s) => Some(s.clone()),
        None => None,
    }
}

pub fn clone_texts(v: &Vec<String>) -> (r: Vec<String>)
    ensures
        texts(r@) == texts(v@),
{
    let mut out: Vec<String> = Vec::new();
    let mut i: usize = 0;
    while i < v.len()
        invariant
            i <= v@.len(),
            out@.len() == i,
            forall|j: int| 0 <= j < i ==> #[trigger] out@[j]@ == v@[j]@,
        decreases v@.len() - i,
    {
        out.push(v[i].clone());
        i = i + 1;
    }
    assert(texts(out@) =~= texts(v@));
    out
}

impl EventRecord {
    /// A record stamped with time `now`.
    pub fn new(
        now: u64,
        event_type: String,
        topics: Vec<String>,
        user: Option<String>,
        asset: Option<String>,
        amount: i128,
    ) -> (r: Self)
        ensures
            r.event_type == event_type,
            r.topics == topics,
            r.user == user,
            r.asset == asset,
            r.amount == amount,
            r.timestamp == now,
    {
        EventRecord { event_type, topics, user, asset, amount, timestamp: now }
    }

    pub fn clone_record(&self) -> (r: Self)
        ensures
            r@ == self@,
    {
        EventRecord {
            event_type: clone_text(&self.event_type),
            topics: clone_texts(&self.topics),
            user: clone_opt_text(&self.user),
            asset: clone_opt_text(&self.asset),
            amount: self.amount,
            timestamp: self.timestamp,
        }
    }
}

/// Aggregated statistics for one event type.
pub struct EventAggregate {
    pub event_type: String,
    pub count: u64,
    pub total_amount: i128,
    pub last_timestamp: u64,
}

impl Keyed for EventAggregate {
    type Key = String;

    type KeyView = Seq<char>;

    open spec fn key_view(&self) -> Seq<char> {
        self.event_type@
    }

    open spec fn view_of_key(k: &String) -> Seq<char> {
        k@
    }

    fn has_key_of(&self, k: &String) -> (b: bool) {
        self.event_type.eq(k)
    }

    fn key_copy(&self) -> (k: String) {
        self.event_type.clone()
    }
}

impl EventAggregate {
    /// An empty aggregate for `event_type`.
    pub fn new(event_type: &String) -> (a: Self)
        ensures
            a.event_type@ == event_type@,
            a.count == 0,
            a.total_amount == 0,
            a.last_timestamp == 0,
    {
        EventAggregate { event_type: event_type.clone(), count: 0, total_amount: 0, last_timestamp: 0 }
    }

    /// Counts one more event of `amount` at `timestamp` (saturating).
    pub fn apply(&mut self, amount: i128, timestamp: u64)
        ensures
            final(self).event_type == old(self).event_type,
            final(self).count == (if old(self).count < u64::MAX {
                (old(self).count + 1) as u64
            } else {
                u64::MAX
            }),
            final(self).total_amount == sat(old(self).total_amount + amount),
            final(self).last_timestamp == timestamp,
    {
        if self.count < u64::MAX {
            self.count = self.count + 1;
        }
        self.total_amount = crate::math::sat_add(self.total_amount, amount);
        self.last_timestamp = timestamp;
    }

    pub fn clone_aggregate(&self) -> (r: Self)
        ensures
            r.event_type@ == self.event_type@,
            r.count == self.count,
            r.total_amount == self.total_amount,
            r.last_timestamp == self.last_timestamp,
    {
        EventAggregate {
            event_type: self.event_type.clone(),
            count: self.count,
            total_amount: self.total_amount,
            last_timestamp: self.last_timestamp,
        }
    }
}

/// The recorded events of one type, newest last.
pub struct EventLog {
    pub event_type: String,
    pub records: Vec<EventRecord>,
}

impl Keyed for EventLog {
    type Key = String;

    type KeyView = Seq<char>;

    open spec fn key_view(&self) -> Seq<char> {
        self.event_type@
    }

    open spec fn view_of_key(k: &String) -> Seq<char> {
        k@
    }

    fn has_key_of(&self, k: &String) -> (b: bool) {
        self.event_type.eq(k)
    }

    fn key_copy(&self) -> (k: String) {
        self.event_type.clone()
    }
}

/// The contents of aggregates: type, count, total amount, last timestamp.
pub open spec fn agg_views(s: Seq<EventAggregate>) -> Seq<(Seq<char>, u64, i128, u64)> {
    s.map_values(|a: EventAggregate| (a.event_type@, a.count, a.total_amount, a.last_timestamp))
}

/// The per-type totals and the recently seen event types.
pub struct EventSummary {
    pub totals: Vec<EventAggregate>,
    pub recent_types: Vec<String>,
}

impl EventSummary {
    /// No totals and no recent types.
    pub fn empty() -> (r: Self)
        ensures
            r.totals@.len() == 0,
            r.recent_types@.len() == 0,
    {
        EventSummary { totals: Vec::new(), recent_types: Vec::new() }
    }
}

/// Storage accessors for events.
pub struct EventStorage;

impl EventStorage {
    /// A copy of the per-type aggregates.
    pub fn get_aggregates(store: &EventStore) -> (r: Vec<EventAggregate>)
        ensures
            agg_views(r@) == agg_views(store.aggregates@),
    {
        let mut out: Vec<EventAggregate> = Vec::new();
        let mut i: usize = 0;
        while i < store.aggregates.len()
            invariant
                i <= store.aggregates@.len(),
                agg_views(out@) == agg_views(store.aggregates@.subrange(0, i as int)),
            decreases store.aggregates@.len() - i,
        {
            let ghost before = out@;
            out.push(store.aggregates[i].clone_aggregate());
            proof {
                assert(store.aggregates@.subrange(0, i + 1) =~= store.aggregates@.subrange(0, i as int).push(store.aggregates@[i as int]));
                assert(agg_views(out@) =~= agg_views(before).push(agg_views(store.aggregates@)[i as int]));
                assert(agg_views(out@) =~= agg_views(store.aggregates@.subrange(0, i + 1)));
            }
            i = i + 1;
        }
        proof {
            assert(store.aggregates@.subrange(0, store.aggregates@.len() as int) =~= store.aggregates@);
        }
        out
    }

    /// A copy of the records logged for `event_type`, oldest first.
    pub fn get_logs(store: &EventStore, event_type: &String) -> (r: Vec<EventRecord>)
        requires
            store.wf(),
        ensures
            records_view(r@) == store.log_of(event_type@),
    {
        match find_key(&store.logs, event_type) {
            Some(i) => {
                proof {
                    lemma_lookup_at(store.logs@, i as int);
                }
                let records = &store.logs[i].records;
                let mut out: Vec<EventRecord> = Vec::new();
                let mut j: usize = 0;
                while j < records.len()
                    invariant
                        j <= records@.len(),
                        records_view(out@) == records_view(records@.subrange(0, j as int)),
                    decreases records@.len() - j,
                {
                    let ghost before = out@;
                    out.push(records[j].clone_record());
                    proof {
                        assert(records@.subrange(0, j + 1) =~= records@.subrange(0, j as int).push(records@[j as int]));
                        assert(records_view(out@) =~= records_view(before).push(records@[j as int]@));
                        assert(records_view(out@) =~= records_view(records@.subrange(0, j + 1)));
                    }
                    j = j + 1;
                }
                proof {
                    assert(records@.subrange(0, records@.len() as int) =~= records@);
                }
                out
            },
            None => {
                proof {
                    assert(records_view(Seq::<EventRecord>::empty()) =~= Seq::<EventRecordView>::empty());
                }
                Vec::new()
            },
        }
    }

    /// The totals per type and the recently seen types.
    pub fn get_summary(store: &EventStore) -> (r: EventSummary)
        ensures
            agg_views(r.totals@) == agg_views(store.aggregates@),
            texts(r.recent_types@) == store.recent_view(),
    {
        EventSummary { totals: Self::get_aggregates(store), recent_types: clone_texts(&store.recent_types) }
    }

    /// Appends a record (see `EventStore::append_event`).
    pub fn append_event(store: &mut EventStore, record: EventRecord)
        requires
            old(store).wf(),
        ensures
            old(store).appended(*final(store), record@),
    {
        store.append_event(record);
    }
}

/// Most records kept per event type.
pub const MAX_RECORDS_PER_TYPE: usize = 32;

/// Most distinct event types kept in the recent-types summary.
pub const MAX_RECENT_TYPES: usize = 16;

pub open spec fn records_view(v: Seq<EventRecord>) -> Seq<EventRecordView> {
    v.map_values(|r: EventRecord| r@)
}

/// The last `n` elements of `s` (all of them when it is shorter).
pub open spec fn keep_last<T>(s: Seq<T>, n: int) -> Seq<T> {
    if s.len() > n {
        s.subrange(s.len() - n, s.len() as int)
    } else {
        s
    }
}

/// On-ledger event storage: per-type logs, per-type aggregates and the list
/// of recently seen event types (the summary's totals are the aggregates).
pub struct EventStore {
    pub logs: Vec<EventLog>,
    pub aggregates: Vec<EventAggregate>,
    pub recent_types: Vec<String>,
}

impl EventStore {
    pub open spec fn wf(&self) -> bool {
        keys_unique(self.logs@) && keys_unique(self.aggregates@)
    }

    /// The records logged for type `k`, oldest first.
    pub open spec fn log_of(&self, k: Seq<char>) -> Seq<EventRecordView> {
        match lookup(self.logs@, k) {
            Some(l) => records_view(l.records@),
            None => Seq::empty(),
        }
    }

    /// The aggregate of type `k` as (count, total, last timestamp); zeros when absent.
    pub open spec fn aggregate_of(&self, k: Seq<char>) -> (u64, i128, u64) {
        match lookup(self.aggregates@, k) {
            Some(a) => (a.count, a.total_amount, a.last_timestamp),
            None => (0, 0, 0),
        }
    }

    pub open spec fn recent_view(&self) -> Seq<Seq<char>> {
        texts(self.recent_types@)
    }

    /// The aggregate after one more event of `amount` at `ts`.
    pub open spec fn spec_bump(agg: (u64, i128, u64), amount: i128, ts: u64) -> (u64, i128, u64) {
        (
            if agg.0 < u64::MAX {
                (agg.0 + 1) as u64
            } else {
                u64::MAX
            },
            sat(agg.1 + amount) as i128,
            ts,
        )
    }

    /// What appending `r` leaves in the store, seen through its views.
    pub open spec fn appended(&self, after: EventStore, r: EventRecordView) -> bool {
        &&& after.wf()
        &&& forall|k: Seq<char>|
            #[trigger] after.log_of(k) == (if k == r.event_type {
                keep_last(self.log_of(k).push(r), MAX_RECORDS_PER_TYPE as int)
            } else {
                self.log_of(k)
            })
        &&& forall|k: Seq<char>|
            #[trigger] after.aggregate_of(k) == (if k == r.event_type {
                EventStore::spec_bump(self.aggregate_of(k), r.amount, r.timestamp)
            } else {
                self.aggregate_of(k)
            })
        &&& after.recent_view() == (if self.recent_view().contains(r.event_type) {
            self.recent_view()
        } else {
            keep_last(self.recent_view().push(r.event_type), MAX_RECENT_TYPES as int)
        })
    }

    /// The two stores hold the same logs, aggregates and recent types.
    pub open spec fn same_as(&self, other: EventStore) -> bool {
        &&& other.wf()
        &&& forall|k: Seq<char>| #[trigger] other.log_of(k) == self.log_of(k)
        &&& forall|k: Seq<char>| #[trigger] other.aggregate_of(k) == self.aggregate_of(k)
        &&& other.recent_view() == self.recent_view()
    }

    /// `after` is this store with the records `rs` appended in order.
    pub open spec fn appended_all(&self, after: EventStore, rs: Seq<EventRecordView>) -> bool
        decreases rs.len(),
    {
        if rs.len() == 0 {
            self.same_as(after)
        } else {
            exists|mid: EventStore| #[trigger] self.appended(mid, rs[0]) && mid.appended_all(after, rs.drop_first())
        }
    }

    pub proof fn lemma_appended_one(&self, after: EventStore, r: EventRecordView)
        requires
            self.appended(after, r),
        ensures
            self.appended_all(after, seq![r]),
    {
        assert(seq![r].drop_first() =~= Seq::<EventRecordView>::empty());
        assert(after.appended_all(after, seq![r].drop_first()));
        assert(self.appended(after, seq![r][0]));
    }

    pub proof fn lemma_appended_two(&self, mid: EventStore, after: EventStore, r1: EventRecordView, r2: EventRecordView)
        requires
            self.appended(mid, r1),
            mid.appended(after, r2),
        ensures
            self.appended_all(after, seq![r1, r2]),
    {
        mid.lemma_appended_one(after, r2);
        assert(seq![r1, r2].drop_first() =~= seq![r2]);
        assert(self.appended(mid, seq![r1, r2][0]));
    }

    /// No records appended leave the store as it is.
    pub proof fn lemma_appended_all_empty(&self)
        requires
            self.wf(),
        ensures
            self.appended_all(*self, Seq::empty()),
    {
    }

    /// Appending one more record after a run of appends.
    pub proof fn lemma_appended_push(&self, mid: EventStore, after: EventStore, rs: Seq<EventRecordView>, r: EventRecordView)
        requires
            self.appended_all(mid, rs),
            mid.appended(after, r),
        ensures
            self.appended_all(after, rs.push(r)),
        decreases rs.len(),
    {
        if rs.len() == 0 {
            assert(rs.push(r) =~= seq![r]);
            self.lemma_same_appended(mid, after, r);
            self.lemma_appended_one(after, r);
        } else {
            let m = choose|m: EventStore| #[trigger] self.appended(m, rs[0]) && m.appended_all(mid, rs.drop_first());
            m.lemma_appended_push(mid, after, rs.drop_first(), r);
            assert(rs.push(r).drop_first() =~= rs.drop_first().push(r));
            assert(self.appended(m, rs.push(r)[0]));
        }
    }

    /// Appending to a store with the same contents gives the same contents.
    pub proof fn lemma_same_appended(&self, mid: EventStore, after: EventStore, r: EventRecordView)
        requires
            self.same_as(mid),
            mid.appended(after, r),
        ensures
            self.appended(after, r),
    {
    }

    pub proof fn lemma_appended_three(
        &self,
        mid1: EventStore,
        mid2: EventStore,
        after: EventStore,
        r1: EventRecordView,
        r2: EventRecordView,
        r3: EventRecordView,
    )
        requires
            self.appended(mid1, r1),
            mid1.appended(mid2, r2),
            mid2.appended(after, r3),
        ensures
            self.appended_all(after, seq![r1, r2, r3]),
    {
        mid1.lemma_appended_two(mid2, after, r2, r3);
        assert(seq![r1, r2, r3].drop_first() =~= seq![r2, r3]);
        assert(self.appended(mid1, seq![r1, r2, r3][0]));
    }

    /// An empty store.
    pub fn new() -> (s: Self)
        ensures
            s.wf(),
            s.logs@.len() == 0,
            s.aggregates@.len() == 0,
            s.recent_types@.len() == 0,
    {
        EventStore { logs: Vec::new(), aggregates: Vec::new(), recent_types: Vec::new() }
    }

    fn contains_type(types: &Vec<String>, t: &String) -> (b: bool)
        ensures
            b == texts(types@).contains(t@),
    {
        let mut i: usize = 0;
        while i < types.len()
            invariant
                i <= types@.len(),
                forall|j: int| 0 <= j < i ==> #[trigger] types@[j]@ != t@,
            decreases types@.len() - i,
        {
            if types[i].eq(t) {
                assert(texts(types@)[i as int] == t@);
                return true;
            }
            i = i + 1;
        }
        assert(!texts(types@).contains(t@)) by {
            if texts(types@).contains(t@) {
                let j = choose|j: int| 0 <= j < texts(types@).len() && texts(types@)[j] == t@;
                assert(types@[j]@ == t@);
            }
        }
        false
    }

    /// Appends a record: logs it under its type (keeping the latest 32),
    /// counts it in the type's aggregate and notes the type among the 16
    /// most recently new types.
    pub fn append_event(&mut self, record: EventRecord)
        requires
            old(self).wf(),
        ensures
            old(self).appended(*final(self), record@),
    {
        let ghost rv = record@;
        let ghost old_store = *self;
        let ty = clone_text(&record.event_type);
        let ts = record.timestamp;
        let amount = record.amount;
        // log
        let found = find_key(&self.logs, &ty);
        let new_log = match found {
            Some(i) => {
                let mut log = self.logs.remove(i);
                self.logs.insert(i, EventLog { event_type: clone_text(&ty), records: Vec::new() });
                log.records.push(record);
                if log.records.len() > MAX_RECORDS_PER_TYPE {
                    let at = log.records.len() - MAX_RECORDS_PER_TYPE;
                    log.records = log.records.split_off(at);
                }
                log
            },
            None => {
                let mut records: Vec<EventRecord> = Vec::new();
                records.push(record);
                EventLog { event_type: clone_text(&ty), records }
            },
        };
        proof {
            let pushed = records_view(
                match lookup(old_store.logs@, rv.event_type) {
                    Some(l) => l.records@,
                    None => Seq::<EventRecord>::empty(),
                },
            );
            if let Some(i) = found {
                assert(self.logs@ == old_store.logs@.update(
                    i as int,
                    EventLog { event_type: self.logs@[i as int].event_type, records: self.logs@[i as int].records },
                ));
                crate::keyed::lemma_lookup_at(old_store.logs@, i as int);
            }
            assert(keys_unique(self.logs@)) by {
                if let Some(i) = found {
                    assert forall|a: int, b: int|
                        0 <= a < self.logs@.len() && 0 <= b < self.logs@.len() && a != b
                        implies #[trigger] self.logs@[a].key_view() != #[trigger] self.logs@[b].key_view() by {
                        assert(self.logs@[a].key_view() == old_store.logs@[a].key_view());
                        assert(self.logs@[b].key_view() == old_store.logs@[b].key_view());
                    }
                }
            }
            assert(records_view(new_log.records@) == keep_last(
                old_store.log_of(rv.event_type).push(rv),
                MAX_RECORDS_PER_TYPE as int,
            )) by {
                let prev = match lookup(old_store.logs@, rv.event_type) {
                    Some(l) => l.records@,
                    None => Seq::<EventRecord>::empty(),
                };
                assert(records_view(prev.push(record)) =~= records_view(prev).push(rv));
                let full = prev.push(record);
                if full.len() > MAX_RECORDS_PER_TYPE {
                    assert(records_view(full.subrange(full.len() - 32, full.len() as int))
                        =~= records_view(full).subrange(full.len() - 32, full.len() as int));
                }
            }
            assert(forall|k: Seq<char>| k != rv.event_type ==> #[trigger] lookup(self.logs@, k) == lookup(old_store.logs@, k)) by {
                if let Some(i) = found {
                    assert forall|k: Seq<char>| k != rv.event_type implies #[trigger] lookup(self.logs@, k) == lookup(old_store.logs@, k) by {
                        if crate::keyed::has_key(old_store.logs@, k) {
                            let j = choose|j: int| 0 <= j < old_store.logs@.len() && #[trigger] old_store.logs@[j].key_view() == k;
                            assert(j != i);
                            crate::keyed::lemma_lookup_at(old_store.logs@, j);
                            assert(self.logs@[j] == old_store.logs@[j]);
                            crate::keyed::lemma_lookup_at(self.logs@, j);
                        } else {
                            if crate::keyed::has_key(self.logs@, k) {
                                let j = choose|j: int| 0 <= j < self.logs@.len() && #[trigger] self.logs@[j].key_view() == k;
                                assert(old_store.logs@[j].key_view() == self.logs@[j].key_view());
                            }
                        }
                    }
                }
            }
        }
        upsert(&mut self.logs, new_log);
        // aggregate
        let found_agg = find_key(&self.aggregates, &ty);
        let mut agg = match found_agg {
            Some(i) => self.aggregates[i].clone_aggregate(),
            None => EventAggregate::new(&ty),
        };
        proof {
            if let Some(i) = found_agg {
                crate::keyed::lemma_lookup_at(self.aggregates@, i as int);
            }
        }
        agg.apply(amount, ts);
        upsert(&mut self.aggregates, agg);
        // recent types
        if !Self::contains_type(&self.recent_types, &ty) {
            self.recent_types.push(ty);
            proof {
                assert(texts(self.recent_types@) =~= texts(old_store.recent_types@).push(rv.event_type));
            }
            if self.recent_types.len() > MAX_RECENT_TYPES {
                let at = self.recent_types.len() - MAX_RECENT_TYPES;
                let ghost full = self.recent_types@;
                self.recent_types = self.recent_types.split_off(at);
                proof {
                    assert(texts(self.recent_types@) =~= texts(full).subrange(full.len() - 16, full.len() as int));
                }
            }
        }
    }
}

} // verus!

verus! {

/// A record view whose type is the first topic.
pub open spec fn mk_view(
    topics: Seq<Seq<char>>,
    user: Option<Seq<char>>,
    asset: Option<Seq<char>>,
    amount: i128,
    now: u64,
) -> EventRecordView {
    EventRecordView { event_type: topics[0], topics, user, asset, amount, timestamp: now }
}

/// The record captured for an event emitted at time `now`: its type, its
/// topics (the type first), the user and asset it concerns and its amount.
pub open spec fn capture_view(ev: ProtocolEvent, now: u64) -> EventRecordView {
    match ev {
            ProtocolEvent::PositionUpdated(addr, collateral, _, _) => mk_view(seq!["position_updated"@, "user"@], Some(addr@), None, collateral, now),
            ProtocolEvent::InterestAccrued(addr, borrow_interest, _) => mk_view(seq!["interest_accrued"@, "user"@], Some(addr@), None, borrow_interest, now),
            ProtocolEvent::LiquidationExecuted(liquidator, target, seized, _) => mk_view(seq!["liquidation_executed"@, "liquidator"@, "user"@], Some(liquidator@), Some(target@), seized, now),
            ProtocolEvent::CrossDeposit(addr, asset_addr, value) => mk_view(seq!["cross_deposit"@, "user"@, "asset"@], Some(addr@), Some(asset_addr@), value, now),
            ProtocolEvent::CrossBorrow(addr, asset_addr, value) => mk_view(seq!["cross_borrow"@, "user"@, "asset"@], Some(addr@), Some(asset_addr@), value, now),
            ProtocolEvent::CrossRepay(addr, asset_addr, value) => mk_view(seq!["cross_repay"@, "user"@, "asset"@], Some(addr@), Some(asset_addr@), value, now),
            ProtocolEvent::CrossWithdraw(addr, asset_addr, value) => mk_view(seq!["cross_withdraw"@, "user"@, "asset"@], Some(addr@), Some(asset_addr@), value, now),
            ProtocolEvent::FlashLoanInitiated(initiator, asset_addr, value, _) => mk_view(seq!["flash_loan_initiated"@, "initiator"@, "asset"@], Some(initiator@), Some(asset_addr@), value, now),
            ProtocolEvent::FlashLoanCompleted(initiator, asset_addr, value, _) => mk_view(seq!["flash_loan_completed"@, "initiator"@, "asset"@], Some(initiator@), Some(asset_addr@), value, now),
            ProtocolEvent::DynamicCFUpdated(asset_addr, new_cf) => mk_view(seq!["dynamic_cf_updated"@, "asset"@], None, Some(asset_addr@), new_cf, now),
            ProtocolEvent::AMMSwap(user_addr, in_asset, _, amount_in, _) => mk_view(seq!["amm_swap"@, "user"@, "asset_in"@, "asset_out"@], Some(user_addr@), Some(in_asset@), amount_in, now),
            ProtocolEvent::AMMLiquidityAdded(user_addr, asset_a, _, amount_a, _) => mk_view(seq!["amm_liquidity_added"@, "user"@, "asset"@], Some(user_addr@), Some(asset_a@), amount_a, now),
            ProtocolEvent::AMMLiquidityRemoved(user_addr, pool, lp_amount) => mk_view(seq!["amm_liquidity_removed"@, "user"@, "pool"@], Some(user_addr@), Some(pool@), lp_amount, now),
            ProtocolEvent::RiskParamsSet(_, _, _, _) => mk_view(seq!["risk_params_set"@], None, None, 0, now),
            ProtocolEvent::UserRiskUpdated(user_addr, score, _) => mk_view(seq!["user_risk_updated"@, "user"@], Some(user_addr@), None, score, now),
            ProtocolEvent::AuctionStarted(user_addr, asset_addr, debt_portion) => mk_view(seq!["auction_started"@, "user"@], Some(user_addr@), Some(asset_addr@), debt_portion, now),
            ProtocolEvent::AuctionBidPlaced(bidder, user_addr, bid_amount) => mk_view(seq!["auction_bid_placed"@, "bidder"@, "user"@], Some(bidder@), Some(user_addr@), bid_amount, now),
            ProtocolEvent::AuctionSettled(winner, user_addr, seized, _) => mk_view(seq!["auction_settled"@, "winner"@, "user"@], Some(winner@), Some(user_addr@), seized, now),
            ProtocolEvent::RiskAlert(user_addr, score) => mk_view(seq!["risk_alert"@, "user"@], Some(user_addr@), None, score, now),
            ProtocolEvent::PerfMetric(metric, value) => mk_view(seq!["perf_metric"@, metric@], None, None, value, now),
            ProtocolEvent::CacheUpdated(key, action) => mk_view(seq!["cache_updated"@, key@, action@], None, None, 0, now),
            ProtocolEvent::ComplianceKycUpdated(addr, status) => mk_view(seq!["compliance_kyc_updated"@, "user"@], Some(addr@), None, if status { 1 } else { 0 }, now),
            ProtocolEvent::ComplianceAlert(addr, reason) => mk_view(seq!["compliance_alert"@, reason@], Some(addr@), None, 0, now),
            ProtocolEvent::MMIncentiveAccrued(user_addr, value) => mk_view(seq!["mm_incentive_accrued"@, "user"@], Some(user_addr@), None, value, now),
            ProtocolEvent::WebhookRegistered(target, topic) => mk_view(seq!["webhook_registered"@, topic@], Some(target@), None, 0, now),
            ProtocolEvent::BugReportLogged(reporter, code) => mk_view(seq!["bug_report_logged"@, code@], Some(reporter@), None, 0, now),
            ProtocolEvent::AuditTrail(action, reference) => mk_view(seq!["audit_trail"@, action@, reference@], None, None, 0, now),
            ProtocolEvent::FeesUpdated(base, tier1) => mk_view(seq!["fees_updated"@], None, None, sat(base + tier1) as i128, now),
            ProtocolEvent::InsuranceParamsUpdated(premium, coverage) => mk_view(seq!["insurance_params_updated"@], None, None, sat(premium + coverage) as i128, now),
            ProtocolEvent::CircuitBreaker(flag) => mk_view(seq!["circuit_breaker"@], None, None, if flag { 1 } else { 0 }, now),
            ProtocolEvent::ClaimFiled(user_addr, value, reason) => mk_view(seq!["claim_filed"@, reason@], Some(user_addr@), None, value, now),
            ProtocolEvent::BridgeRegistered(_, bridge, fee) => mk_view(seq!["bridge_registered"@, "bridge"@], None, Some(bridge@), fee, now),
            ProtocolEvent::BridgeFeeUpdated(_, fee) => mk_view(seq!["bridge_fee_updated"@], None, None, fee, now),
            ProtocolEvent::AssetBridgedIn(user_addr, _, asset_addr, amount_in, _) => mk_view(seq!["asset_bridged_in"@, "user"@, "asset"@], Some(user_addr@), Some(asset_addr@), amount_in, now),
            ProtocolEvent::AssetBridgedOut(user_addr, _, asset_addr, amount_out, _) => mk_view(seq!["asset_bridged_out"@, "user"@, "asset"@], Some(user_addr@), Some(asset_addr@), amount_out, now),
            ProtocolEvent::HealthReported(_) => mk_view(seq!["health_reported"@], None, None, 0, now),
            ProtocolEvent::PerformanceReported(gas) => mk_view(seq!["performance_reported"@], None, None, gas, now),
            ProtocolEvent::SecurityIncident(_) => mk_view(seq!["security_incident"@], None, None, 0, now),
            ProtocolEvent::IntegrationRegistered(_, _) => mk_view(seq!["integration_registered"@], None, None, 0, now),
            ProtocolEvent::IntegrationCalled(_, _) => mk_view(seq!["integration_called"@], None, None, 0, now),
            ProtocolEvent::AnalyticsUpdated(user_addr, _, value, _) => mk_view(seq!["analytics_updated"@, "user"@], Some(user_addr@), None, value, now),
            ProtocolEvent::EmergencyStatusChanged(_, _) => mk_view(seq!["emergency_status_changed"@], None, None, 0, now),
            ProtocolEvent::EmergencyRecoveryStep(_) => mk_view(seq!["emergency_recovery_step"@], None, None, 0, now),
            ProtocolEvent::EmergencyParamUpdateQueued(_, _) => mk_view(seq!["emergency_param_update_queued"@], None, None, 0, now),
            ProtocolEvent::EmergencyParamUpdateApplied(_, _) => mk_view(seq!["emergency_param_update_applied"@], None, None, 0, now),
            ProtocolEvent::EmergencyFundUpdated(actor, delta, _) => mk_view(seq!["emergency_fund_updated"@, "actor"@], Some(actor@), None, delta, now),
            ProtocolEvent::EmergencyManagerUpdated(manager, flag) => mk_view(seq!["emergency_manager_updated"@, "manager"@], Some(manager@), None, if flag { 1 } else { 0 }, now),
            _ => mk_view(seq!["misc_event"@], None, None, 0, now),
    }
}

/// A string with the text of `s`.
pub fn text(s: &str) -> (r: String)
    ensures
        r@ == s@,
{
    String::from_str(s)
}

fn mk(now: u64, topics: Vec<String>, user: Option<String>, asset: Option<String>, amount: i128) -> (r: EventRecord)
    requires
        topics@.len() > 0,
    ensures
        r@ == mk_view(texts(topics@), opt_view(user), opt_view(asset), amount, now),
{
    let ty = clone_text(&topics[0]);
    EventRecord { event_type: ty, topics, user, asset, amount, timestamp: now }
}

/// Utility capturing event analytics as events are emitted.
pub struct EventTracker;

impl EventTracker {
    /// The record of an event at time `now`.
    pub fn capture(now: u64, event: &ProtocolEvent) -> (r: EventRecord)
        ensures
            r@ == capture_view(*event, now),
    {
        let r = match event {
            ProtocolEvent::PositionUpdated(addr, collateral, _, _) => mk(now, vec![text("position_updated"), text("user")], Some(clone_text(addr)), None, *collateral),
            ProtocolEvent::InterestAccrued(addr, borrow_interest, _) => mk(now, vec![text("interest_accrued"), text("user")], Some(clone_text(addr)), None, *borrow_interest),
            ProtocolEvent::LiquidationExecuted(liquidator, target, seized, _) => mk(now, vec![text("liquidation_executed"), text("liquidator"), text("user")], Some(clone_text(liquidator)), Some(clone_text(target)), *seized),
            ProtocolEvent::CrossDeposit(addr, asset_addr, value) => mk(now, vec![text("cross_deposit"), text("user"), text("asset")], Some(clone_text(addr)), Some(clone_text(asset_addr)), *value),
            ProtocolEvent::CrossBorrow(addr, asset_addr, value) => mk(now, vec![text("cross_borrow"), text("user"), text("asset")], Some(clone_text(addr)), Some(clone_text(asset_addr)), *value),
            ProtocolEvent::CrossRepay(addr, asset_addr, value) => mk(now, vec![text("cross_repay"), text("user"), text("asset")], Some(clone_text(addr)), Some(clone_text(asset_addr)), *value),
            ProtocolEvent::CrossWithdraw(addr, asset_addr, value) => mk(now, vec![text("cross_withdraw"), text("user"), text("asset")], Some(clone_text(addr)), Some(clone_text(asset_addr)), *value),
            ProtocolEvent::FlashLoanInitiated(initiator, asset_addr, value, _) => mk(now, vec![text("flash_loan_initiated"), text("initiator"), text("asset")], Some(clone_text(initiator)), Some(clone_text(asset_addr)), *value),
            ProtocolEvent::FlashLoanCompleted(initiator, asset_addr, value, _) => mk(now, vec![text("flash_loan_completed"), text("initiator"), text("asset")], Some(clone_text(initiator)), Some(clone_text(asset_addr)), *value),
            ProtocolEvent::DynamicCFUpdated(asset_addr, new_cf) => mk(now, vec![text("dynamic_cf_updated"), text("asset")], None, Some(clone_text(asset_addr)), *new_cf),
            ProtocolEvent::AMMSwap(user_addr, in_asset, _, amount_in, _) => mk(now, vec![text("amm_swap"), text("user"), text("asset_in"), text("asset_out")], Some(clone_text(user_addr)), Some(clone_text(in_asset)), *amount_in),
            ProtocolEvent::AMMLiquidityAdded(user_addr, asset_a, _, amount_a, _) => mk(now, vec![text("amm_liquidity_added"), text("user"), text("asset")], Some(clone_text(user_addr)), Some(clone_text(asset_a)), *amount_a),
            ProtocolEvent::AMMLiquidityRemoved(user_addr, pool, lp_amount) => mk(now, vec![text("amm_liquidity_removed"), text("user"), text("pool")], Some(clone_text(user_addr)), Some(clone_text(pool)), *lp_amount),
            ProtocolEvent::RiskParamsSet(_, _, _, _) => mk(now, vec![text("risk_params_set")], None, None, 0),
            ProtocolEvent::UserRiskUpdated(user_addr, score, _) => mk(now, vec![text("user_risk_updated"), text("user")], Some(clone_text(user_addr)), None, *score),
            ProtocolEvent::AuctionStarted(user_addr, asset_addr, debt_portion) => mk(now, vec![text("auction_started"), text("user")], Some(clone_text(user_addr)), Some(clone_text(asset_addr)), *debt_portion),
            ProtocolEvent::AuctionBidPlaced(bidder, user_addr, bid_amount) => mk(now, vec![text("auction_bid_placed"), text("bidder"), text("user")], Some(clone_text(bidder)), Some(clone_text(user_addr)), *bid_amount),
            ProtocolEvent::AuctionSettled(winner, user_addr, seized, _) => mk(now, vec![text("auction_settled"), text("winner"), text("user")], Some(clone_text(winner)), Some(clone_text(user_addr)), *seized),
            ProtocolEvent::RiskAlert(user_addr, score) => mk(now, vec![text("risk_alert"), text("user")], Some(clone_text(user_addr)), None, *score),
            ProtocolEvent::PerfMetric(metric, value) => mk(now, vec![text("perf_metric"), clone_text(metric)], None, None, *value),
            ProtocolEvent::CacheUpdated(key, action) => mk(now, vec![text("cache_updated"), clone_text(key), clone_text(action)], None, None, 0),
            ProtocolEvent::ComplianceKycUpdated(addr, status) => mk(now, vec![text("compliance_kyc_updated"), text("user")], Some(clone_text(addr)), None, if *status { 1 } else { 0 }),
            ProtocolEvent::ComplianceAlert(addr, reason) => mk(now, vec![text("compliance_alert"), clone_text(reason)], Some(clone_text(addr)), None, 0),
            ProtocolEvent::MMIncentiveAccrued(user_addr, value) => mk(now, vec![text("mm_incentive_accrued"), text("user")], Some(clone_text(user_addr)), None, *value),
            ProtocolEvent::WebhookRegistered(target, topic) => mk(now, vec![text("webhook_registered"), clone_text(topic)], Some(clone_text(target)), None, 0),
            ProtocolEvent::BugReportLogged(reporter, code) => mk(now, vec![text("bug_report_logged"), clone_text(code)], Some(clone_text(reporter)), None, 0),
            ProtocolEvent::AuditTrail(action, reference) => mk(now, vec![text("audit_trail"), clone_text(action), clone_text(reference)], None, None, 0),
            ProtocolEvent::FeesUpdated(base, tier1) => mk(now, vec![text("fees_updated")], None, None, crate::math::sat_add(*base, *tier1)),
            ProtocolEvent::InsuranceParamsUpdated(premium, coverage) => mk(now, vec![text("insurance_params_updated")], None, None, crate::math::sat_add(*premium, *coverage)),
            ProtocolEvent::CircuitBreaker(flag) => mk(now, vec![text("circuit_breaker")], None, None, if *flag { 1 } else { 0 }),
            ProtocolEvent::ClaimFiled(user_addr, value, reason) => mk(now, vec![text("claim_filed"), clone_text(reason)], Some(clone_text(user_addr)), None, *value),
            ProtocolEvent::BridgeRegistered(_, bridge, fee) => mk(now, vec![text("bridge_registered"), text("bridge")], None, Some(clone_text(bridge)), *fee),
            ProtocolEvent::BridgeFeeUpdated(_, fee) => mk(now, vec![text("bridge_fee_updated")], None, None, *fee),
            ProtocolEvent::AssetBridgedIn(user_addr, _, asset_addr, amount_in, _) => mk(now, vec![text("asset_bridged_in"), text("user"), text("asset")], Some(clone_text(user_addr)), Some(clone_text(asset_addr)), *amount_in),
            ProtocolEvent::AssetBridgedOut(user_addr, _, asset_addr, amount_out, _) => mk(now, vec![text("asset_bridged_out"), text("user"), text("asset")], Some(clone_text(user_addr)), Some(clone_text(asset_addr)), *amount_out),
            ProtocolEvent::HealthReported(_) => mk(now, vec![text("health_reported")], None, None, 0),
            ProtocolEvent::PerformanceReported(gas) => mk(now, vec![text("performance_reported")], None, None, *gas),
            ProtocolEvent::SecurityIncident(_) => mk(now, vec![text("security_incident")], None, None, 0),
            ProtocolEvent::IntegrationRegistered(_, _) => mk(now, vec![text("integration_registered")], None, None, 0),
            ProtocolEvent::IntegrationCalled(_, _) => mk(now, vec![text("integration_called")], None, None, 0),
            ProtocolEvent::AnalyticsUpdated(user_addr, _, value, _) => mk(now, vec![text("analytics_updated"), text("user")], Some(clone_text(user_addr)), None, *value),
            ProtocolEvent::EmergencyStatusChanged(_, _) => mk(now, vec![text("emergency_status_changed")], None, None, 0),
            ProtocolEvent::EmergencyRecoveryStep(_) => mk(now, vec![text("emergency_recovery_step")], None, None, 0),
            ProtocolEvent::EmergencyParamUpdateQueued(_, _) => mk(now, vec![text("emergency_param_update_queued")], None, None, 0),
            ProtocolEvent::EmergencyParamUpdateApplied(_, _) => mk(now, vec![text("emergency_param_update_applied")], None, None, 0),
            ProtocolEvent::EmergencyFundUpdated(actor, delta, _) => mk(now, vec![text("emergency_fund_updated"), text("actor")], Some(clone_text(actor)), None, *delta),
            ProtocolEvent::EmergencyManagerUpdated(manager, flag) => mk(now, vec![text("emergency_manager_updated"), text("manager")], Some(clone_text(manager)), None, if *flag { 1 } else { 0 }),
            _ => mk(now, vec![text("misc_event")], None, None, 0),
        };
        proof {
            assert(r@ =~= capture_view(*event, now));
        }
        r
    }

    /// Records an event of `event_type` (its topics default to the type alone).
    pub fn record(
        store: &mut EventStore,
        now: u64,
        event_type: String,
        topics: Vec<String>,
        user: Option<String>,
        asset: Option<String>,
        amount: i128,
    )
        requires
            old(store).wf(),
        ensures
            old(store).appended(
                *final(store),
                EventRecordView {
                    event_type: event_type@,
                    topics: if topics@.len() == 0 {
                        seq![event_type@]
                    } else {
                        texts(topics@)
                    },
                    user: opt_view(user),
                    asset: opt_view(asset),
                    amount,
                    timestamp: now,
                },
            ),
    {
        let mut topics = topics;
        if topics.len() == 0 {
            topics.push(clone_text(&event_type));
            proof {
                assert(texts(topics@) =~= seq![event_type@]);
            }
        }
        let record = EventRecord::new(now, event_type, topics, user, asset, amount);
        store.append_event(record);
    }
}

impl ProtocolEvent {
    /// Emits the event: captures it into the event store and queues it for
    /// publication.
    pub fn emit(self, store: &mut EventStore, outbox: &mut Vec<Notice>, now: u64)
        requires
            old(store).wf(),
        ensures
            old(store).appended(*final(store), capture_view(self, now)),
            final(outbox)@ == old(outbox)@.push(Notice::Event(self)),
    {
        let record = EventTracker::capture(now, &self);
        store.append_event(record);
        outbox.push(Notice::Event(self));
    }
}

} // verus!

verus! {

/// Everything the protocol hands to the host for publication, in order.
pub enum Notice {
    /// A protocol event.
    Event(ProtocolEvent),
    /// user, role
    UserRegistered(String, crate::users::UserRole),
    /// user, role
    UserRoleUpdated(String, crate::users::UserRole),
    /// user, status
    UserVerificationUpdated(String, crate::users::VerificationStatus),
    /// user, max_deposit, max_borrow, max_withdraw, daily_limit
    UserLimitsUpdated(String, i128, i128, i128, i128),
    /// user, operation, amount, timestamp
    UserActivityTracked(String, crate::users::OperationKind, i128, u64),
    /// flow, from, to, asset, amount
    TransferAttempt(String, String, String, String, i128),
    /// flow, from, to, asset, amount
    TransferSuccess(String, String, String, String, i128),
    /// flow, from, to, asset, amount, reason
    TransferFailure(String, String, String, String, i128, String),
}

} // verus!

verus! {

/// A value published with an event, typed as the host encodes it.
pub enum PubValue {
    Sym(String),
    Addr(String),
    Text(String),
    Int(i128),
    Uint(u64),
    Flag(bool),
    OptText(Option<String>),
}

/// The content of a `PubValue`.
pub enum PubView {
    Sym(Seq<char>),
    Addr(Seq<char>),
    Text(Seq<char>),
    Int(i128),
    Uint(u64),
    Flag(bool),
    OptText(Option<Seq<char>>),
}

impl View for PubValue {
    type V = PubView;

    open spec fn view(&self) -> PubView {
        match self {
            PubValue::Sym(s) => PubView::Sym(s@),
            PubValue::Addr(s) => PubView::Addr(s@),
            PubValue::Text(s) => PubView::Text(s@),
            PubValue::Int(x) => PubView::Int(*x),
            PubValue::Uint(x) => PubView::Uint(*x),
            PubValue::Flag(b) => PubView::Flag(*b),
            PubValue::OptText(o) => PubView::OptText(opt_view(*o)),
        }
    }
}

pub open spec fn pub_views(s: Seq<PubValue>) -> Seq<PubView> {
    s.map_values(|v: PubValue| v@)
}

/// How an event is published: its topics, and its data as a tuple of
/// values (or a single bare value).
pub struct Publication {
    pub topics: Vec<PubValue>,
    pub data: Vec<PubValue>,
    pub bare: bool,
}

/// The content of a `Publication`.
#[verifier::ext_equal]
pub struct PublicationView {
    pub topics: Seq<PubView>,
    pub data: Seq<PubView>,
    pub bare: bool,
}

impl View for Publication {
    type V = PublicationView;

    open spec fn view(&self) -> PublicationView {
        PublicationView { topics: pub_views(self.topics@), data: pub_views(self.data@), bare: self.bare }
    }
}

/// A publication whose data is a tuple.
pub open spec fn pub_tuple(topics: Seq<PubView>, data: Seq<PubView>) -> PublicationView {
    PublicationView { topics, data, bare: false }
}

fn publication_of(topics: Vec<PubValue>, data: Vec<PubValue>) -> (r: Publication)
    ensures
        r@ == pub_tuple(pub_views(topics@), pub_views(data@)),
{
    Publication { topics, data, bare: false }
}

/// How each event is published: a type topic and a second topic, and data
/// pairing each field's name with its value.
pub open spec fn spec_publication(ev: ProtocolEvent) -> PublicationView {
    match ev {
        ProtocolEvent::PositionUpdated(user, collateral, debt, collateral_ratio) => pub_tuple(seq![PubView::Sym("position_updated"@), PubView::Sym("user"@)], seq![PubView::Sym("user"@), PubView::Addr(user@), PubView::Sym("collateral"@), PubView::Int(collateral), PubView::Sym("debt"@), PubView::Int(debt), PubView::Sym("collateral_ratio"@), PubView::Int(collateral_ratio)]),
        ProtocolEvent::InterestAccrued(user, borrow_interest, supply_interest) => pub_tuple(seq![PubView::Sym("interest_accrued"@), PubView::Sym("user"@)], seq![PubView::Sym("user"@), PubView::Addr(user@), PubView::Sym("borrow_interest"@), PubView::Int(borrow_interest), PubView::Sym("supply_interest"@), PubView::Int(supply_interest)]),
        ProtocolEvent::LiquidationExecuted(liquidator, user, collateral_seized, debt_repaid, ) => pub_tuple(seq![PubView::Sym("liquidation_executed"@), PubView::Sym("liquidator"@)], seq![PubView::Sym("liquidator"@), PubView::Addr(liquidator@), PubView::Sym("user"@), PubView::Addr(user@), PubView::Sym("collateral_seized"@), PubView::Int(collateral_seized), PubView::Sym("debt_repaid"@), PubView::Int(debt_repaid)]),
        ProtocolEvent::RiskParamsUpdated(close_factor, liquidation_incentive) => pub_tuple(seq![PubView::Sym("risk_params_updated"@), PubView::Sym("close_factor"@)], seq![PubView::Sym("close_factor"@), PubView::Int(close_factor), PubView::Sym("liquidation_incentive"@), PubView::Int(liquidation_incentive)]),
        ProtocolEvent::PauseSwitchesUpdated(pause_borrow, pause_deposit, pause_withdraw, pause_liquidate, ) => pub_tuple(seq![PubView::Sym("pause_switches_updated"@), PubView::Sym("pause_borrow"@)], seq![PubView::Sym("pause_borrow"@), PubView::Flag(pause_borrow), PubView::Sym("pause_deposit"@), PubView::Flag(pause_deposit), PubView::Sym("pause_withdraw"@), PubView::Flag(pause_withdraw), PubView::Sym("pause_liquidate"@), PubView::Flag(pause_liquidate)]),
        ProtocolEvent::CrossDeposit(user, asset, amount) => pub_tuple(seq![PubView::Sym("cross_deposit"@), PubView::Sym("user"@)], seq![PubView::Sym("user"@), PubView::Addr(user@), PubView::Sym("asset"@), PubView::Addr(asset@), PubView::Sym("amount"@), PubView::Int(amount)]),
        ProtocolEvent::CrossBorrow(user, asset, amount) => pub_tuple(seq![PubView::Sym("cross_borrow"@), PubView::Sym("user"@)], seq![PubView::Sym("user"@), PubView::Addr(user@), PubView::Sym("asset"@), PubView::Addr(asset@), PubView::Sym("amount"@), PubView::Int(amount)]),
        ProtocolEvent::CrossRepay(user, asset, amount) => pub_tuple(seq![PubView::Sym("cross_repay"@), PubView::Sym("user"@)], seq![PubView::Sym("user"@), PubView::Addr(user@), PubView::Sym("asset"@), PubView::Addr(asset@), PubView::Sym("amount"@), PubView::Int(amount)]),
        ProtocolEvent::CrossWithdraw(user, asset, amount) => pub_tuple(seq![PubView::Sym("cross_withdraw"@), PubView::Sym("user"@)], seq![PubView::Sym("user"@), PubView::Addr(user@), PubView::Sym("asset"@), PubView::Addr(asset@), PubView::Sym("amount"@), PubView::Int(amount)]),
        ProtocolEvent::EmergencyStatusChanged(status, reason) => pub_tuple(seq![PubView::Sym("emergency_status"@), PubView::Sym(status@)], seq![PubView::Sym("status"@), PubView::Sym(status@), PubView::Sym("reason"@), PubView::OptText(opt_view(reason))]),
        ProtocolEvent::EmergencyRecoveryStep(step) => pub_tuple(seq![PubView::Sym("emergency_recovery_step"@), PubView::Sym("step"@)], seq![PubView::Sym("step"@), PubView::Text(step@)]),
        ProtocolEvent::EmergencyParamUpdateQueued(key, value) => pub_tuple(seq![PubView::Sym("emergency_param_update_queued"@), PubView::Sym(key@)], seq![PubView::Sym("parameter"@), PubView::Sym(key@), PubView::Sym("value"@), PubView::Int(value)]),
        ProtocolEvent::EmergencyParamUpdateApplied(key, value) => pub_tuple(seq![PubView::Sym("emergency_param_update_applied"@), PubView::Sym(key@)], seq![PubView::Sym("parameter"@), PubView::Sym(key@), PubView::Sym("value"@), PubView::Int(value)]),
        ProtocolEvent::EmergencyFundUpdated(actor, delta, reserve_delta) => pub_tuple(seq![PubView::Sym("emergency_fund"@), PubView::Addr(actor@)], seq![PubView::Sym("actor"@), PubView::Addr(actor@), PubView::Sym("delta"@), PubView::Int(delta), PubView::Sym("reserve_delta"@), PubView::Int(reserve_delta)]),
        ProtocolEvent::EmergencyManagerUpdated(manager, enabled) => pub_tuple(seq![PubView::Sym("emergency_manager"@), PubView::Addr(manager@)], seq![PubView::Sym("manager"@), PubView::Addr(manager@), PubView::Sym("enabled"@), PubView::Flag(enabled)]),
        ProtocolEvent::FlashLoanInitiated(initiator, asset, amount, fee) => pub_tuple(seq![PubView::Sym("flash_loan_initiated"@), PubView::Sym("user"@)], seq![PubView::Sym("user"@), PubView::Addr(initiator@), PubView::Sym("asset"@), PubView::Addr(asset@), PubView::Sym("amount"@), PubView::Int(amount), PubView::Sym("fee"@), PubView::Int(fee)]),
        ProtocolEvent::FlashLoanCompleted(initiator, asset, amount, fee) => pub_tuple(seq![PubView::Sym("flash_loan_completed"@), PubView::Sym("user"@)], seq![PubView::Sym("user"@), PubView::Addr(initiator@), PubView::Sym("asset"@), PubView::Addr(asset@), PubView::Sym("amount"@), PubView::Int(amount), PubView::Sym("fee"@), PubView::Int(fee)]),
        ProtocolEvent::DynamicCFUpdated(asset, new_cf) => pub_tuple(seq![PubView::Sym("dynamic_cf_updated"@), PubView::Sym("asset"@)], seq![PubView::Sym("asset"@), PubView::Addr(asset@), PubView::Sym("new_cf"@), PubView::Int(new_cf)]),
        ProtocolEvent::AMMSwap(user, asset_in, asset_out, amount_in, amount_out) => pub_tuple(seq![PubView::Sym("amm_swap"@), PubView::Sym("user"@)], seq![PubView::Sym("user"@), PubView::Addr(user@), PubView::Sym("asset_in"@), PubView::Addr(asset_in@), PubView::Sym("asset_out"@), PubView::Addr(asset_out@), PubView::Sym("amount_in"@), PubView::Int(amount_in), PubView::Sym("amount_out"@), PubView::Int(amount_out)]),
        ProtocolEvent::AMMLiquidityAdded(user, asset_a, asset_b, amt_a, amt_b) => pub_tuple(seq![PubView::Sym("amm_liquidity_added"@), PubView::Sym("user"@)], seq![PubView::Sym("user"@), PubView::Addr(user@), PubView::Sym("asset_a"@), PubView::Addr(asset_a@), PubView::Sym("asset_b"@), PubView::Addr(asset_b@), PubView::Sym("amount_a"@), PubView::Int(amt_a), PubView::Sym("amount_b"@), PubView::Int(amt_b)]),
        ProtocolEvent::AMMLiquidityRemoved(user, pool, lp_amount) => pub_tuple(seq![PubView::Sym("amm_liquidity_removed"@), PubView::Sym("user"@)], seq![PubView::Sym("user"@), PubView::Addr(user@), PubView::Sym("pool"@), PubView::Addr(pool@), PubView::Sym("lp_amount"@), PubView::Int(lp_amount)]),
        ProtocolEvent::RiskParamsSet(base_limit, factor, min_rate_bps, max_rate_bps) => pub_tuple(seq![PubView::Sym("risk_params_set"@), PubView::Sym("base_limit"@)], seq![PubView::Sym("base_limit"@), PubView::Int(base_limit), PubView::Sym("factor"@), PubView::Int(factor), PubView::Sym("min_rate_bps"@), PubView::Int(min_rate_bps), PubView::Sym("max_rate_bps"@), PubView::Int(max_rate_bps)]),
        ProtocolEvent::UserRiskUpdated(user, score, limit) => pub_tuple(seq![PubView::Sym("user_risk_updated"@), PubView::Sym("user"@)], seq![PubView::Sym("user"@), PubView::Addr(user@), PubView::Sym("score"@), PubView::Int(score), PubView::Sym("credit_limit"@), PubView::Int(limit)]),
        ProtocolEvent::AuctionStarted(user, asset, debt_portion) => pub_tuple(seq![PubView::Sym("auction_started"@), PubView::Sym("user"@)], seq![PubView::Sym("user"@), PubView::Addr(user@), PubView::Sym("asset"@), PubView::Addr(asset@), PubView::Sym("debt_portion"@), PubView::Int(debt_portion)]),
        ProtocolEvent::AuctionBidPlaced(bidder, user, bid_amount) => pub_tuple(seq![PubView::Sym("auction_bid"@), PubView::Sym("bidder"@)], seq![PubView::Sym("bidder"@), PubView::Addr(bidder@), PubView::Sym("user"@), PubView::Addr(user@), PubView::Sym("bid_amount"@), PubView::Int(bid_amount)]),
        ProtocolEvent::AuctionSettled(winner, user, seized, repaid) => pub_tuple(seq![PubView::Sym("auction_settled"@), PubView::Sym("winner"@)], seq![PubView::Sym("winner"@), PubView::Addr(winner@), PubView::Sym("user"@), PubView::Addr(user@), PubView::Sym("seized_collateral"@), PubView::Int(seized), PubView::Sym("repaid_debt"@), PubView::Int(repaid)]),
        ProtocolEvent::RiskAlert(user, score) => pub_tuple(seq![PubView::Sym("risk_alert"@), PubView::Sym("user"@)], seq![PubView::Sym("user"@), PubView::Addr(user@), PubView::Sym("score"@), PubView::Int(score)]),
        ProtocolEvent::BridgeRegistered(network_id, bridge, fee_bps) => pub_tuple(seq![PubView::Sym("bridge_registered"@), PubView::Sym("network"@)], seq![PubView::Sym("network"@), PubView::Text(network_id@), PubView::Sym("bridge"@), PubView::Addr(bridge@), PubView::Sym("fee_bps"@), PubView::Int(fee_bps)]),
        ProtocolEvent::BridgeFeeUpdated(network_id, fee_bps) => pub_tuple(seq![PubView::Sym("bridge_fee_updated"@), PubView::Sym("network"@)], seq![PubView::Sym("network"@), PubView::Text(network_id@), PubView::Sym("fee_bps"@), PubView::Int(fee_bps)]),
        ProtocolEvent::AssetBridgedIn(user, network_id, asset, amount, fee) => pub_tuple(seq![PubView::Sym("asset_bridged_in"@), PubView::Sym("user"@)], seq![PubView::Sym("user"@), PubView::Addr(user@), PubView::Sym("network"@), PubView::Text(network_id@), PubView::Sym("asset"@), PubView::Addr(asset@), PubView::Sym("amount"@), PubView::Int(amount), PubView::Sym("fee"@), PubView::Int(fee)]),
        ProtocolEvent::AssetBridgedOut(user, network_id, asset, amount, fee) => pub_tuple(seq![PubView::Sym("asset_bridged_out"@), PubView::Sym("user"@)], seq![PubView::Sym("user"@), PubView::Addr(user@), PubView::Sym("network"@), PubView::Text(network_id@), PubView::Sym("asset"@), PubView::Addr(asset@), PubView::Sym("amount"@), PubView::Int(amount), PubView::Sym("fee"@), PubView::Int(fee)]),
        ProtocolEvent::HealthReported(msg) => pub_tuple(seq![PubView::Sym("health_report"@), PubView::Sym("msg"@)], seq![PubView::Sym("msg"@), PubView::Text(msg@)]),
        ProtocolEvent::PerformanceReported(gas) => pub_tuple(seq![PubView::Sym("performance_report"@), PubView::Sym("gas"@)], seq![PubView::Sym("gas"@), PubView::Int(gas)]),
        ProtocolEvent::SecurityIncident(msg) => pub_tuple(seq![PubView::Sym("security_incident"@), PubView::Sym("msg"@)], seq![PubView::Sym("msg"@), PubView::Text(msg@)]),
        ProtocolEvent::IntegrationRegistered(name, addr) => pub_tuple(seq![PubView::Sym("integration_registered"@), PubView::Sym("name"@)], seq![PubView::Sym("name"@), PubView::Text(name@), PubView::Sym("address"@), PubView::Addr(addr@)]),
        ProtocolEvent::IntegrationCalled(name, method) => pub_tuple(seq![PubView::Sym("integration_called"@), PubView::Sym("name"@)], seq![PubView::Sym("name"@), PubView::Text(name@), PubView::Sym("method"@), PubView::Sym(method@)]),
        ProtocolEvent::AnalyticsUpdated(user, activity_type, amount, timestamp) => pub_tuple(seq![PubView::Sym("analytics_updated"@), PubView::Sym("user"@)], seq![PubView::Sym("user"@), PubView::Addr(user@), PubView::Sym("activity_type"@), PubView::Text(activity_type@), PubView::Sym("amount"@), PubView::Int(amount), PubView::Sym("timestamp"@), PubView::Uint(timestamp)]),
        _ => PublicationView { topics: seq![PubView::Sym("protocol_event"@), PubView::Sym("misc"@)], data: seq![PubView::Sym("captured"@)], bare: true },
    }
}

impl ProtocolEvent {
    /// The topics and data under which the event is published.
    pub fn publication(&self) -> (r: Publication)
        ensures
            r@ == spec_publication(*self),
    {
        let r = match self {
            ProtocolEvent::PositionUpdated(user, collateral, debt, collateral_ratio) => publication_of(vec![PubValue::Sym(text("position_updated")), PubValue::Sym(text("user"))], vec![PubValue::Sym(text("user")), PubValue::Addr(clone_text(user)), PubValue::Sym(text("collateral")), PubValue::Int(*collateral), PubValue::Sym(text("debt")), PubValue::Int(*debt), PubValue::Sym(text("collateral_ratio")), PubValue::Int(*collateral_ratio)]),
            ProtocolEvent::InterestAccrued(user, borrow_interest, supply_interest) => publication_of(vec![PubValue::Sym(text("interest_accrued")), PubValue::Sym(text("user"))], vec![PubValue::Sym(text("user")), PubValue::Addr(clone_text(user)), PubValue::Sym(text("borrow_interest")), PubValue::Int(*borrow_interest), PubValue::Sym(text("supply_interest")), PubValue::Int(*supply_interest)]),
            ProtocolEvent::LiquidationExecuted(liquidator, user, collateral_seized, debt_repaid, ) => publication_of(vec![PubValue::Sym(text("liquidation_executed")), PubValue::Sym(text("liquidator"))], vec![PubValue::Sym(text("liquidator")), PubValue::Addr(clone_text(liquidator)), PubValue::Sym(text("user")), PubValue::Addr(clone_text(user)), PubValue::Sym(text("collateral_seized")), PubValue::Int(*collateral_seized), PubValue::Sym(text("debt_repaid")), PubValue::Int(*debt_repaid)]),
            ProtocolEvent::RiskParamsUpdated(close_factor, liquidation_incentive) => publication_of(vec![PubValue::Sym(text("risk_params_updated")), PubValue::Sym(text("close_factor"))], vec![PubValue::Sym(text("close_factor")), PubValue::Int(*close_factor), PubValue::Sym(text("liquidation_incentive")), PubValue::Int(*liquidation_incentive)]),
            ProtocolEvent::PauseSwitchesUpdated(pause_borrow, pause_deposit, pause_withdraw, pause_liquidate, ) => publication_of(vec![PubValue::Sym(text("pause_switches_updated")), PubValue::Sym(text("pause_borrow"))], vec![PubValue::Sym(text("pause_borrow")), PubValue::Flag(*pause_borrow), PubValue::Sym(text("pause_deposit")), PubValue::Flag(*pause_deposit), PubValue::Sym(text("pause_withdraw")), PubValue::Flag(*pause_withdraw), PubValue::Sym(text("pause_liquidate")), PubValue::Flag(*pause_liquidate)]),
            ProtocolEvent::CrossDeposit(user, asset, amount) => publication_of(vec![PubValue::Sym(text("cross_deposit")), PubValue::Sym(text("user"))], vec![PubValue::Sym(text("user")), PubValue::Addr(clone_text(user)), PubValue::Sym(text("asset")), PubValue::Addr(clone_text(asset)), PubValue::Sym(text("amount")), PubValue::Int(*amount)]),
            ProtocolEvent::CrossBorrow(user, asset, amount) => publication_of(vec![PubValue::Sym(text("cross_borrow")), PubValue::Sym(text("user"))], vec![PubValue::Sym(text("user")), PubValue::Addr(clone_text(user)), PubValue::Sym(text("asset")), PubValue::Addr(clone_text(asset)), PubValue::Sym(text("amount")), PubValue::Int(*amount)]),
            ProtocolEvent::CrossRepay(user, asset, amount) => publication_of(vec![PubValue::Sym(text("cross_repay")), PubValue::Sym(text("user"))], vec![PubValue::Sym(text("user")), PubValue::Addr(clone_text(user)), PubValue::Sym(text("asset")), PubValue::Addr(clone_text(asset)), PubValue::Sym(text("amount")), PubValue::Int(*amount)]),
            ProtocolEvent::CrossWithdraw(user, asset, amount) => publication_of(vec![PubValue::Sym(text("cross_withdraw")), PubValue::Sym(text("user"))], vec![PubValue::Sym(text("user")), PubValue::Addr(clone_text(user)), PubValue::Sym(text("asset")), PubValue::Addr(clone_text(asset)), PubValue::Sym(text("amount")), PubValue::Int(*amount)]),
            ProtocolEvent::EmergencyStatusChanged(status, reason) => publication_of(vec![PubValue::Sym(text("emergency_status")), PubValue::Sym(clone_text(status))], vec![PubValue::Sym(text("status")), PubValue::Sym(clone_text(status)), PubValue::Sym(text("reason")), PubValue::OptText(clone_opt_text(reason))]),
            ProtocolEvent::EmergencyRecoveryStep(step) => publication_of(vec![PubValue::Sym(text("emergency_recovery_step")), PubValue::Sym(text("step"))], vec![PubValue::Sym(text("step")), PubValue::Text(clone_text(step))]),
            ProtocolEvent::EmergencyParamUpdateQueued(key, value) => publication_of(vec![PubValue::Sym(text("emergency_param_update_queued")), PubValue::Sym(clone_text(key))], vec![PubValue::Sym(text("parameter")), PubValue::Sym(clone_text(key)), PubValue::Sym(text("value")), PubValue::Int(*value)]),
            ProtocolEvent::EmergencyParamUpdateApplied(key, value) => publication_of(vec![PubValue::Sym(text("emergency_param_update_applied")), PubValue::Sym(clone_text(key))], vec![PubValue::Sym(text("parameter")), PubValue::Sym(clone_text(key)), PubValue::Sym(text("value")), PubValue::Int(*value)]),
            ProtocolEvent::EmergencyFundUpdated(actor, delta, reserve_delta) => publication_of(vec![PubValue::Sym(text("emergency_fund")), PubValue::Addr(clone_text(actor))], vec![PubValue::Sym(text("actor")), PubValue::Addr(clone_text(actor)), PubValue::Sym(text("delta")), PubValue::Int(*delta), PubValue::Sym(text("reserve_delta")), PubValue::Int(*reserve_delta)]),
            ProtocolEvent::EmergencyManagerUpdated(manager, enabled) => publication_of(vec![PubValue::Sym(text("emergency_manager")), PubValue::Addr(clone_text(manager))], vec![PubValue::Sym(text("manager")), PubValue::Addr(clone_text(manager)), PubValue::Sym(text("enabled")), PubValue::Flag(*enabled)]),
            ProtocolEvent::FlashLoanInitiated(initiator, asset, amount, fee) => publication_of(vec![PubValue::Sym(text("flash_loan_initiated")), PubValue::Sym(text("user"))], vec![PubValue::Sym(text("user")), PubValue::Addr(clone_text(initiator)), PubValue::Sym(text("asset")), PubValue::Addr(clone_text(asset)), PubValue::Sym(text("amount")), PubValue::Int(*amount), PubValue::Sym(text("fee")), PubValue::Int(*fee)]),
            ProtocolEvent::FlashLoanCompleted(initiator, asset, amount, fee) => publication_of(vec![PubValue::Sym(text("flash_loan_completed")), PubValue::Sym(text("user"))], vec![PubValue::Sym(text("user")), PubValue::Addr(clone_text(initiator)), PubValue::Sym(text("asset")), PubValue::Addr(clone_text(asset)), PubValue::Sym(text("amount")), PubValue::Int(*amount), PubValue::Sym(text("fee")), PubValue::Int(*fee)]),
            ProtocolEvent::DynamicCFUpdated(asset, new_cf) => publication_of(vec![PubValue::Sym(text("dynamic_cf_updated")), PubValue::Sym(text("asset"))], vec![PubValue::Sym(text("asset")), PubValue::Addr(clone_text(asset)), PubValue::Sym(text("new_cf")), PubValue::Int(*new_cf)]),
            ProtocolEvent::AMMSwap(user, asset_in, asset_out, amount_in, amount_out) => publication_of(vec![PubValue::Sym(text("amm_swap")), PubValue::Sym(text("user"))], vec![PubValue::Sym(text("user")), PubValue::Addr(clone_text(user)), PubValue::Sym(text("asset_in")), PubValue::Addr(clone_text(asset_in)), PubValue::Sym(text("asset_out")), PubValue::Addr(clone_text(asset_out)), PubValue::Sym(text("amount_in")), PubValue::Int(*amount_in), PubValue::Sym(text("amount_out")), PubValue::Int(*amount_out)]),
            ProtocolEvent::AMMLiquidityAdded(user, asset_a, asset_b, amt_a, amt_b) => publication_of(vec![PubValue::Sym(text("amm_liquidity_added")), PubValue::Sym(text("user"))], vec![PubValue::Sym(text("user")), PubValue::Addr(clone_text(user)), PubValue::Sym(text("asset_a")), PubValue::Addr(clone_text(asset_a)), PubValue::Sym(text("asset_b")), PubValue::Addr(clone_text(asset_b)), PubValue::Sym(text("amount_a")), PubValue::Int(*amt_a), PubValue::Sym(text("amount_b")), PubValue::Int(*amt_b)]),
            ProtocolEvent::AMMLiquidityRemoved(user, pool, lp_amount) => publication_of(vec![PubValue::Sym(text("amm_liquidity_removed")), PubValue::Sym(text("user"))], vec![PubValue::Sym(text("user")), PubValue::Addr(clone_text(user)), PubValue::Sym(text("pool")), PubValue::Addr(clone_text(pool)), PubValue::Sym(text("lp_amount")), PubValue::Int(*lp_amount)]),
            ProtocolEvent::RiskParamsSet(base_limit, factor, min_rate_bps, max_rate_bps) => publication_of(vec![PubValue::Sym(text("risk_params_set")), PubValue::Sym(text("base_limit"))], vec![PubValue::Sym(text("base_limit")), PubValue::Int(*base_limit), PubValue::Sym(text("factor")), PubValue::Int(*factor), PubValue::Sym(text("min_rate_bps")), PubValue::Int(*min_rate_bps), PubValue::Sym(text("max_rate_bps")), PubValue::Int(*max_rate_bps)]),
            ProtocolEvent::UserRiskUpdated(user, score, limit) => publication_of(vec![PubValue::Sym(text("user_risk_updated")), PubValue::Sym(text("user"))], vec![PubValue::Sym(text("user")), PubValue::Addr(clone_text(user)), PubValue::Sym(text("score")), PubValue::Int(*score), PubValue::Sym(text("credit_limit")), PubValue::Int(*limit)]),
            ProtocolEvent::AuctionStarted(user, asset, debt_portion) => publication_of(vec![PubValue::Sym(text("auction_started")), PubValue::Sym(text("user"))], vec![PubValue::Sym(text("user")), PubValue::Addr(clone_text(user)), PubValue::Sym(text("asset")), PubValue::Addr(clone_text(asset)), PubValue::Sym(text("debt_portion")), PubValue::Int(*debt_portion)]),
            ProtocolEvent::AuctionBidPlaced(bidder, user, bid_amount) => publication_of(vec![PubValue::Sym(text("auction_bid")), PubValue::Sym(text("bidder"))], vec![PubValue::Sym(text("bidder")), PubValue::Addr(clone_text(bidder)), PubValue::Sym(text("user")), PubValue::Addr(clone_text(user)), PubValue::Sym(text("bid_amount")), PubValue::Int(*bid_amount)]),
            ProtocolEvent::AuctionSettled(winner, user, seized, repaid) => publication_of(vec![PubValue::Sym(text("auction_settled")), PubValue::Sym(text("winner"))], vec![PubValue::Sym(text("winner")), PubValue::Addr(clone_text(winner)), PubValue::Sym(text("user")), PubValue::Addr(clone_text(user)), PubValue::Sym(text("seized_collateral")), PubValue::Int(*seized), PubValue::Sym(text("repaid_debt")), PubValue::Int(*repaid)]),
            ProtocolEvent::RiskAlert(user, score) => publication_of(vec![PubValue::Sym(text("risk_alert")), PubValue::Sym(text("user"))], vec![PubValue::Sym(text("user")), PubValue::Addr(clone_text(user)), PubValue::Sym(text("score")), PubValue::Int(*score)]),
            ProtocolEvent::BridgeRegistered(network_id, bridge, fee_bps) => publication_of(vec![PubValue::Sym(text("bridge_registered")), PubValue::Sym(text("network"))], vec![PubValue::Sym(text("network")), PubValue::Text(clone_text(network_id)), PubValue::Sym(text("bridge")), PubValue::Addr(clone_text(bridge)), PubValue::Sym(text("fee_bps")), PubValue::Int(*fee_bps)]),
            ProtocolEvent::BridgeFeeUpdated(network_id, fee_bps) => publication_of(vec![PubValue::Sym(text("bridge_fee_updated")), PubValue::Sym(text("network"))], vec![PubValue::Sym(text("network")), PubValue::Text(clone_text(network_id)), PubValue::Sym(text("fee_bps")), PubValue::Int(*fee_bps)]),
            ProtocolEvent::AssetBridgedIn(user, network_id, asset, amount, fee) => publication_of(vec![PubValue::Sym(text("asset_bridged_in")), PubValue::Sym(text("user"))], vec![PubValue::Sym(text("user")), PubValue::Addr(clone_text(user)), PubValue::Sym(text("network")), PubValue::Text(clone_text(network_id)), PubValue::Sym(text("asset")), PubValue::Addr(clone_text(asset)), PubValue::Sym(text("amount")), PubValue::Int(*amount), PubValue::Sym(text("fee")), PubValue::Int(*fee)]),
            ProtocolEvent::AssetBridgedOut(user, network_id, asset, amount, fee) => publication_of(vec![PubValue::Sym(text("asset_bridged_out")), PubValue::Sym(text("user"))], vec![PubValue::Sym(text("user")), PubValue::Addr(clone_text(user)), PubValue::Sym(text("network")), PubValue::Text(clone_text(network_id)), PubValue::Sym(text("asset")), PubValue::Addr(clone_text(asset)), PubValue::Sym(text("amount")), PubValue::Int(*amount), PubValue::Sym(text("fee")), PubValue::Int(*fee)]),
            ProtocolEvent::HealthReported(msg) => publication_of(vec![PubValue::Sym(text("health_report")), PubValue::Sym(text("msg"))], vec![PubValue::Sym(text("msg")), PubValue::Text(clone_text(msg))]),
            ProtocolEvent::PerformanceReported(gas) => publication_of(vec![PubValue::Sym(text("performance_report")), PubValue::Sym(text("gas"))], vec![PubValue::Sym(text("gas")), PubValue::Int(*gas)]),
            ProtocolEvent::SecurityIncident(msg) => publication_of(vec![PubValue::Sym(text("security_incident")), PubValue::Sym(text("msg"))], vec![PubValue::Sym(text("msg")), PubValue::Text(clone_text(msg))]),
            ProtocolEvent::IntegrationRegistered(name, addr) => publication_of(vec![PubValue::Sym(text("integration_registered")), PubValue::Sym(text("name"))], vec![PubValue::Sym(text("name")), PubValue::Text(clone_text(name)), PubValue::Sym(text("address")), PubValue::Addr(clone_text(addr))]),
            ProtocolEvent::IntegrationCalled(name, method) => publication_of(vec![PubValue::Sym(text("integration_called")), PubValue::Sym(text("name"))], vec![PubValue::Sym(text("name")), PubValue::Text(clone_text(name)), PubValue::Sym(text("method")), PubValue::Sym(clone_text(method))]),
            ProtocolEvent::AnalyticsUpdated(user, activity_type, amount, timestamp) => publication_of(vec![PubValue::Sym(text("analytics_updated")), PubValue::Sym(text("user"))], vec![PubValue::Sym(text("user")), PubValue::Addr(clone_text(user)), PubValue::Sym(text("activity_type")), PubValue::Text(clone_text(activity_type)), PubValue::Sym(text("amount")), PubValue::Int(*amount), PubValue::Sym(text("timestamp")), PubValue::Uint(*timestamp)]),
            _ => Publication { topics: vec![PubValue::Sym(text("protocol_event")), PubValue::Sym(text("misc"))], data: vec![PubValue::Sym(text("captured"))], bare: true },
        };
        proof {
            assert(r@ =~= spec_publication(*self));
        }
        r
    }
}

} // verus!

verus! {

/// The data of a transfer notice.
pub open spec fn transfer_data(from: String, to: String, asset: String, amount: i128) -> Seq<PubView> {
    seq![
        PubView::Sym("from"@),
        PubView::Addr(from@),
        PubView::Sym("to"@),
        PubView::Addr(to@),
        PubView::Sym("asset"@),
        PubView::Addr(asset@),
        PubView::Sym("amount"@),
        PubView::Int(amount),
    ]
}

/// How each notice is published.
pub open spec fn spec_notice_publication(n: Notice) -> PublicationView {
    match n {
        Notice::Event(ev) => spec_publication(ev),
        Notice::UserRegistered(u, role) => pub_tuple(
            seq![PubView::Sym("user_registered"@), PubView::Sym("user"@)],
            seq![PubView::Sym("user"@), PubView::Addr(u@), PubView::Sym("role"@), PubView::Sym(role.spec_name())],
        ),
        Notice::UserRoleUpdated(u, role) => pub_tuple(
            seq![PubView::Sym("user_role_updated"@), PubView::Sym("user"@)],
            seq![PubView::Sym("user"@), PubView::Addr(u@), PubView::Sym("role"@), PubView::Sym(role.spec_name())],
        ),
        Notice::UserVerificationUpdated(u, status) => pub_tuple(
            seq![PubView::Sym("user_verification_updated"@), PubView::Sym("user"@)],
            seq![PubView::Sym("user"@), PubView::Addr(u@), PubView::Sym("status"@), PubView::Sym(status.spec_name())],
        ),
        Notice::UserLimitsUpdated(u, d, b, w, l) => pub_tuple(
            seq![PubView::Sym("user_limits_updated"@), PubView::Sym("user"@)],
            seq![
                PubView::Sym("user"@),
                PubView::Addr(u@),
                PubView::Sym("max_deposit"@),
                PubView::Int(d),
                PubView::Sym("max_borrow"@),
                PubView::Int(b),
                PubView::Sym("max_withdraw"@),
                PubView::Int(w),
                PubView::Sym("daily_limit"@),
                PubView::Int(l),
            ],
        ),
        Notice::UserActivityTracked(u, op, amount, ts) => pub_tuple(
            seq![PubView::Sym("user_activity_tracked"@), PubView::Sym("user"@)],
            seq![
                PubView::Sym("user"@),
                PubView::Addr(u@),
                PubView::Sym("operation"@),
                PubView::Sym(crate::users::operation_name(op)),
                PubView::Sym("amount"@),
                PubView::Int(amount),
                PubView::Sym("timestamp"@),
                PubView::Uint(ts),
            ],
        ),
        Notice::TransferAttempt(flow, from, to, asset, amount) => pub_tuple(
            seq![PubView::Sym("transfer_attempt"@), PubView::Sym(flow@)],
            transfer_data(from, to, asset, amount),
        ),
        Notice::TransferSuccess(flow, from, to, asset, amount) => pub_tuple(
            seq![PubView::Sym("transfer_success"@), PubView::Sym(flow@)],
            transfer_data(from, to, asset, amount),
        ),
        Notice::TransferFailure(flow, from, to, asset, amount, reason) => pub_tuple(
            seq![PubView::Sym("transfer_failure"@), PubView::Sym(flow@)],
            transfer_data(from, to, asset, amount) + seq![PubView::Sym("reason"@), PubView::Sym(reason@)],
        ),
    }
}

fn transfer_values(from: &String, to: &String, asset: &String, amount: i128) -> (r: Vec<PubValue>)
    ensures
        pub_views(r@) == transfer_data(*from, *to, *asset, amount),
{
    let r = vec![
        PubValue::Sym(text("from")),
        PubValue::Addr(clone_text(from)),
        PubValue::Sym(text("to")),
        PubValue::Addr(clone_text(to)),
        PubValue::Sym(text("asset")),
        PubValue::Addr(clone_text(asset)),
        PubValue::Sym(text("amount")),
        PubValue::Int(amount),
    ];
    proof {
        assert(pub_views(r@) =~= transfer_data(*from, *to, *asset, amount));
    }
    r
}

impl Notice {
    /// The topics and data under which the notice is published.
    pub fn publication(&self) -> (r: Publication)
        ensures
            r@ == spec_notice_publication(*self),
    {
        let r = match self {
            Notice::Event(ev) => ev.publication(),
            Notice::UserRegistered(u, role) => publication_of(
                vec![PubValue::Sym(text("user_registered")), PubValue::Sym(text("user"))],
                vec![PubValue::Sym(text("user")), PubValue::Addr(clone_text(u)), PubValue::Sym(text("role")), PubValue::Sym(role.as_symbol())],
            ),
            Notice::UserRoleUpdated(u, role) => publication_of(
                vec![PubValue::Sym(text("user_role_updated")), PubValue::Sym(text("user"))],
                vec![PubValue::Sym(text("user")), PubValue::Addr(clone_text(u)), PubValue::Sym(text("role")), PubValue::Sym(role.as_symbol())],
            ),
            Notice::UserVerificationUpdated(u, status) => publication_of(
                vec![PubValue::Sym(text("user_verification_updated")), PubValue::Sym(text("user"))],
                vec![
                    PubValue::Sym(text("user")),
                    PubValue::Addr(clone_text(u)),
                    PubValue::Sym(text("status")),
                    PubValue::Sym(crate::users::UserManager::verification_symbol(status)),
                ],
            ),
            Notice::UserLimitsUpdated(u, d, b, w, l) => publication_of(
                vec![PubValue::Sym(text("user_limits_updated")), PubValue::Sym(text("user"))],
                vec![
                    PubValue::Sym(text("user")),
                    PubValue::Addr(clone_text(u)),
                    PubValue::Sym(text("max_deposit")),
                    PubValue::Int(*d),
                    PubValue::Sym(text("max_borrow")),
                    PubValue::Int(*b),
                    PubValue::Sym(text("max_withdraw")),
                    PubValue::Int(*w),
                    PubValue::Sym(text("daily_limit")),
                    PubValue::Int(*l),
                ],
            ),
            Notice::UserActivityTracked(u, op, amount, ts) => publication_of(
                vec![PubValue::Sym(text("user_activity_tracked")), PubValue::Sym(text("user"))],
                vec![
                    PubValue::Sym(text("user")),
                    PubValue::Addr(clone_text(u)),
                    PubValue::Sym(text("operation")),
                    PubValue::Sym(crate::users::UserManager::operation_symbol(*op)),
                    PubValue::Sym(text("amount")),
                    PubValue::Int(*amount),
                    PubValue::Sym(text("timestamp")),
                    PubValue::Uint(*ts),
                ],
            ),
            Notice::TransferAttempt(flow, from, to, asset, amount) => publication_of(
                vec![PubValue::Sym(text("transfer_attempt")), PubValue::Sym(clone_text(flow))],
                transfer_values(from, to, asset, *amount),
            ),
            Notice::TransferSuccess(flow, from, to, asset, amount) => publication_of(
                vec![PubValue::Sym(text("transfer_success")), PubValue::Sym(clone_text(flow))],
                transfer_values(from, to, asset, *amount),
            ),
            Notice::TransferFailure(flow, from, to, asset, amount, reason) => {
                let mut data = transfer_values(from, to, asset, *amount);
                let ghost before = data@;
                data.push(PubValue::Sym(text("reason")));
                data.push(PubValue::Sym(clone_text(reason)));
                proof {
                    assert(pub_views(data@) =~= pub_views(before) + seq![PubView::Sym("reason"@), PubView::Sym(reason@)]);
                }
                publication_of(vec![PubValue::Sym(text("transfer_failure")), PubValue::Sym(clone_text(flow))], data)
            },
        };
        proof {
            assert(r@ =~= spec_notice_publication(*self));
        }
        r
    }
}

} // verus!
