//! Analytics and reporting: protocol-wide metrics, per-user analytics,
//! daily snapshots, risk and performance metrics and the activity log.
use vstd::prelude::*;
use crate::errors::ProtocolError;
use crate::events::{EventStore, Notice, ProtocolEvent, opt_view, clone_text, clone_opt_text};
use crate::keyed::{Keyed, keys_unique, first_of, map_of, find_key, upsert, lemma_lookup_at};
use crate::math::{tdiv, min_int, max_int, SECONDS_PER_DAY};
use crate::decimal::{decimal, u64_to_decimal};

verus! {

/// Analytics-specific errors.
#[derive(Clone, Copy, Debug, PartialEq, Eq, Structural)]
pub enum AnalyticsError {
    InvalidTimeRange,
    DataNotFound,
    InvalidParameters,
    StorageLimitExceeded,
    UnauthorizedAccess,
}

impl AnalyticsError {
    pub open spec fn spec_into(self) -> ProtocolError {
        match self {
            AnalyticsError::InvalidTimeRange => ProtocolError::InvalidParameters,
            AnalyticsError::DataNotFound => ProtocolError::NotFound,
            AnalyticsError::InvalidParameters => ProtocolError::InvalidParameters,
            AnalyticsError::StorageLimitExceeded => ProtocolError::StorageLimitExceeded,
            AnalyticsError::UnauthorizedAccess => ProtocolError::Unauthorized,
        }
    }
}

impl From<AnalyticsError> for ProtocolError {
    fn from(err: AnalyticsError) -> (r: ProtocolError) {
        match err {
            AnalyticsError::InvalidTimeRange => ProtocolError::InvalidParameters,
            AnalyticsError::DataNotFound => ProtocolError::NotFound,
            AnalyticsError::InvalidParameters => ProtocolError::InvalidParameters,
            AnalyticsError::StorageLimitExceeded => ProtocolError::StorageLimitExceeded,
            AnalyticsError::UnauthorizedAccess => ProtocolError::Unauthorized,
        }
    }
}

impl vstd::std_specs::convert::FromSpecImpl<AnalyticsError> for ProtocolError {
    open spec fn obeys_from_spec() -> bool {
        true
    }

    open spec fn from_spec(v: AnalyticsError) -> ProtocolError {
        v.spec_into()
    }
}

/// Protocol-wide metrics.
#[derive(Clone, Copy, Debug, PartialEq, Eq, Structural)]
pub struct ProtocolMetrics {
    pub total_value_locked: i128,
    pub total_deposits: i128,
    pub total_borrows: i128,
    pub total_withdrawals: i128,
    pub total_repayments: i128,
    pub total_liquidations: i128,
    pub total_fees_collected: i128,
    pub active_users: i128,
    pub total_users: i128,
    pub avg_utilization_rate: i128,
    pub total_volume: i128,
    pub last_update: u64,
    /// Protocol health score (0-100)
    pub health_score: i128,
}

impl ProtocolMetrics {
    pub open spec fn spec_new() -> Self {
        ProtocolMetrics {
            total_value_locked: 0,
            total_deposits: 0,
            total_borrows: 0,
            total_withdrawals: 0,
            total_repayments: 0,
            total_liquidations: 0,
            total_fees_collected: 0,
            active_users: 0,
            total_users: 0,
            avg_utilization_rate: 0,
            total_volume: 0,
            last_update: 0,
            health_score: 100,
        }
    }

    /// All zero, health 100.
    pub fn new() -> (m: Self)
        ensures
            m == ProtocolMetrics::spec_new(),
    {
        ProtocolMetrics {
            total_value_locked: 0,
            total_deposits: 0,
            total_borrows: 0,
            total_withdrawals: 0,
            total_repayments: 0,
            total_liquidations: 0,
            total_fees_collected: 0,
            active_users: 0,
            total_users: 0,
            avg_utilization_rate: 0,
            total_volume: 0,
            last_update: 0,
            health_score: 100,
        }
    }
}

/// User-specific analytics.
#[derive(Clone, Copy, Debug, PartialEq, Eq, Structural)]
pub struct UserAnalytics {
    pub total_deposits: i128,
    pub total_borrows: i128,
    pub total_withdrawals: i128,
    pub total_repayments: i128,
    pub collateral_value: i128,
    pub debt_value: i128,
    pub collateralization_ratio: i128,
    /// Activity score (0-1000)
    pub activity_score: i128,
    pub transaction_count: i128,
    pub first_interaction: u64,
    pub last_activity: u64,
    pub risk_level: i128,
    pub loyalty_tier: i128,
}

impl UserAnalytics {
    pub open spec fn spec_new() -> Self {
        UserAnalytics {
            total_deposits: 0,
            total_borrows: 0,
            total_withdrawals: 0,
            total_repayments: 0,
            collateral_value: 0,
            debt_value: 0,
            collateralization_ratio: 0,
            activity_score: 0,
            transaction_count: 0,
            first_interaction: 0,
            last_activity: 0,
            risk_level: 0,
            loyalty_tier: 0,
        }
    }

    /// All zero.
    pub fn new() -> (a: Self)
        ensures
            a == UserAnalytics::spec_new(),
    {
        UserAnalytics {
            total_deposits: 0,
            total_borrows: 0,
            total_withdrawals: 0,
            total_repayments: 0,
            collateral_value: 0,
            debt_value: 0,
            collateralization_ratio: 0,
            activity_score: 0,
            transaction_count: 0,
            first_interaction: 0,
            last_activity: 0,
            risk_level: 0,
            loyalty_tier: 0,
        }
    }
}

/// The analytics of one user.
pub struct UserAnalyticsEntry {
    pub user: String,
    pub analytics: UserAnalytics,
}

impl Keyed for UserAnalyticsEntry {
    type Key = String;

    type KeyView = Seq<char>;

    open spec fn key_view(&self) -> Seq<char> {
        self.user@
    }

    open spec fn view_of_key(k: &String) -> Seq<char> {
        k@
    }

    fn has_key_of(&self, k: &String) -> (b: bool) {
        self.user.eq(k)
    }

    fn key_copy(&self) -> (k: String) {
        self.user.clone()
    }
}

/// Asset-specific analytics.
pub struct AssetAnalytics {
    pub asset: String,
    pub total_supply: i128,
    pub total_borrows: i128,
    pub utilization_rate: i128,
    pub interest_rate: i128,
    pub supplier_count: i128,
    pub borrower_count: i128,
    pub volume_24h: i128,
    pub volume_7d: i128,
    pub volume_30d: i128,
    pub last_update: u64,
}

impl Keyed for AssetAnalytics {
    type Key = String;

    type KeyView = Seq<char>;

    open spec fn key_view(&self) -> Seq<char> {
        self.asset@
    }

    open spec fn view_of_key(k: &String) -> Seq<char> {
        k@
    }

    fn has_key_of(&self, k: &String) -> (b: bool) {
        self.asset.eq(k)
    }

    fn key_copy(&self) -> (k: String) {
        self.asset.clone()
    }
}

impl AssetAnalytics {
    /// Zero analytics for `asset`.
    pub fn new(asset: String) -> (a: Self)
        ensures
            a == (AssetAnalytics {
                asset,
                total_supply: 0,
                total_borrows: 0,
                utilization_rate: 0,
                interest_rate: 0,
                supplier_count: 0,
                borrower_count: 0,
                volume_24h: 0,
                volume_7d: 0,
                volume_30d: 0,
                last_update: 0,
            }),
    {
        AssetAnalytics {
            asset,
            total_supply: 0,
            total_borrows: 0,
            utilization_rate: 0,
            interest_rate: 0,
            supplier_count: 0,
            borrower_count: 0,
            volume_24h: 0,
            volume_7d: 0,
            volume_30d: 0,
            last_update: 0,
        }
    }

    pub fn clone_analytics(&self) -> (r: Self)
        ensures
            r == *self,
    {
        AssetAnalytics {
            asset: self.asset.clone(),
            total_supply: self.total_supply,
            total_borrows: self.total_borrows,
            utilization_rate: self.utilization_rate,
            interest_rate: self.interest_rate,
            supplier_count: self.supplier_count,
            borrower_count: self.borrower_count,
            volume_24h: self.volume_24h,
            volume_7d: self.volume_7d,
            volume_30d: self.volume_30d,
            last_update: self.last_update,
        }
    }
}

/// A daily snapshot.
pub struct HistoricalDataPoint {
    pub timestamp: u64,
    pub metrics: ProtocolMetrics,
    /// Asset-specific data, keyed by asset.
    pub asset_data: Vec<AssetAnalytics>,
}

/// The snapshot of one day.
pub struct HistoryEntry {
    pub day: u64,
    pub point: HistoricalDataPoint,
}

impl Keyed for HistoryEntry {
    type Key = u64;

    type KeyView = u64;

    open spec fn key_view(&self) -> u64 {
        self.day
    }

    open spec fn view_of_key(k: &u64) -> u64 {
        *k
    }

    fn has_key_of(&self, k: &u64) -> (b: bool) {
        self.day == *k
    }

    fn key_copy(&self) -> (k: u64) {
        self.day
    }
}

/// Risk analytics.
#[derive(Clone, Copy, Debug, PartialEq, Eq, Structural)]
pub struct RiskAnalytics {
    /// Overall protocol risk score (0-100)
    pub protocol_risk_score: i128,
    pub undercollateralized_positions: i128,
    pub value_at_risk: i128,
    pub liquidation_threshold_prox: i128,
    pub concentration_risk: i128,
    pub last_assessment: u64,
}

impl RiskAnalytics {
    pub open spec fn spec_new() -> Self {
        RiskAnalytics {
            protocol_risk_score: 0,
            undercollateralized_positions: 0,
            value_at_risk: 0,
            liquidation_threshold_prox: 0,
            concentration_risk: 0,
            last_assessment: 0,
        }
    }

    /// All zero.
    pub fn new() -> (r: Self)
        ensures
            r == RiskAnalytics::spec_new(),
    {
        RiskAnalytics {
            protocol_risk_score: 0,
            undercollateralized_positions: 0,
            value_at_risk: 0,
            liquidation_threshold_prox: 0,
            concentration_risk: 0,
            last_assessment: 0,
        }
    }
}

/// Performance metrics.
#[derive(Clone, Copy, Debug, PartialEq, Eq, Structural)]
pub struct PerformanceMetrics {
    pub uptime_percentage: i128,
    pub avg_processing_time: i128,
    pub success_rate: i128,
    pub error_rate: i128,
    pub throughput: i128,
    pub last_update: u64,
}

impl PerformanceMetrics {
    pub open spec fn spec_new() -> Self {
        PerformanceMetrics {
            uptime_percentage: 100,
            avg_processing_time: 0,
            success_rate: 100,
            error_rate: 0,
            throughput: 0,
            last_update: 0,
        }
    }

    /// Full uptime and success, nothing processed.
    pub fn new() -> (m: Self)
        ensures
            m == PerformanceMetrics::spec_new(),
    {
        PerformanceMetrics {
            uptime_percentage: 100,
            avg_processing_time: 0,
            success_rate: 100,
            error_rate: 0,
            throughput: 0,
            last_update: 0,
        }
    }
}

/// One metadata pair of an activity.
pub struct MetadataEntry {
    pub key: String,
    pub value: String,
}

/// An entry of the activity log.
pub struct ActivityLogEntry {
    pub timestamp: u64,
    pub user: String,
    pub activity_type: String,
    pub amount: i128,
    pub asset: Option<String>,
    pub metadata: Vec<MetadataEntry>,
}

/// The content of an activity log entry.
#[verifier::ext_equal]
pub struct ActivityView {
    pub timestamp: u64,
    pub user: Seq<char>,
    pub activity_type: Seq<char>,
    pub amount: i128,
    pub asset: Option<Seq<char>>,
    pub metadata: Seq<(Seq<char>, Seq<char>)>,
}

impl View for ActivityLogEntry {
    type V = ActivityView;

    open spec fn view(&self) -> ActivityView {
        ActivityView {
            timestamp: self.timestamp,
            user: self.user@,
            activity_type: self.activity_type@,
            amount: self.amount,
            asset: opt_view(self.asset),
            metadata: self.metadata@.map_values(|m: MetadataEntry| (m.key@, m.value@)),
        }
    }
}

pub open spec fn log_view(v: Seq<ActivityLogEntry>) -> Seq<ActivityView> {
    v.map_values(|e: ActivityLogEntry| e@)
}

impl ActivityLogEntry {
    pub fn clone_entry(&self) -> (r: Self)
        ensures
            r@ == self@,
    {
        let mut metadata: Vec<MetadataEntry> = Vec::new();
        let mut i: usize = 0;
        while i < self.metadata.len()
            invariant
                i <= self.metadata@.len(),
                metadata@.len() == i,
                forall|j: int|
                    0 <= j < i ==> (#[trigger] metadata@[j]).key@ == self.metadata@[j].key@
                        && metadata@[j].value@ == self.metadata@[j].value@,
            decreases self.metadata@.len() - i,
        {
            metadata.push(
                MetadataEntry { key: clone_text(&self.metadata[i].key), value: clone_text(&self.metadata[i].value) },
            );
            i = i + 1;
        }
        let r = ActivityLogEntry {
            timestamp: self.timestamp,
            user: clone_text(&self.user),
            activity_type: clone_text(&self.activity_type),
            amount: self.amount,
            asset: clone_opt_text(&self.asset),
            metadata,
        };
        assert(r@.metadata =~= self@.metadata);
        r
    }
}

/// Most entries the activity log keeps when it grows.
pub const MAX_ACTIVITY_LOG: usize = 1000;

/// All analytics storage.
pub struct AnalyticsState {
    pub protocol_metrics: ProtocolMetrics,
    pub user_analytics: Vec<UserAnalyticsEntry>,
    pub asset_analytics: Vec<AssetAnalytics>,
    pub historical: Vec<HistoryEntry>,
    pub risk_analytics: RiskAnalytics,
    pub performance_metrics: PerformanceMetrics,
    pub activity_log: Vec<ActivityLogEntry>,
}

/// Analytics of every user.
pub open spec fn user_map(s: Seq<UserAnalyticsEntry>) -> Map<Seq<char>, UserAnalytics> {
    map_of(s).map_values(|e: UserAnalyticsEntry| e.analytics)
}

impl AnalyticsState {
    pub open spec fn wf(&self) -> bool {
        &&& keys_unique(self.user_analytics@)
        &&& keys_unique(self.asset_analytics@)
        &&& keys_unique(self.historical@)
    }

    /// Empty analytics.
    pub fn new() -> (a: Self)
        ensures
            a.wf(),
            a.protocol_metrics == ProtocolMetrics::spec_new(),
            a.user_analytics@.len() == 0,
            a.asset_analytics@.len() == 0,
            a.historical@.len() == 0,
            a.risk_analytics == RiskAnalytics::spec_new(),
            a.performance_metrics == PerformanceMetrics::spec_new(),
            a.activity_log@.len() == 0,
    {
        AnalyticsState {
            protocol_metrics: ProtocolMetrics::new(),
            user_analytics: Vec::new(),
            asset_analytics: Vec::new(),
            historical: Vec::new(),
            risk_analytics: RiskAnalytics::new(),
            performance_metrics: PerformanceMetrics::new(),
            activity_log: Vec::new(),
        }
    }
}

/// Activity kinds: 0 deposit, 1 borrow, 2 withdraw, 3 repay, 4 liquidate, 5 other.
pub open spec fn activity_code(t: Seq<char>) -> int {
    if t == "deposit"@ {
        0
    } else if t == "borrow"@ {
        1
    } else if t == "withdraw"@ {
        2
    } else if t == "repay"@ {
        3
    } else if t == "liquidate"@ {
        4
    } else {
        5
    }
}

pub fn activity_code_of(t: &String) -> (c: u8)
    ensures
        c == activity_code(t@),
{
    if t.eq(&String::from_str("deposit")) {
        0
    } else if t.eq(&String::from_str("borrow")) {
        1
    } else if t.eq(&String::from_str("withdraw")) {
        2
    } else if t.eq(&String::from_str("repay")) {
        3
    } else if t.eq(&String::from_str("liquidate")) {
        4
    } else {
        5
    }
}

/// Loyalty tier of an activity score.
pub open spec fn spec_tier(score: int) -> i128 {
    if 0 <= score <= 100 {
        1
    } else if 101 <= score <= 300 {
        2
    } else if 301 <= score <= 600 {
        3
    } else if 601 <= score <= 900 {
        4
    } else {
        5
    }
}

/// The arithmetic of a user update stays within `i128`.
pub open spec fn user_update_fits(ua: UserAnalytics, code: int, amount: i128) -> bool {
    let td = if code == 0 { ua.total_deposits + amount } else { ua.total_deposits as int };
    let tb = if code == 1 { ua.total_borrows + amount } else { ua.total_borrows as int };
    let tc = ua.transaction_count + 1;
    &&& i128::MIN <= td <= i128::MAX
    &&& i128::MIN <= tb <= i128::MAX
    &&& (code == 2 ==> i128::MIN <= ua.total_withdrawals + amount <= i128::MAX)
    &&& (code == 3 ==> i128::MIN <= ua.total_repayments + amount <= i128::MAX)
    &&& tc <= i128::MAX
    &&& i128::MIN <= td + tb <= i128::MAX
    &&& i128::MIN <= tc * 10 <= i128::MAX
    &&& i128::MIN <= tc * 10 + tdiv(td + tb, 1000) <= i128::MAX
}

/// A user's analytics after an activity of kind `code` and `amount` at `now`.
pub open spec fn spec_user_after(ua: UserAnalytics, code: int, amount: i128, now: u64) -> UserAnalytics {
    let td = if code == 0 { ua.total_deposits + amount } else { ua.total_deposits as int };
    let tb = if code == 1 { ua.total_borrows + amount } else { ua.total_borrows as int };
    let tc = ua.transaction_count + 1;
    let score = min_int(tc * 10 + tdiv(td + tb, 1000), 1000);
    UserAnalytics {
        total_deposits: td as i128,
        total_borrows: tb as i128,
        total_withdrawals: if code == 2 { (ua.total_withdrawals + amount) as i128 } else { ua.total_withdrawals },
        total_repayments: if code == 3 { (ua.total_repayments + amount) as i128 } else { ua.total_repayments },
        first_interaction: if ua.first_interaction == 0 { now } else { ua.first_interaction },
        last_activity: now,
        transaction_count: tc as i128,
        activity_score: score as i128,
        loyalty_tier: spec_tier(score),
        ..ua
    }
}

/// The arithmetic of a protocol metrics update stays within `i128`.
pub open spec fn metrics_update_fits(m: ProtocolMetrics, code: int, amount: i128) -> bool {
    let td = if code == 0 { m.total_deposits + amount } else { m.total_deposits as int };
    let tb = if code == 1 { m.total_borrows + amount } else { m.total_borrows as int };
    &&& i128::MIN <= td <= i128::MAX
    &&& i128::MIN <= tb <= i128::MAX
    &&& (code == 0 ==> i128::MIN <= m.total_value_locked + amount <= i128::MAX)
    &&& (code == 2 ==> i128::MIN <= m.total_withdrawals + amount <= i128::MAX)
    &&& (code == 2 ==> i128::MIN <= m.total_value_locked - amount <= i128::MAX)
    &&& (code == 3 ==> i128::MIN <= m.total_repayments + amount <= i128::MAX)
    &&& (code == 4 ==> m.total_liquidations + 1 <= i128::MAX)
    &&& i128::MIN <= td + tb <= i128::MAX
    &&& (td > 0 ==> i128::MIN <= tb * 100 <= i128::MAX)
    &&& (td > 0 ==> 100 - tdiv(tb * 100, td) <= i128::MAX)
}

/// Protocol metrics after an activity of kind `code` and `amount` at `now`.
pub open spec fn spec_metrics_after(m: ProtocolMetrics, code: int, amount: i128, now: u64) -> ProtocolMetrics {
    let td = if code == 0 { m.total_deposits + amount } else { m.total_deposits as int };
    let tb = if code == 1 { m.total_borrows + amount } else { m.total_borrows as int };
    let utilization = if td > 0 { tdiv(tb * 100, td) } else { 0 };
    ProtocolMetrics {
        total_deposits: td as i128,
        total_borrows: tb as i128,
        total_value_locked: if code == 0 {
            (m.total_value_locked + amount) as i128
        } else if code == 2 {
            (m.total_value_locked - amount) as i128
        } else {
            m.total_value_locked
        },
        total_withdrawals: if code == 2 { (m.total_withdrawals + amount) as i128 } else { m.total_withdrawals },
        total_repayments: if code == 3 { (m.total_repayments + amount) as i128 } else { m.total_repayments },
        total_liquidations: if code == 4 { (m.total_liquidations + 1) as i128 } else { m.total_liquidations },
        total_volume: (td + tb) as i128,
        last_update: now,
        health_score: max_int(100 - utilization, 0) as i128,
        ..m
    }
}

/// The analytics of `user` (zeros before any activity).
pub open spec fn analytics_of(s: Seq<UserAnalyticsEntry>, user: Seq<char>) -> UserAnalytics {
    if map_of(s).contains_key(user) {
        map_of(s)[user].analytics
    } else {
        UserAnalytics::spec_new()
    }
}

/// Recording an activity does not overflow.
pub open spec fn record_fits(a: &AnalyticsState, user: Seq<char>, activity_type: Seq<char>, amount: i128) -> bool {
    &&& user_update_fits(analytics_of(a.user_analytics@, user), activity_code(activity_type), amount)
    &&& metrics_update_fits(a.protocol_metrics, activity_code(activity_type), amount)
}

/// The activity log after appending `e` (dropping the oldest entry when it
/// grows beyond 1000).
pub open spec fn spec_log_after(log: Seq<ActivityView>, e: ActivityView) -> Seq<ActivityView> {
    let l = log.push(e);
    if l.len() > MAX_ACTIVITY_LOG {
        l.drop_first()
    } else {
        l
    }
}

/// The entry logged for an activity at `now`.
pub open spec fn spec_entry(user: Seq<char>, activity_type: Seq<char>, amount: i128, asset: Option<Seq<char>>, now: u64) -> ActivityView {
    ActivityView {
        timestamp: now,
        user,
        activity_type,
        amount,
        asset,
        metadata: seq![("timestamp"@, decimal(now as nat))],
    }
}

/// The record captured for an `AnalyticsUpdated` event.
pub open spec fn analytics_capture(user: Seq<char>, amount: i128, now: u64) -> crate::events::EventRecordView {
    crate::events::mk_view(seq!["analytics_updated"@, "user"@], Some(user), None, amount, now)
}

/// `after` is `before` with an activity recorded.
pub open spec fn recorded(
    before: &AnalyticsState,
    after: &AnalyticsState,
    user: Seq<char>,
    activity_type: Seq<char>,
    amount: i128,
    asset: Option<Seq<char>>,
    now: u64,
) -> bool {
    let day = now / SECONDS_PER_DAY;
    &&& after.wf()
    &&& log_view(after.activity_log@) == spec_log_after(
        log_view(before.activity_log@),
        spec_entry(user, activity_type, amount, asset, now),
    )
    &&& user_map(after.user_analytics@) == user_map(before.user_analytics@).insert(
        user,
        spec_user_after(analytics_of(before.user_analytics@, user), activity_code(activity_type), amount, now),
    )
    &&& after.protocol_metrics == spec_metrics_after(before.protocol_metrics, activity_code(activity_type), amount, now)
    &&& map_of(after.historical@).dom() == map_of(before.historical@).dom().insert(day)
    &&& map_of(after.historical@)[day].point.timestamp == now
    &&& map_of(after.historical@)[day].point.metrics == after.protocol_metrics
    &&& map_of(after.historical@)[day].point.asset_data@.len() == 0
    &&& forall|d: u64|
        d != day ==> #[trigger] map_of(after.historical@).contains_key(d) ==> map_of(after.historical@)[d]
            == map_of(before.historical@)[d]
    &&& after.asset_analytics == before.asset_analytics
    &&& after.risk_analytics == before.risk_analytics
    &&& after.performance_metrics == before.performance_metrics
}

/// `n` publishes an `AnalyticsUpdated` event with these contents.
pub open spec fn analytics_notice(n: Notice, user: Seq<char>, activity_type: Seq<char>, amount: i128, now: u64) -> bool {
    n matches Notice::Event(ProtocolEvent::AnalyticsUpdated(u, t, a, ts)) && u@ == user && t@ == activity_type
        && a == amount && ts == now
}

/// The feed of the most recent activities, newest first.
pub struct ActivityFeed {
    pub entries: Vec<ActivityLogEntry>,
    pub total_available: u32,
    pub generated_at: u64,
}

/// Protocol report.
pub struct ProtocolReport {
    pub protocol_metrics: ProtocolMetrics,
    pub risk_analytics: RiskAnalytics,
    pub performance_metrics: PerformanceMetrics,
    pub total_users: i128,
    pub active_users: i128,
    pub generated_at: u64,
}

/// User report.
pub struct UserReport {
    pub user: String,
    pub analytics: UserAnalytics,
    pub recent_activities: Vec<ActivityLogEntry>,
    pub generated_at: u64,
}

/// Asset report.
pub struct AssetReport {
    pub asset: String,
    pub analytics: AssetAnalytics,
    /// Per-day snapshots of the asset, as (day, analytics).
    pub historical_data: Vec<HistoryAssetEntry>,
    pub generated_at: u64,
}

/// The analytics of an asset in one day's snapshot.
pub struct HistoryAssetEntry {
    pub day: u64,
    pub analytics: AssetAnalytics,
}

/// Main analytics module.
pub struct AnalyticsModule;

impl AnalyticsModule {
    /// Records a user activity: logs it, updates the user's and the
    /// protocol's metrics, snapshots the day and emits `AnalyticsUpdated`.
    pub fn record_activity(
        analytics: &mut AnalyticsState,
        events: &mut EventStore,
        outbox: &mut Vec<Notice>,
        now: u64,
        user: &String,
        activity_type: &String,
        amount: i128,
        asset: Option<String>,
    ) -> (r: Result<(), ProtocolError>)
        requires
            old(analytics).wf(),
            old(events).wf(),
            record_fits(old(analytics), user@, activity_type@, amount),
        ensures
            r is Ok,
            recorded(old(analytics), final(analytics), user@, activity_type@, amount, opt_view(asset), now),
            old(events).appended(*final(events), analytics_capture(user@, amount, now)),
            final(outbox)@ == old(outbox)@.push(
                Notice::Event(ProtocolEvent::AnalyticsUpdated(*user, *activity_type, amount, now)),
            ),
    {
        let ghost old_log = log_view(analytics.activity_log@);
        let mut metadata: Vec<MetadataEntry> = Vec::new();
        metadata.push(MetadataEntry { key: String::from_str("timestamp"), value: u64_to_decimal(now) });
        let entry = ActivityLogEntry {
            timestamp: now,
            user: user.clone(),
            activity_type: activity_type.clone(),
            amount,
            asset,
            metadata,
        };
        proof {
            reveal_strlit("timestamp");
            assert(entry@ =~= spec_entry(user@, activity_type@, amount, opt_view(asset), now));
        }
        analytics.activity_log.push(entry);
        proof {
            assert(log_view(analytics.activity_log@) =~= old_log.push(entry@));
        }
        if analytics.activity_log.len() > MAX_ACTIVITY_LOG {
            let ghost before = analytics.activity_log@;
            analytics.activity_log.remove(0);
            proof {
                assert(log_view(analytics.activity_log@) =~= log_view(before).drop_first());
            }
        }
        let code = activity_code_of(activity_type);
        Self::update_user_activity(analytics, now, user, code, amount);
        Self::update_protocol_metrics(analytics, now, code, amount);
        let event = ProtocolEvent::AnalyticsUpdated(user.clone(), activity_type.clone(), amount, now);
        event.emit(events, outbox, now);
        Ok(())
    }

    fn update_user_activity(analytics: &mut AnalyticsState, now: u64, user: &String, code: u8, amount: i128)
        requires
            old(analytics).wf(),
            user_update_fits(analytics_of(old(analytics).user_analytics@, user@), code as int, amount),
        ensures
            final(analytics).wf(),
            user_map(final(analytics).user_analytics@) == user_map(old(analytics).user_analytics@).insert(
                user@,
                spec_user_after(analytics_of(old(analytics).user_analytics@, user@), code as int, amount, now),
            ),
            *final(analytics) == (AnalyticsState { user_analytics: final(analytics).user_analytics, ..*old(analytics) }),
    {
        let ghost before = analytics.user_analytics@;
        let mut ua = match find_key(&analytics.user_analytics, user) {
            Some(i) => {
                proof {
                    lemma_lookup_at(analytics.user_analytics@, i as int);
                }
                analytics.user_analytics[i].analytics
            },
            None => UserAnalytics::new(),
        };
        match code {
            0 => ua.total_deposits = ua.total_deposits + amount,
            1 => ua.total_borrows = ua.total_borrows + amount,
            2 => ua.total_withdrawals = ua.total_withdrawals + amount,
            3 => ua.total_repayments = ua.total_repayments + amount,
            _ => {},
        }
        if ua.first_interaction == 0 {
            ua.first_interaction = now;
        }
        ua.last_activity = now;
        ua.transaction_count = ua.transaction_count + 1;
        let volume_score = (ua.total_deposits + ua.total_borrows) / 1000;
        let raw = ua.transaction_count * 10 + volume_score;
        let activity_score = if raw < 1000 {
            raw
        } else {
            1000
        };
        ua.activity_score = activity_score;
        ua.loyalty_tier = if 0 <= activity_score && activity_score <= 100 {
            1
        } else if 101 <= activity_score && activity_score <= 300 {
            2
        } else if 301 <= activity_score && activity_score <= 600 {
            3
        } else if 601 <= activity_score && activity_score <= 900 {
            4
        } else {
            5
        };
        let entry = UserAnalyticsEntry { user: user.clone(), analytics: ua };
        upsert(&mut analytics.user_analytics, entry);
        proof {
            assert(user_map(analytics.user_analytics@) =~= user_map(before).insert(user@, ua));
        }
    }

    fn update_protocol_metrics(analytics: &mut AnalyticsState, now: u64, code: u8, amount: i128)
        requires
            old(analytics).wf(),
            metrics_update_fits(old(analytics).protocol_metrics, code as int, amount),
        ensures
            final(analytics).wf(),
            final(analytics).protocol_metrics == spec_metrics_after(old(analytics).protocol_metrics, code as int, amount, now),
            map_of(final(analytics).historical@).dom() == map_of(old(analytics).historical@).dom().insert(
                now / SECONDS_PER_DAY,
            ),
            ({
                let pt = map_of(final(analytics).historical@)[now / SECONDS_PER_DAY].point;
                pt.timestamp == now && pt.metrics == final(analytics).protocol_metrics && pt.asset_data@.len() == 0
            }),
            forall|d: u64|
                d != now / SECONDS_PER_DAY ==> #[trigger] map_of(final(analytics).historical@).contains_key(d)
                    ==> map_of(final(analytics).historical@)[d] == map_of(old(analytics).historical@)[d],
            *final(analytics) == (AnalyticsState {
                protocol_metrics: final(analytics).protocol_metrics,
                historical: final(analytics).historical,
                ..*old(analytics)
            }),
    {
        let mut metrics = analytics.protocol_metrics;
        match code {
            0 => {
                metrics.total_deposits = metrics.total_deposits + amount;
                metrics.total_value_locked = metrics.total_value_locked + amount;
            },
            1 => {
                metrics.total_borrows = metrics.total_borrows + amount;
            },
            2 => {
                metrics.total_withdrawals = metrics.total_withdrawals + amount;
                metrics.total_value_locked = metrics.total_value_locked - amount;
            },
            3 => {
                metrics.total_repayments = metrics.total_repayments + amount;
            },
            4 => {
                metrics.total_liquidations = metrics.total_liquidations + 1;
            },
            _ => {},
        }
        metrics.total_volume = metrics.total_deposits + metrics.total_borrows;
        metrics.last_update = now;
        let utilization = if metrics.total_deposits > 0 {
            (metrics.total_borrows * 100) / metrics.total_deposits
        } else {
            0
        };
        let health = 100 - utilization;
        metrics.health_score = if health > 0 {
            health
        } else {
            0
        };
        analytics.protocol_metrics = metrics;
        Self::store_historical_snapshot(analytics, now);
    }

    fn store_historical_snapshot(analytics: &mut AnalyticsState, now: u64)
        requires
            old(analytics).wf(),
        ensures
            final(analytics).wf(),
            map_of(final(analytics).historical@) == map_of(old(analytics).historical@).insert(
                now / SECONDS_PER_DAY,
                map_of(final(analytics).historical@)[now / SECONDS_PER_DAY],
            ),
            ({
                let e = map_of(final(analytics).historical@)[now / SECONDS_PER_DAY];
                e.day == now / SECONDS_PER_DAY && e.point.timestamp == now && e.point.metrics
                    == old(analytics).protocol_metrics && e.point.asset_data@.len() == 0
            }),
            *final(analytics) == (AnalyticsState { historical: final(analytics).historical, ..*old(analytics) }),
    {
        let day_bucket = now / SECONDS_PER_DAY;
        let point = HistoricalDataPoint { timestamp: now, metrics: analytics.protocol_metrics, asset_data: Vec::new() };
        let entry = HistoryEntry { day: day_bucket, point };
        upsert(&mut analytics.historical, entry);
    }

    /// The protocol report: the stored metrics, the number of users with
    /// analytics and of those active in the last day (the cutoff saturates
    /// at 0), stamped `now`.
    pub fn get_protocol_report(a: &AnalyticsState, now: u64) -> (r: Result<ProtocolReport, ProtocolError>)
        ensures
            r == Ok::<ProtocolReport, ProtocolError>(
                ProtocolReport {
                    protocol_metrics: a.protocol_metrics,
                    risk_analytics: a.risk_analytics,
                    performance_metrics: a.performance_metrics,
                    total_users: a.user_analytics@.len() as i128,
                    active_users: count_active(
                        a.user_analytics@,
                        (if now >= SECONDS_PER_DAY { now - SECONDS_PER_DAY } else { 0 }) as u64,
                    ) as i128,
                    generated_at: now,
                },
            ),
    {
        let cutoff = crate::math::sat_sub_u64(now, SECONDS_PER_DAY);
        let users = &a.user_analytics;
        let mut active: usize = 0;
        let mut i: usize = 0;
        while i < users.len()
            invariant
                i <= users@.len(),
                active == count_active(users@.subrange(0, i as int), cutoff),
                active <= i,
            decreases users@.len() - i,
        {
            proof {
                assert(users@.subrange(0, i + 1).drop_last() =~= users@.subrange(0, i as int));
            }
            if users[i].analytics.last_activity > cutoff {
                active = active + 1;
            }
            i = i + 1;
        }
        proof {
            assert(users@.subrange(0, users@.len() as int) =~= users@);
        }
        Ok(
            ProtocolReport {
                protocol_metrics: a.protocol_metrics,
                risk_analytics: a.risk_analytics,
                performance_metrics: a.performance_metrics,
                total_users: users.len() as i128,
                active_users: active as i128,
                generated_at: now,
            },
        )
    }

    /// The user's report: their analytics and their logged activities in
    /// log order, stamped `now`.
    pub fn get_user_report(a: &AnalyticsState, now: u64, user: &String) -> (r: Result<UserReport, ProtocolError>)
        requires
            a.wf(),
        ensures
            r is Ok,
            r->Ok_0.user == *user,
            r->Ok_0.analytics == analytics_of(a.user_analytics@, user@),
            log_view(r->Ok_0.recent_activities@) == activities_of(log_view(a.activity_log@), user@),
            r->Ok_0.generated_at == now,
    {
        let analytics = AnalyticsStorage::get_user_analytics_for_user(a, user);
        let log = &a.activity_log;
        let mut out: Vec<ActivityLogEntry> = Vec::new();
        let mut i: usize = 0;
        while i < log.len()
            invariant
                i <= log@.len(),
                log_view(out@) == activities_of(log_view(log@.subrange(0, i as int)), user@),
            decreases log@.len() - i,
        {
            proof {
                assert(log_view(log@.subrange(0, i + 1)).drop_last() =~= log_view(log@.subrange(0, i as int)));
                assert(log_view(log@.subrange(0, i + 1)).last() == log@[i as int]@);
            }
            if log[i].user.eq(user) {
                let ghost before = out@;
                out.push(log[i].clone_entry());
                proof {
                    assert(log_view(out@) =~= log_view(before).push(log@[i as int]@));
                }
            }
            i = i + 1;
        }
        proof {
            assert(log@.subrange(0, log@.len() as int) =~= log@);
        }
        Ok(UserReport { user: user.clone(), analytics, recent_activities: out, generated_at: now })
    }

    /// The asset's report: its analytics (zero when absent) and, for each
    /// daily snapshot holding data of the asset, that data, stamped `now`.
    pub fn get_asset_report(a: &AnalyticsState, now: u64, asset: &String) -> (r: Result<AssetReport, ProtocolError>)
        requires
            a.wf(),
        ensures
            r is Ok,
            r->Ok_0.asset == *asset,
            r->Ok_0.analytics == asset_analytics_of(a.asset_analytics@, *asset),
            history_view(r->Ok_0.historical_data@) == asset_history(a.historical@, asset@),
            r->Ok_0.generated_at == now,
    {
        let analytics = AnalyticsStorage::get_asset_analytics_for_asset(a, asset);
        let hist = &a.historical;
        let mut out: Vec<HistoryAssetEntry> = Vec::new();
        let mut i: usize = 0;
        while i < hist.len()
            invariant
                i <= hist@.len(),
                history_view(out@) == asset_history(hist@.subrange(0, i as int), asset@),
            decreases hist@.len() - i,
        {
            proof {
                assert(hist@.subrange(0, i + 1).drop_last() =~= hist@.subrange(0, i as int));
            }
            let data = &hist[i].point.asset_data;
            match find_key(data, asset) {
                Some(j) => {
                    proof {
                        crate::keyed::lemma_first_of(data@, asset@, j as int);
                    }
                    let ghost before = out@;
                    out.push(HistoryAssetEntry { day: hist[i].day, analytics: data[j].clone_analytics() });
                    proof {
                        assert(history_view(out@) =~= history_view(before).push((hist@[i as int].day, data@[j as int])));
                    }
                },
                None => {
                    proof {
                        crate::keyed::lemma_first_of_none(data@, asset@);
                    }
                },
            }
            i = i + 1;
        }
        proof {
            assert(hist@.subrange(0, hist@.len() as int) =~= hist@);
        }
        Ok(AssetReport { asset: asset.clone(), analytics, historical_data: out, generated_at: now })
    }

    /// Assesses risk from the users' analytics: positions below a 150%
    /// collateralization count as undercollateralized and their debt as
    /// value at risk; the score adds utilization and concentration risk,
    /// capped at 100. Stores and returns the assessment.
    pub fn calculate_risk_analytics(a: &mut AnalyticsState, now: u64) -> (r: Result<RiskAnalytics, ProtocolError>)
        requires
            risk_fits(old(a)),
        ensures
            r == Ok::<RiskAnalytics, ProtocolError>(spec_risk(old(a), now)),
            *final(a) == (AnalyticsState { risk_analytics: spec_risk(old(a), now), ..*old(a) }),
    {
        let users = &a.user_analytics;
        let mut undercollateralized: i128 = 0;
        let mut value_at_risk: i128 = 0;
        let mut i: usize = 0;
        while i < users.len()
            invariant
                i <= users@.len(),
                risk_fits(a),
                users@ == a.user_analytics@,
                undercollateralized == count_under(users@.subrange(0, i as int)),
                value_at_risk == debt_under(users@.subrange(0, i as int)),
            decreases users@.len() - i,
        {
            proof {
                assert(users@.subrange(0, i + 1).drop_last() =~= users@.subrange(0, i as int));
                lemma_count_under_bound(users@.subrange(0, i + 1));
                lemma_debt_prefix(users@, i + 1);
            }
            if users[i].analytics.collateralization_ratio < 150 {
                undercollateralized = undercollateralized + 1;
                value_at_risk = value_at_risk + users[i].analytics.debt_value;
            }
            i = i + 1;
        }
        proof {
            assert(users@.subrange(0, users@.len() as int) =~= users@);
        }
        proof {
            lemma_count_under_bound(users@);
            assert(undercollateralized * 100 <= users@.len() * 100) by (nonlinear_arith)
                requires
                    undercollateralized <= users@.len(),
            ;
        }
        let m = a.protocol_metrics;
        let utilization_risk = if m.total_deposits > 0 {
            (m.total_borrows * 100) / m.total_deposits
        } else {
            0
        };
        let concentration_risk = if m.total_users > 0 {
            (undercollateralized * 100) / m.total_users
        } else {
            0
        };
        let total = utilization_risk + concentration_risk;
        let risk = RiskAnalytics {
            protocol_risk_score: if total < 100 {
                total
            } else {
                100
            },
            undercollateralized_positions: undercollateralized,
            value_at_risk,
            liquidation_threshold_prox: 0,
            concentration_risk,
            last_assessment: now,
        };
        a.risk_analytics = risk;
        Ok(risk)
    }

    /// Folds a processing time and an outcome into the performance metrics
    /// (halving averages).
    pub fn update_performance_metrics(a: &mut AnalyticsState, now: u64, processing_time: i128, success: bool) -> (r:
        Result<(), ProtocolError>)
        requires
            i128::MIN <= old(a).performance_metrics.avg_processing_time + processing_time <= i128::MAX,
            old(a).performance_metrics.success_rate + 100 <= i128::MAX,
            old(a).performance_metrics.error_rate + 100 <= i128::MAX,
        ensures
            r is Ok,
            *final(a) == (AnalyticsState {
                performance_metrics: spec_performance_after(old(a).performance_metrics, now, processing_time, success),
                ..*old(a)
            }),
    {
        let mut m = a.performance_metrics;
        m.avg_processing_time = (m.avg_processing_time + processing_time) / 2;
        if success {
            m.success_rate = (m.success_rate + 100) / 2;
            m.error_rate = m.error_rate / 2;
        } else {
            m.error_rate = (m.error_rate + 100) / 2;
            m.success_rate = m.success_rate / 2;
        }
        m.last_update = now;
        a.performance_metrics = m;
        Ok(())
    }

    /// The newest activities first, at most `limit` and at most 1000, with
    /// the log's size and `now`.
    pub fn get_recent_activity(a: &AnalyticsState, now: u64, limit: u32) -> (r: ActivityFeed)
        ensures
            ({
                let log = log_view(a.activity_log@);
                let n = min_int(min_int(limit as int, log.len() as int), MAX_ACTIVITY_LOG as int);
                &&& log_view(r.entries@) == Seq::new(n as nat, |i: int| log[log.len() - 1 - i])
                &&& r.total_available == a.activity_log@.len() as u32
                &&& r.generated_at == now
            }),
    {
        let log = &a.activity_log;
        let len = log.len();
        let mut n: usize = if (limit as usize) < len {
            limit as usize
        } else {
            len
        };
        if n > MAX_ACTIVITY_LOG {
            n = MAX_ACTIVITY_LOG;
        }
        let mut entries: Vec<ActivityLogEntry> = Vec::new();
        let mut i: usize = 0;
        while i < n
            invariant
                n <= len,
                len == log@.len(),
                i <= n,
                log_view(entries@) == Seq::new(i as nat, |j: int| log_view(log@)[len - 1 - j]),
            decreases n - i,
        {
            let ghost before = entries@;
            entries.push(log[len - 1 - i].clone_entry());
            proof {
                assert(log_view(entries@) =~= log_view(before).push(log@[len - 1 - i]@));
                assert(log_view(entries@) =~= Seq::new((i + 1) as nat, |j: int| log_view(log@)[len - 1 - j]));
            }
            i = i + 1;
        }
        ActivityFeed { entries, total_available: len as u32, generated_at: now }
    }
}

/// How many users were active after `cutoff`.
pub open spec fn count_active(s: Seq<UserAnalyticsEntry>, cutoff: u64) -> int
    decreases s.len(),
{
    if s.len() == 0 {
        0
    } else {
        count_active(s.drop_last(), cutoff) + if s.last().analytics.last_activity > cutoff {
            1int
        } else {
            0int
        }
    }
}

/// The user's activities, in log order.
pub open spec fn activities_of(log: Seq<ActivityView>, user: Seq<char>) -> Seq<ActivityView>
    decreases log.len(),
{
    if log.len() == 0 {
        Seq::empty()
    } else {
        let rest = activities_of(log.drop_last(), user);
        if log.last().user == user {
            rest.push(log.last())
        } else {
            rest
        }
    }
}

/// The stored analytics of `asset`, or zero analytics.
pub open spec fn asset_analytics_of(s: Seq<AssetAnalytics>, asset: String) -> AssetAnalytics {
    if map_of(s).contains_key(asset@) {
        map_of(s)[asset@]
    } else {
        AssetAnalytics {
            asset,
            total_supply: 0,
            total_borrows: 0,
            utilization_rate: 0,
            interest_rate: 0,
            supplier_count: 0,
            borrower_count: 0,
            volume_24h: 0,
            volume_7d: 0,
            volume_30d: 0,
            last_update: 0,
        }
    }
}

pub open spec fn history_view(s: Seq<HistoryAssetEntry>) -> Seq<(u64, AssetAnalytics)> {
    s.map_values(|e: HistoryAssetEntry| (e.day, e.analytics))
}

/// The data of `asset` in each snapshot that holds some, with the day.
pub open spec fn asset_history(h: Seq<HistoryEntry>, asset: Seq<char>) -> Seq<(u64, AssetAnalytics)>
    decreases h.len(),
{
    if h.len() == 0 {
        Seq::empty()
    } else {
        let rest = asset_history(h.drop_last(), asset);
        match first_of(h.last().point.asset_data@, asset) {
            Some(d) => rest.push((h.last().day, d)),
            None => rest,
        }
    }
}

/// How many users are below the 150% collateralization threshold.
pub open spec fn count_under(s: Seq<UserAnalyticsEntry>) -> int
    decreases s.len(),
{
    if s.len() == 0 {
        0
    } else {
        count_under(s.drop_last()) + if s.last().analytics.collateralization_ratio < 150 {
            1int
        } else {
            0int
        }
    }
}

/// The debt of the users below the threshold.
pub open spec fn debt_under(s: Seq<UserAnalyticsEntry>) -> int
    decreases s.len(),
{
    if s.len() == 0 {
        0
    } else {
        debt_under(s.drop_last()) + if s.last().analytics.collateralization_ratio < 150 {
            s.last().analytics.debt_value as int
        } else {
            0int
        }
    }
}

proof fn lemma_count_under_bound(s: Seq<UserAnalyticsEntry>)
    ensures
        0 <= count_under(s) <= s.len(),
    decreases s.len(),
{
    if s.len() > 0 {
        lemma_count_under_bound(s.drop_last());
    }
}

/// Every prefix's at-risk debt stays within `i128`.
pub open spec fn debt_prefixes_fit(s: Seq<UserAnalyticsEntry>) -> bool {
    forall|k: int| 0 <= k <= s.len() ==> i128::MIN <= #[trigger] debt_under(s.subrange(0, k)) <= i128::MAX
}

proof fn lemma_debt_prefix(s: Seq<UserAnalyticsEntry>, k: int)
    requires
        debt_prefixes_fit(s),
        0 <= k <= s.len(),
    ensures
        i128::MIN <= debt_under(s.subrange(0, k)) <= i128::MAX,
{
}

/// The risk assessment's arithmetic stays within `i128`.
pub open spec fn risk_fits(a: &AnalyticsState) -> bool {
    let m = a.protocol_metrics;
    let c = count_under(a.user_analytics@);
    let u = if m.total_deposits > 0 { tdiv(m.total_borrows * 100, m.total_deposits as int) } else { 0 };
    let k = if m.total_users > 0 { tdiv(c * 100, m.total_users as int) } else { 0 };
    &&& debt_prefixes_fit(a.user_analytics@)
    &&& a.user_analytics@.len() * 100 <= i128::MAX
    &&& (m.total_deposits > 0 ==> i128::MIN <= m.total_borrows * 100 <= i128::MAX)
    &&& i128::MIN <= u + k <= i128::MAX
}

/// The risk assessment at `now`.
pub open spec fn spec_risk(a: &AnalyticsState, now: u64) -> RiskAnalytics {
    let m = a.protocol_metrics;
    let c = count_under(a.user_analytics@);
    let u = if m.total_deposits > 0 { tdiv(m.total_borrows * 100, m.total_deposits as int) } else { 0 };
    let k = if m.total_users > 0 { tdiv(c * 100, m.total_users as int) } else { 0 };
    RiskAnalytics {
        protocol_risk_score: min_int(u + k, 100) as i128,
        undercollateralized_positions: c as i128,
        value_at_risk: debt_under(a.user_analytics@) as i128,
        liquidation_threshold_prox: 0,
        concentration_risk: k as i128,
        last_assessment: now,
    }
}

/// The performance metrics after one more operation.
pub open spec fn spec_performance_after(m: PerformanceMetrics, now: u64, processing_time: i128, success: bool) -> PerformanceMetrics {
    PerformanceMetrics {
        avg_processing_time: tdiv(m.avg_processing_time + processing_time, 2) as i128,
        success_rate: (if success { tdiv(m.success_rate + 100, 2) } else { tdiv(m.success_rate as int, 2) }) as i128,
        error_rate: (if success { tdiv(m.error_rate as int, 2) } else { tdiv(m.error_rate + 100, 2) }) as i128,
        last_update: now,
        ..m
    }
}

/// Analytics storage accessors.
pub struct AnalyticsStorage;

impl AnalyticsStorage {
    pub fn get_protocol_metrics(a: &AnalyticsState) -> (m: ProtocolMetrics)
        ensures
            m == a.protocol_metrics,
    {
        a.protocol_metrics
    }

    pub fn put_protocol_metrics(a: &mut AnalyticsState, metrics: ProtocolMetrics)
        ensures
            *final(a) == (AnalyticsState { protocol_metrics: metrics, ..*old(a) }),
    {
        a.protocol_metrics = metrics;
    }

    /// The analytics of `user` (zero before any activity).
    pub fn get_user_analytics_for_user(a: &AnalyticsState, user: &String) -> (r: UserAnalytics)
        requires
            a.wf(),
        ensures
            r == analytics_of(a.user_analytics@, user@),
    {
        match find_key(&a.user_analytics, user) {
            Some(i) => {
                proof {
                    lemma_lookup_at(a.user_analytics@, i as int);
                }
                a.user_analytics[i].analytics
            },
            None => UserAnalytics::new(),
        }
    }

    pub fn update_user_analytics(a: &mut AnalyticsState, user: &String, analytics: UserAnalytics)
        requires
            old(a).wf(),
        ensures
            final(a).wf(),
            map_of(final(a).user_analytics@) == map_of(old(a).user_analytics@).insert(
                user@,
                UserAnalyticsEntry { user: *user, analytics },
            ),
            *final(a) == (AnalyticsState { user_analytics: final(a).user_analytics, ..*old(a) }),
    {
        upsert(&mut a.user_analytics, UserAnalyticsEntry { user: user.clone(), analytics });
    }

    /// The analytics of `asset` (zero when absent).
    pub fn get_asset_analytics_for_asset(a: &AnalyticsState, asset: &String) -> (r: AssetAnalytics)
        requires
            a.wf(),
        ensures
            r == asset_analytics_of(a.asset_analytics@, *asset),
    {
        match find_key(&a.asset_analytics, asset) {
            Some(i) => {
                proof {
                    lemma_lookup_at(a.asset_analytics@, i as int);
                }
                a.asset_analytics[i].clone_analytics()
            },
            None => AssetAnalytics::new(asset.clone()),
        }
    }

    /// Stores the analytics of an asset (under the asset they name).
    pub fn update_asset_analytics(a: &mut AnalyticsState, analytics: AssetAnalytics)
        requires
            old(a).wf(),
        ensures
            final(a).wf(),
            map_of(final(a).asset_analytics@) == map_of(old(a).asset_analytics@).insert(analytics.asset@, analytics),
            *final(a) == (AnalyticsState { asset_analytics: final(a).asset_analytics, ..*old(a) }),
    {
        upsert(&mut a.asset_analytics, analytics);
    }

    pub fn get_risk_analytics(a: &AnalyticsState) -> (r: RiskAnalytics)
        ensures
            r == a.risk_analytics,
    {
        a.risk_analytics
    }

    pub fn put_risk_analytics(a: &mut AnalyticsState, analytics: RiskAnalytics)
        ensures
            *final(a) == (AnalyticsState { risk_analytics: analytics, ..*old(a) }),
    {
        a.risk_analytics = analytics;
    }

    pub fn get_performance_metrics(a: &AnalyticsState) -> (r: PerformanceMetrics)
        ensures
            r == a.performance_metrics,
    {
        a.performance_metrics
    }

    pub fn put_performance_metrics(a: &mut AnalyticsState, metrics: PerformanceMetrics)
        ensures
            *final(a) == (AnalyticsState { performance_metrics: metrics, ..*old(a) }),
    {
        a.performance_metrics = metrics;
    }

    /// A copy of the activity log, oldest first.
    pub fn get_activity_log(a: &AnalyticsState) -> (r: Vec<ActivityLogEntry>)
        ensures
            log_view(r@) == log_view(a.activity_log@),
    {
        let mut out: Vec<ActivityLogEntry> = Vec::new();
        let mut i: usize = 0;
        while i < a.activity_log.len()
            invariant
                i <= a.activity_log@.len(),
                log_view(out@) == log_view(a.activity_log@.subrange(0, i as int)),
            decreases a.activity_log@.len() - i,
        {
            let ghost before = out@;
            out.push(a.activity_log[i].clone_entry());
            proof {
                assert(log_view(out@) =~= log_view(before).push(a.activity_log@[i as int]@));
                assert(log_view(a.activity_log@.subrange(0, i + 1)) =~= log_view(a.activity_log@.subrange(0, i as int)).push(a.activity_log@[i as int]@));
                assert(log_view(out@) =~= log_view(a.activity_log@.subrange(0, i + 1)));
            }
            i = i + 1;
        }
        proof {
            assert(a.activity_log@.subrange(0, a.activity_log@.len() as int) =~= a.activity_log@);
        }
        out
    }

    /// Replaces the activity log.
    pub fn put_activity_log(a: &mut AnalyticsState, log: Vec<ActivityLogEntry>)
        ensures
            *final(a) == (AnalyticsState { activity_log: log, ..*old(a) }),
    {
        a.activity_log = log;
    }
}

} // verus!
