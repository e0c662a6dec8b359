//! Alert deduplication: at most one alert per signature per time window.
use vstd::prelude::*;
use crate::clock::now_millis;
use crate::keyed::{
    keyed_map, keys_unique, lemma_keyed_contains, lemma_keyed_len, lemma_keyed_update,
    lemma_keyed_value, KeyedEntry,
};
use crate::types::{AnomalyType, AnomalyTypeView, ModelId, ServiceId, Severity};

verus! {

/// Settings of the deduplicator.
#[derive(Debug, Clone, Copy, PartialEq, Eq)]
pub struct DeduplicationConfig {
    /// Length of the suppression window, in seconds.
    pub window_secs: u64,
    /// When `false`, every alert is sent and nothing is recorded.
    pub enabled: bool,
    /// Period of the background cleanup, in seconds.
    pub cleanup_interval_secs: u64,
}

impl Default for DeduplicationConfig {
    fn default() -> (r: DeduplicationConfig)
        ensures
            r.window_secs == 300,
            r.enabled,
            r.cleanup_interval_secs == 60,
    {
        DeduplicationConfig { window_secs: 300, enabled: true, cleanup_interval_secs: 60 }
    }
}

/// Signature of an alert: service, model, anomaly type and severity.
#[derive(Debug, Clone, PartialEq, Eq, Hash)]
pub struct DeduplicationKey {
    pub service: ServiceId,
    pub model: ModelId,
    pub anomaly_type: AnomalyType,
    pub severity: Severity,
}

/// Mathematical value of a [`DeduplicationKey`].
pub struct AlertSignature {
    pub service: Seq<char>,
    pub model: Seq<char>,
    pub anomaly_type: AnomalyTypeView,
    pub severity: Severity,
}

impl View for DeduplicationKey {
    type V = AlertSignature;

    open spec fn view(&self) -> AlertSignature {
        AlertSignature {
            service: self.service@,
            model: self.model@,
            anomaly_type: self.anomaly_type@,
            severity: self.severity,
        }
    }
}

impl DeduplicationKey {
    pub fn new(
        service: ServiceId,
        model: ModelId,
        anomaly_type: AnomalyType,
        severity: Severity,
    ) -> (r: DeduplicationKey)
        ensures
            r.service == service,
            r.model == model,
            r.anomaly_type == anomaly_type,
            r.severity == severity,
    {
        DeduplicationKey { service, model, anomaly_type, severity }
    }

    /// Two keys name the same signature when all four parts agree.
    pub fn same_signature(&self, other: &DeduplicationKey) -> (r: bool)
        ensures
            r == (self@ == other@),
    {
        self.service.same_as(&other.service) && self.model.same_as(&other.model)
            && self.anomaly_type.same_as(&other.anomaly_type) && self.severity == other.severity
    }
}

/// What is recorded for one signature.
pub struct EntryView {
    pub key: AlertSignature,
    /// Time of the latest observation, in milliseconds since the epoch.
    pub last_seen: int,
    /// Observations in the current window, the one sent included.
    pub count: nat,
    /// Alert ids observed in the current window, in order.
    pub alert_ids: Seq<String>,
}

/// Strictly more than `window_secs` seconds lie between `last` and `now` (milliseconds).
pub open spec fn window_expired(last: int, now: int, window_secs: nat) -> bool {
    now - last > window_secs * 1000
}

/// The entry that opens a new window.
pub open spec fn fresh_entry(k: AlertSignature, id: String, now: int) -> EntryView {
    EntryView { key: k, last_seen: now, count: 1, alert_ids: seq![id] }
}

/// The entry after one more observation inside its window.
pub open spec fn bumped_entry(e: EntryView, id: String, now: int) -> EntryView {
    EntryView {
        key: e.key,
        last_seen: now,
        count: if e.count < u64::MAX { e.count + 1 } else { e.count },
        alert_ids: e.alert_ids.push(id),
    }
}

/// One observation of signature `k` at time `now`: the new table and whether
/// the alert is sent.
pub open spec fn observe(
    m: Map<AlertSignature, EntryView>,
    k: AlertSignature,
    id: String,
    now: int,
    cfg: DeduplicationConfig,
) -> (Map<AlertSignature, EntryView>, bool) {
    if !cfg.enabled {
        (m, true)
    } else if !m.contains_key(k) {
        (m.insert(k, fresh_entry(k, id, now)), true)
    } else if window_expired(m[k].last_seen, now, cfg.window_secs as nat) {
        (m.insert(k, fresh_entry(k, id, now)), true)
    } else {
        (m.insert(k, bumped_entry(m[k], id, now)), false)
    }
}

/// Observations of signature `k` with ids `ids` at times `times`, in order:
/// the final table and what each observation returned.
pub open spec fn observe_all(
    m: Map<AlertSignature, EntryView>,
    k: AlertSignature,
    ids: Seq<String>,
    times: Seq<int>,
    cfg: DeduplicationConfig,
) -> (Map<AlertSignature, EntryView>, Seq<bool>)
    decreases times.len(),
{
    if times.len() == 0 || ids.len() == 0 {
        (m, Seq::empty())
    } else {
        let (m1, rs) = observe_all(m, k, ids.drop_last(), times.drop_last(), cfg);
        let (m2, r) = observe(m1, k, ids.last(), times.last(), cfg);
        (m2, rs.push(r))
    }
}

/// Index of the last `true` in `rs`, or -1.
pub open spec fn last_sent(rs: Seq<bool>) -> int
    decreases rs.len(),
{
    if rs.len() == 0 {
        -1
    } else if rs.last() {
        rs.len() - 1
    } else {
        last_sent(rs.drop_last())
    }
}

proof fn lemma_last_sent_first(rs: Seq<bool>)
    requires
        rs.len() > 0,
        rs[0],
        forall|i: int| 0 < i < rs.len() ==> !rs[i],
    ensures
        last_sent(rs) == 0,
    decreases rs.len(),
{
    if rs.len() > 1 {
        let init = rs.drop_last();
        assert(init[0]);
        assert forall|i: int| 0 < i < init.len() implies !init[i] by {
            assert(init[i] == rs[i]);
        }
        lemma_last_sent_first(init);
    }
}

/// Within a single window (no gap between consecutive observations exceeds it), the
/// first observation of a signature not yet recorded is the only one sent, and the
/// recorded count equals the number of observations: the suppressed ones number the
/// observations less the one alert sent.
pub proof fn lemma_single_window_suppression(
    m: Map<AlertSignature, EntryView>,
    k: AlertSignature,
    ids: Seq<String>,
    times: Seq<int>,
    cfg: DeduplicationConfig,
)
    requires
        cfg.enabled,
        !m.contains_key(k),
        ids.len() == times.len(),
        0 < times.len() < u64::MAX,
        forall|i: int|
            0 < i < times.len() ==> !window_expired(
                #[trigger] times[i - 1],
                times[i],
                cfg.window_secs as nat,
            ),
    ensures
        ({
            let (m2, rs) = observe_all(m, k, ids, times, cfg);
            &&& rs[0]
            &&& forall|i: int| 0 < i < times.len() ==> !rs[i]
            &&& m2[k].count - 1 == times.len() - 1
        }),
{
    lemma_one_alert_per_window(m, k, ids, times, cfg);
    let (m2, rs) = observe_all(m, k, ids, times, cfg);
    assert forall|i: int| 0 < i < times.len() implies !rs[i] by {
        assert(rs[i] == window_expired(times[i - 1], times[i], cfg.window_secs as nat));
    }
    lemma_last_sent_first(rs);
}

/// From an empty table, a run of observations of one signature within a single window
/// leaves one signature recorded, and the suppressed total is the number of
/// observations less the one alert sent.
pub proof fn lemma_single_window_stats(
    m: Map<AlertSignature, EntryView>,
    k: AlertSignature,
    ids: Seq<String>,
    times: Seq<int>,
    cfg: DeduplicationConfig,
)
    requires
        cfg.enabled,
        m == Map::<AlertSignature, EntryView>::empty(),
        ids.len() == times.len(),
        0 < times.len() < u64::MAX,
        forall|i: int|
            0 < i < times.len() ==> !window_expired(
                #[trigger] times[i - 1],
                times[i],
                cfg.window_secs as nat,
            ),
    ensures
        ({
            let (m2, rs) = observe_all(m, k, ids, times, cfg);
            &&& m2.dom() == set![k]
            &&& table_suppressed(m2, None) == times.len() - 1
        }),
{
    lemma_one_alert_per_window(m, k, ids, times, cfg);
    lemma_single_window_suppression(m, k, ids, times, cfg);
    let (m2, rs) = observe_all(m, k, ids, times, cfg);
    assert(m2.dom() =~= set![k]);
    lemma_table_suppressed_split(m2, k, None);
    lemma_table_suppressed_empty(m2.remove(k), None);
}

/// With deduplication enabled, a run of observations of one signature that is not yet
/// recorded sends exactly the first alert of each window: the first observation, and
/// each one that comes more than the window after the one before it. Every other
/// observation is suppressed and counted, so the recorded count less one is the number
/// of observations suppressed since the last alert sent.
pub proof fn lemma_one_alert_per_window(
    m: Map<AlertSignature, EntryView>,
    k: AlertSignature,
    ids: Seq<String>,
    times: Seq<int>,
    cfg: DeduplicationConfig,
)
    requires
        cfg.enabled,
        !m.contains_key(k),
        ids.len() == times.len(),
        times.len() < u64::MAX,
    ensures
        ({
            let (m2, rs) = observe_all(m, k, ids, times, cfg);
            &&& rs.len() == times.len()
            &&& times.len() > 0 ==> rs[0]
            &&& forall|i: int|
                #![trigger rs[i]]
                0 < i < times.len() ==> rs[i] == window_expired(
                    times[i - 1],
                    times[i],
                    cfg.window_secs as nat,
                )
            &&& times.len() > 0 ==> {
                &&& m2.contains_key(k)
                &&& m2[k].last_seen == times.last()
                &&& m2[k].count == times.len() - last_sent(rs)
                &&& 0 <= last_sent(rs)
            }
            &&& forall|k2: AlertSignature| k2 != k ==> m2.contains_key(k2) == m.contains_key(k2)
        }),
    decreases times.len(),
{
    if times.len() > 0 {
        let n = times.len();
        lemma_one_alert_per_window(m, k, ids.drop_last(), times.drop_last(), cfg);
        let (m1, rs1) = observe_all(m, k, ids.drop_last(), times.drop_last(), cfg);
        let (m2, rs) = observe_all(m, k, ids, times, cfg);
        assert(rs.drop_last() =~= rs1);
        assert forall|i: int| #![trigger rs[i]] 0 < i < n implies rs[i] == window_expired(
            times[i - 1],
            times[i],
            cfg.window_secs as nat,
        ) by {
            if i < n - 1 {
                assert(rs[i] == rs1[i]);
                assert(times[i] == times.drop_last()[i]);
                assert(times[i - 1] == times.drop_last()[i - 1]);
            } else {
                assert(times.drop_last().last() == times[i - 1]);
            }
        }
        if n > 1 {
            assert(rs[0] == rs1[0]);
        }
    }
}

/// `after` keeps exactly the entries of `before` whose window has not expired at
/// `now`, each unchanged.
pub open spec fn cleaned(
    before: Map<AlertSignature, EntryView>,
    after: Map<AlertSignature, EntryView>,
    now: int,
    window_secs: nat,
) -> bool {
    &&& forall|k: AlertSignature|
        #![trigger after.contains_key(k)]
        after.contains_key(k) <==> (before.contains_key(k) && !window_expired(
            before[k].last_seen,
            now,
            window_secs,
        ))
    &&& forall|k: AlertSignature|
        #![trigger after[k]]
        after.contains_key(k) ==> after[k] == before[k]
}

impl KeyedEntry for EntryView {
    type Key = AlertSignature;

    open spec fn key(&self) -> AlertSignature {
        self.key
    }
}

/// Suppressed observations recorded in entry `e`: its count less the one sent.
/// With `sev` given, only an entry of that severity counts.
pub open spec fn entry_suppressed(e: EntryView, sev: Option<Severity>) -> int {
    if (sev.is_none() || e.key.severity == sev.unwrap()) && e.count > 0 {
        e.count - 1
    } else {
        0
    }
}

/// Suppressed observations over the entries of `s`.
pub open spec fn list_suppressed(s: Seq<EntryView>, sev: Option<Severity>) -> int
    decreases s.len(),
{
    if s.len() == 0 {
        0
    } else {
        list_suppressed(s.drop_last(), sev) + entry_suppressed(s.last(), sev)
    }
}

/// Suppressed observations over the entries of table `m`: the sum of
/// `entry_suppressed` over its signatures.
pub open spec fn table_suppressed(m: Map<AlertSignature, EntryView>, sev: Option<Severity>) -> int
    decreases m.len(),
{
    if m.dom().finite() && exists|k: AlertSignature| m.contains_key(k) {
        let k = choose|k: AlertSignature| m.contains_key(k);
        entry_suppressed(m[k], sev) + table_suppressed(m.remove(k), sev)
    } else {
        0
    }
}

/// The sum over a table may take out any one of its signatures first.
pub proof fn lemma_table_suppressed_split(
    m: Map<AlertSignature, EntryView>,
    j: AlertSignature,
    sev: Option<Severity>,
)
    requires
        m.dom().finite(),
        m.contains_key(j),
    ensures
        table_suppressed(m, sev) == entry_suppressed(m[j], sev) + table_suppressed(m.remove(j), sev),
    decreases m.len(),
{
    let c = choose|k: AlertSignature| m.contains_key(k);
    if c != j {
        let mc = m.remove(c);
        let mj = m.remove(j);
        assert(mc.contains_key(j));
        assert(mj.contains_key(c));
        lemma_table_suppressed_split(mc, j, sev);
        lemma_table_suppressed_split(mj, c, sev);
        assert(mc.remove(j) =~= mj.remove(c));
    }
}

/// An empty table holds no suppressed observations.
pub proof fn lemma_table_suppressed_empty(m: Map<AlertSignature, EntryView>, sev: Option<Severity>)
    requires
        m.dom() =~= Set::<AlertSignature>::empty(),
    ensures
        table_suppressed(m, sev) == 0,
{
}

pub open spec fn capped(x: int) -> int {
    if x > u64::MAX {
        u64::MAX as int
    } else {
        x
    }
}

/// `kept` holds, without repetition, exactly the entries of `l` from index `from`
/// on whose window has not expired at `now`.
pub open spec fn kept_live(
    kept: Seq<EntryView>,
    l: Seq<EntryView>,
    from: int,
    now: int,
    w: nat,
) -> bool {
    &&& keys_unique(kept)
    &&& forall|p: int|
        #![trigger kept[p]]
        0 <= p < kept.len() ==> live_from(l, from, kept[p], now, w)
    &&& forall|q: int|
        #![trigger live_at(l, q, now, w)]
        from <= q && live_at(l, q, now, w) ==> exists|p: int|
            #![trigger kept[p]]
            0 <= p < kept.len() && kept[p] == l[q]
}

/// `e` is an entry of `l` at index `from` or later whose window has not expired at `now`.
pub open spec fn live_from(l: Seq<EntryView>, from: int, e: EntryView, now: int, w: nat) -> bool {
    exists|q: int| #![trigger l[q]] from <= q && live_at(l, q, now, w) && l[q] == e
}

/// Entry `q` of `l` exists and its window has not expired at `now`.
pub open spec fn live_at(l: Seq<EntryView>, q: int, now: int, w: nat) -> bool {
    0 <= q < l.len() && !window_expired(l[q].last_seen, now, w)
}

proof fn lemma_kept_live_skip(kept: Seq<EntryView>, l: Seq<EntryView>, j: int, now: int, w: nat)
    requires
        0 <= j < l.len(),
        kept_live(kept, l, j + 1, now, w),
        window_expired(l[j].last_seen, now, w),
    ensures
        kept_live(kept, l, j, now, w),
{
    assert forall|p: int| #![trigger kept[p]] 0 <= p < kept.len() implies live_from(l, j, kept[p], now, w) by {
        let q = choose|q: int| #![trigger l[q]] j + 1 <= q && live_at(l, q, now, w) && l[q] == kept[p];
        assert(j <= q && live_at(l, q, now, w) && l[q] == kept[p]);
    }
    assert forall|q: int|
        #![trigger live_at(l, q, now, w)]
        j <= q && live_at(l, q, now, w) implies exists|p: int|
        #![trigger kept[p]]
        0 <= p < kept.len() && kept[p] == l[q] by {
        assert(q != j);
        assert(j + 1 <= q && live_at(l, q, now, w));
    }
}

proof fn lemma_kept_live_keep(kept: Seq<EntryView>, l: Seq<EntryView>, j: int, now: int, w: nat)
    requires
        keys_unique(l),
        0 <= j < l.len(),
        kept_live(kept, l, j + 1, now, w),
        !window_expired(l[j].last_seen, now, w),
    ensures
        kept_live(kept.push(l[j]), l, j, now, w),
{
    let k2 = kept.push(l[j]);
    assert forall|a: int, b: int| 0 <= a < b < k2.len() implies k2[a].key != k2[b].key by {
        if b == kept.len() {
            assert(k2[a] == kept[a]);
            assert(live_from(l, j + 1, kept[a], now, w));
            let q = choose|q: int| #![trigger l[q]] j + 1 <= q && live_at(l, q, now, w) && l[q] == kept[a];
            assert(l[j].key != l[q].key);
        } else {
            assert(k2[a] == kept[a] && k2[b] == kept[b]);
        }
    }
    assert forall|p: int| #![trigger k2[p]] 0 <= p < k2.len() implies live_from(l, j, k2[p], now, w) by {
        if p == kept.len() {
            assert(k2[p] == l[j]);
            assert(j <= j && live_at(l, j, now, w) && l[j] == k2[p]);
        } else {
            assert(k2[p] == kept[p]);
            assert(live_from(l, j + 1, kept[p], now, w));
            let q = choose|q: int| #![trigger l[q]] j + 1 <= q && live_at(l, q, now, w) && l[q] == kept[p];
            assert(j <= q && live_at(l, q, now, w) && l[q] == k2[p]);
        }
    }
    assert forall|q: int|
        #![trigger live_at(l, q, now, w)]
        j <= q && live_at(l, q, now, w) implies exists|p: int|
        #![trigger k2[p]]
        0 <= p < k2.len() && k2[p] == l[q] by {
        if q == j {
            assert(k2[kept.len() as int] == l[q]);
        } else {
            let p = choose|p: int| #![trigger kept[p]] 0 <= p < kept.len() && kept[p] == l[q];
            assert(k2[p] == l[q]);
        }
    }
}

proof fn lemma_kept_live_done(kept: Seq<EntryView>, l: Seq<EntryView>, now: int, w: nat)
    requires
        keys_unique(l),
        kept_live(kept, l, 0, now, w),
    ensures
        forall|k: AlertSignature|
            #![trigger keyed_map(kept).contains_key(k)]
            keyed_map(kept).contains_key(k) <==> (keyed_map(l).contains_key(k)
                && !window_expired(keyed_map(l)[k].last_seen, now, w)),
        forall|k: AlertSignature|
            #![trigger keyed_map(kept)[k]]
            keyed_map(kept).contains_key(k) ==> keyed_map(kept)[k] == keyed_map(l)[k],
{
    assert forall|k: AlertSignature|
        #![trigger keyed_map(kept).contains_key(k)]
        keyed_map(kept).contains_key(k) <==> (keyed_map(l).contains_key(k)
            && !window_expired(keyed_map(l)[k].last_seen, now, w)) by {
        lemma_keyed_contains(kept, k);
        lemma_keyed_contains(l, k);
        if keyed_map(kept).contains_key(k) {
            let p = choose|p: int| 0 <= p < kept.len() && kept[p].key == k;
            assert(live_from(l, 0, kept[p], now, w));
            let q = choose|q: int| #![trigger l[q]] 0 <= q && live_at(l, q, now, w) && l[q] == kept[p];
            lemma_keyed_value(l, q);
        }
        if keyed_map(l).contains_key(k) {
            let q = choose|q: int| 0 <= q < l.len() && l[q].key == k;
            lemma_keyed_value(l, q);
            if live_at(l, q, now, w) {
                let p = choose|p: int| #![trigger kept[p]] 0 <= p < kept.len() && kept[p] == l[q];
                assert(kept[p].key == k);
            }
        }
    }
    assert forall|k: AlertSignature|
        #![trigger keyed_map(kept)[k]]
        keyed_map(kept).contains_key(k) implies keyed_map(kept)[k] == keyed_map(l)[k] by {
        lemma_keyed_contains(kept, k);
        let p = choose|p: int| 0 <= p < kept.len() && kept[p].key == k;
        assert(live_from(l, 0, kept[p], now, w));
        let q = choose|q: int| #![trigger l[q]] 0 <= q && live_at(l, q, now, w) && l[q] == kept[p];
        lemma_keyed_value(l, q);
        lemma_keyed_value(kept, p);
    }
}

proof fn lemma_list_table_suppressed(s: Seq<EntryView>, sev: Option<Severity>)
    requires
        keys_unique(s),
    ensures
        list_suppressed(s, sev) == table_suppressed(keyed_map(s), sev),
    decreases s.len(),
{
    if s.len() > 0 {
        let init = s.drop_last();
        assert(keys_unique(init));
        lemma_list_table_suppressed(init, sev);
        lemma_keyed_len(init);
        lemma_keyed_contains(init, s.last().key);
        if exists|i: int| 0 <= i < init.len() && init[i].key == s.last().key {
            let i = choose|i: int| 0 <= i < init.len() && init[i].key == s.last().key;
            assert(s[i].key == s[s.len() - 1].key);
        }
        let m = keyed_map(s);
        assert(m.dom().finite());
        lemma_table_suppressed_split(m, s.last().key, sev);
        assert(m.remove(s.last().key) =~= keyed_map(init));
    }
}

/// Record kept for one signature.
struct DeduplicationEntry {
    key: DeduplicationKey,
    last_seen_ms: i64,
    count: u64,
    alert_ids: Vec<String>,
}

impl View for DeduplicationEntry {
    type V = EntryView;

    closed spec fn view(&self) -> EntryView {
        EntryView {
            key: self.key@,
            last_seen: self.last_seen_ms as int,
            count: self.count as nat,
            alert_ids: self.alert_ids@,
        }
    }
}

impl DeduplicationEntry {
    fn new(key: DeduplicationKey, alert_id: String, now_ms: i64) -> (r: DeduplicationEntry)
        ensures
            r@ == fresh_entry(key@, alert_id, now_ms as int),
    {
        let mut alert_ids: Vec<String> = Vec::new();
        alert_ids.push(alert_id);
        DeduplicationEntry { key, last_seen_ms: now_ms, count: 1, alert_ids }
    }

    fn increment(self, alert_id: String, now_ms: i64) -> (r: DeduplicationEntry)
        ensures
            r@ == bumped_entry(self@, alert_id, now_ms as int),
    {
        let mut alert_ids = self.alert_ids;
        alert_ids.push(alert_id);
        let count = if self.count < u64::MAX {
            self.count + 1
        } else {
            self.count
        };
        DeduplicationEntry { key: self.key, last_seen_ms: now_ms, count, alert_ids }
    }

    fn is_expired(&self, now_ms: i64, window_secs: u64) -> (r: bool)
        ensures
            r == window_expired(self@.last_seen, now_ms as int, window_secs as nat),
    {
        let elapsed = now_ms as i128 - self.last_seen_ms as i128;
        elapsed > window_secs as i128 * 1000
    }
}

/// Suppressed counts split by severity.
#[derive(Debug, Clone, Copy, PartialEq, Eq)]
pub struct SeverityCounts {
    pub low: u64,
    pub medium: u64,
    pub high: u64,
    pub critical: u64,
}

impl SeverityCounts {
    pub open spec fn spec_get(self, sev: Severity) -> u64 {
        match sev {
            Severity::Low => self.low,
            Severity::Medium => self.medium,
            Severity::High => self.high,
            Severity::Critical => self.critical,
        }
    }

    pub fn get(&self, sev: Severity) -> (r: u64)
        ensures
            r == self.spec_get(sev),
    {
        match sev {
            Severity::Low => self.low,
            Severity::Medium => self.medium,
            Severity::High => self.high,
            Severity::Critical => self.critical,
        }
    }
}

/// Statistics about suppressed alerts.
#[derive(Debug, Clone, Copy, PartialEq, Eq)]
pub struct DeduplicationStats {
    /// Signatures currently recorded.
    pub total_signatures: usize,
    /// Observations suppressed in the current windows.
    pub total_deduplicated: u64,
    /// The same, by severity.
    pub by_severity: SeverityCounts,
}

/// Keeps, per alert signature, the time it was last seen and what was suppressed since.
pub struct AlertDeduplicator {
    entries: Vec<DeduplicationEntry>,
    config: DeduplicationConfig,
}

impl View for AlertDeduplicator {
    type V = Map<AlertSignature, EntryView>;

    closed spec fn view(&self) -> Map<AlertSignature, EntryView> {
        keyed_map(self.entry_list())
    }
}

impl AlertDeduplicator {
    /// The recorded entries in the order they were first recorded.
    pub closed spec fn entry_list(&self) -> Seq<EntryView> {
        self.entries@.map_values(|e: DeduplicationEntry| e@)
    }

    pub closed spec fn spec_config(&self) -> DeduplicationConfig {
        self.config
    }

    /// Each signature is recorded at most once.
    pub closed spec fn wf(&self) -> bool {
        keys_unique(self.entry_list())
    }

    pub fn new(config: DeduplicationConfig) -> (r: AlertDeduplicator)
        ensures
            r.wf(),
            r.spec_config() == config,
            r@ == Map::<AlertSignature, EntryView>::empty(),
            r.entry_list() == Seq::<EntryView>::empty(),
    {
        let r = AlertDeduplicator { entries: Vec::new(), config };
        assert(r.entry_list() =~= Seq::<EntryView>::empty());
        r
    }

    pub fn config(&self) -> (r: DeduplicationConfig)
        ensures
            r == self.spec_config(),
    {
        self.config
    }

    /// Decides whether an alert with signature `key` observed at `now_ms`
    /// (milliseconds since the epoch) is sent, and records the observation.
    pub fn should_send_at(&mut self, key: DeduplicationKey, alert_id: String, now_ms: i64) -> (r:
        bool)
        requires
            old(self).wf(),
        ensures
            final(self).wf(),
            final(self).spec_config() == old(self).spec_config(),
            (final(self)@, r) == observe(
                old(self)@,
                key@,
                alert_id,
                now_ms as int,
                old(self).spec_config(),
            ),
    {
        if !self.config.enabled {
            return true;
        }
        let ghost s = self.entry_list();
        let n = self.entries.len();
        let mut i: usize = 0;
        let mut found = false;
        while i < n && !found
            invariant
                n == self.entries.len(),
                s == self.entry_list(),
                i <= n,
                found ==> i < n && s[i as int].key == key@,
                forall|j: int| 0 <= j < i ==> s[j].key != key@,
            decreases n - i + (if found { 0int } else { 1int }),
        {
            if self.entries[i].key.same_signature(&key) {
                found = true;
            } else {
                i += 1;
            }
        }
        if !found {
            proof {
                lemma_keyed_contains(s, key@);
            }
            let e = DeduplicationEntry::new(key, alert_id, now_ms);
            self.entries.push(e);
            proof {
                assert(self.entry_list() =~= s.push(e@));
                assert(self.entry_list().drop_last() =~= s);
                assert(keys_unique(s.push(e@)));
            }
            true
        } else {
            proof {
                lemma_keyed_value(s, i as int);
            }
            let ghost before = self.entries@;
            let old_entry = self.entries.remove(i);
            assert(old_entry@ == s[i as int]) by {
                assert(before[i as int] == old_entry);
            }
            let expired = old_entry.is_expired(now_ms, self.config.window_secs);
            let e = if expired {
                DeduplicationEntry::new(key, alert_id, now_ms)
            } else {
                old_entry.increment(alert_id, now_ms)
            };
            self.entries.insert(i, e);
            proof {
                assert(self.entry_list() =~= s.update(i as int, e@));
                lemma_keyed_update(s, i as int, e@);
            }
            expired
        }
    }

    /// Decides whether an alert with signature `key` is sent now, and records it.
    pub fn should_send(&mut self, key: DeduplicationKey, alert_id: String) -> (r: bool)
        requires
            old(self).wf(),
        ensures
            final(self).wf(),
            final(self).spec_config() == old(self).spec_config(),
            exists|now: i64|
                (final(self)@, r) == observe(
                    old(self)@,
                    key@,
                    alert_id,
                    now as int,
                    old(self).spec_config(),
                ),
    {
        let now = now_millis();
        self.should_send_at(key, alert_id, now)
    }

    /// Counts of signatures and of suppressed observations, overall and by severity.
    /// Sums saturate at `u64::MAX`.
    pub fn get_stats(&self) -> (r: DeduplicationStats)
        requires
            self.wf(),
        ensures
            r.total_signatures == self@.len(),
            r.total_deduplicated == capped(table_suppressed(self@, None)),
            forall|sev: Severity|
                #![trigger r.by_severity.spec_get(sev)]
                r.by_severity.spec_get(sev) == capped(table_suppressed(self@, Some(sev))),
    {
        let ghost l = self.entry_list();
        let mut total: u64 = 0;
        let mut counts = SeverityCounts { low: 0, medium: 0, high: 0, critical: 0 };
        let mut i: usize = 0;
        while i < self.entries.len()
            invariant
                l == self.entry_list(),
                i <= l.len(),
                total == capped(list_suppressed(l.take(i as int), None)),
                forall|sev: Severity|
                    #![trigger counts.spec_get(sev)]
                    counts.spec_get(sev) == capped(list_suppressed(l.take(i as int), Some(sev))),
            decreases l.len() - i,
        {
            let e = &self.entries[i];
            let extra: u64 = if e.count > 0 {
                e.count - 1
            } else {
                0
            };
            proof {
                assert(l.take(i + 1).drop_last() =~= l.take(i as int));
                assert(l.take(i + 1).last() == e@);
            }
            let ghost before = counts;
            total = total.saturating_add(extra);
            match e.key.severity {
                Severity::Low => counts.low = counts.low.saturating_add(extra),
                Severity::Medium => counts.medium = counts.medium.saturating_add(extra),
                Severity::High => counts.high = counts.high.saturating_add(extra),
                Severity::Critical => counts.critical = counts.critical.saturating_add(extra),
            }
            assert forall|sev: Severity|
                #![trigger counts.spec_get(sev)]
                counts.spec_get(sev) == capped(list_suppressed(l.take(i + 1), Some(sev))) by {
                assert(before.spec_get(sev) == capped(list_suppressed(l.take(i as int), Some(sev))));
                if sev == e.key.severity {
                    assert(counts.spec_get(sev) == capped(before.spec_get(sev) + extra));
                } else {
                    assert(counts.spec_get(sev) == before.spec_get(sev));
                }
            }
            i += 1;
        }
        assert(l.take(l.len() as int) =~= l);
        proof {
            lemma_keyed_len(l);
            lemma_list_table_suppressed(l, None);
            assert forall|sev: Severity|
                #![trigger counts.spec_get(sev)]
                counts.spec_get(sev) == capped(table_suppressed(self@, Some(sev))) by {
                lemma_list_table_suppressed(l, Some(sev));
            }
        }
        DeduplicationStats {
            total_signatures: self.entries.len(),
            total_deduplicated: total,
            by_severity: counts,
        }
    }

    /// Forgets the signatures whose window has expired at `now_ms`; the others keep
    /// their entries unchanged.
    pub fn cleanup_expired_at(&mut self, now_ms: i64)
        requires
            old(self).wf(),
        ensures
            final(self).wf(),
            final(self).spec_config() == old(self).spec_config(),
            cleaned(
                old(self)@,
                final(self)@,
                now_ms as int,
                old(self).spec_config().window_secs as nat,
            ),
    {
        let ghost l = self.entry_list();
        let ghost cfg0 = self.config;
        let window = self.config.window_secs;
        let mut rest: Vec<DeduplicationEntry> = Vec::new();
        std::mem::swap(&mut self.entries, &mut rest);
        assert(rest@.map_values(|e: DeduplicationEntry| e@) =~= l);
        assert(self.entry_list() =~= Seq::<EntryView>::empty());
        while rest.len() > 0
            invariant
                self.config == cfg0,
                cfg0.window_secs == window,
                rest@.map_values(|e: DeduplicationEntry| e@) == l.take(rest@.len() as int),
                rest@.len() <= l.len(),
                keys_unique(l),
                kept_live(self.entry_list(), l, rest@.len() as int, now_ms as int, window as nat),
            decreases rest@.len(),
        {
            let ghost j = rest@.len() - 1;
            let ghost kept = self.entry_list();
            let e = rest.pop().unwrap();
            assert(e@ == l[j]) by {
                assert(l.take(j + 1)[j] == l[j]);
            }
            assert(rest@.map_values(|e: DeduplicationEntry| e@) =~= l.take(j));
            if !e.is_expired(now_ms, window) {
                self.entries.push(e);
                assert(self.entry_list() =~= kept.push(l[j]));
                proof {
                    lemma_kept_live_keep(kept, l, j, now_ms as int, window as nat);
                }
            } else {
                proof {
                    lemma_kept_live_skip(kept, l, j, now_ms as int, window as nat);
                }
            }
        }
        proof {
            lemma_kept_live_done(self.entry_list(), l, now_ms as int, window as nat);
        }
    }

    /// Forgets the signatures whose window has expired by the current time; what
    /// stays is unchanged.
    pub fn cleanup_expired(&mut self)
        requires
            old(self).wf(),
        ensures
            final(self).wf(),
            final(self).spec_config() == old(self).spec_config(),
            exists|now: i64|
                #[trigger] cleaned(
                    old(self)@,
                    final(self)@,
                    now as int,
                    old(self).spec_config().window_secs as nat,
                ),
    {
        let now = now_millis();
        self.cleanup_expired_at(now);
    }

    /// Number of recorded signatures.
    pub fn entry_count(&self) -> (r: usize)
        requires
            self.wf(),
        ensures
            r == self@.len(),
    {
        proof {
            lemma_keyed_len(self.entry_list());
        }
        self.entries.len()
    }

    /// Forgets every signature.
    pub fn clear(&mut self)
        ensures
            final(self).wf(),
            final(self).spec_config() == old(self).spec_config(),
            final(self)@ == Map::<AlertSignature, EntryView>::empty(),
    {
        self.entries = Vec::new();
        assert(self.entry_list() =~= Seq::<EntryView>::empty());
    }
}

} // verus!
