//! Validated metric names, a retention-bounded metric store keyed by name,
//! and a fixed-capacity buffer of recent snapshots.

use vstd::prelude::*;
use vstd::string::*;
use crate::proto::{all_ascii, ascii_letter_or_digit, is_alphanumeric, unicode_alphanumeric};
use crate::text::{owned, push_str, str_equal};
use crate::sources::{clock_millis, now_millis};

verus! {

/// Errors of the metrics store.
#[derive(Debug)]
pub enum MetricsError {
    InvalidName(String),
    InvalidRetention,
}

/// A validated metric name (non-empty, alphanumerics, `.`, `_`, `-`).
#[derive(Debug, Clone)]
pub struct MetricName(pub String);

/// Characters allowed in a metric name.
pub open spec fn metric_name_char(c: char) -> bool {
    unicode_alphanumeric(c) || c == '.' || c == '_' || c == '-'
}

/// The metric name characters among ASCII ones: letters, digits, `.`,
/// `_` and `-`.
pub open spec fn ascii_metric_name_char(c: char) -> bool {
    ascii_letter_or_digit(c) || c == '.' || c == '_' || c == '-'
}

impl MetricName {
    /// Validate `name`: it must be non-empty and consist of alphanumerics,
    /// `.`, `_` and `-`.
    pub fn new(name: &str) -> (r: Result<MetricName, MetricsError>)
        ensures
            name@.len() == 0 ==> (r matches Err(MetricsError::InvalidName(m)) && m@ == "empty name"@),
            name@.len() > 0 && (forall|i: int| 0 <= i < name@.len() ==> metric_name_char(#[trigger] name@[i]))
                ==> (r matches Ok(n) && n.0@ == name@),
            name@.len() > 0 && !(forall|i: int| 0 <= i < name@.len() ==> metric_name_char(#[trigger] name@[i]))
                ==> (r matches Err(MetricsError::InvalidName(m)) && m@ == "invalid chars in '"@ + name@ + "'"@),
            all_ascii(name@) ==> (r is Ok <==> name@.len() > 0
                && forall|i: int| 0 <= i < name@.len() ==> ascii_metric_name_char(#[trigger] name@[i])),
    {
        if name.is_empty() {
            return Err(MetricsError::InvalidName(owned("empty name")));
        }
        let n = name.unicode_len();
        let mut i: usize = 0;
        while i < n
            invariant
                n == name@.len(),
                i <= n,
                forall|j: int| 0 <= j < i ==> metric_name_char(#[trigger] name@[j]),
                forall|j: int| 0 <= j < i && name@[j] < '\u{80}' ==> ascii_metric_name_char(#[trigger] name@[j]),
            decreases n - i,
        {
            let c = name.get_char(i);
            if !(is_alphanumeric(c) || c == '.' || c == '_' || c == '-') {
                assert(!metric_name_char(name@[i as int]));
                proof {
                    if all_ascii(name@) {
                        assert(name@[i as int] < '\u{80}');
                        assert(!ascii_metric_name_char(name@[i as int]));
                    }
                }
                let mut m = owned("invalid chars in '");
                push_str(&mut m, name);
                push_str(&mut m, "'");
                return Err(MetricsError::InvalidName(m));
            }
            i = i + 1;
        }
        Ok(MetricName(owned(name)))
    }
}

// ─── Fixed-capacity snapshot buffer ──────────────────────────────────────────

/// The last `n` items of `s` (all of them when there are at most `n`).
pub open spec fn keep_last<T>(s: Seq<T>, n: nat) -> Seq<T> {
    if s.len() > n { s.subrange(s.len() - n, s.len() as int) } else { s }
}

/// Holds the most recent `capacity` snapshots, oldest first; pushing onto a
/// full buffer evicts the oldest.
pub struct TimeSeriesBuffer<T> {
    capacity: usize,
    buffer: Vec<T>,
}

impl<T> TimeSeriesBuffer<T> {
    /// The stored snapshots, oldest first.
    pub closed spec fn items(&self) -> Seq<T> {
        self.buffer@
    }

    /// The buffer's capacity.
    pub closed spec fn cap(&self) -> nat {
        self.capacity as nat
    }

    #[verifier::type_invariant]
    spec fn within_capacity(&self) -> bool {
        0 < self.capacity && self.buffer@.len() <= self.capacity
    }

    /// An empty buffer holding at most `capacity` snapshots.
    pub fn new(capacity: usize) -> (b: Self)
        requires
            capacity > 0,
        ensures
            b.items() == Seq::<T>::empty(),
            b.cap() == capacity,
    {
        TimeSeriesBuffer { capacity, buffer: Vec::new() }
    }

    /// Appends `snapshot`, evicting the oldest one when the buffer is full.
    pub fn push(&mut self, snapshot: T)
        ensures
            final(self).cap() == old(self).cap(),
            final(self).items() == keep_last(old(self).items().push(snapshot), old(self).cap()),
    {
        proof { use_type_invariant(&*self); }
        let mut buffer = Vec::new();
        std::mem::swap(&mut buffer, &mut self.buffer);
        let ghost before = buffer@;
        if buffer.len() == self.capacity {
            buffer.remove(0);
        }
        buffer.push(snapshot);
        proof {
            let all = before.push(snapshot);
            if before.len() == self.capacity {
                assert(buffer@ =~= all.subrange(all.len() - self.capacity, all.len() as int));
            } else {
                assert(buffer@ =~= all);
            }
        }
        self.buffer = buffer;
    }

    /// The stored snapshots, oldest first.
    pub fn snapshots(&self) -> (r: &Vec<T>)
        ensures
            r@ == self.items(),
    {
        &self.buffer
    }

    /// Number of stored snapshots.
    pub fn len(&self) -> (n: usize)
        ensures
            n == self.items().len(),
    {
        self.buffer.len()
    }

    /// Whether no snapshot is stored.
    pub fn is_empty(&self) -> (b: bool)
        ensures
            b == (self.items().len() == 0),
    {
        self.buffer.len() == 0
    }
}

/// A push keeps the buffer within its capacity and puts the new snapshot
/// last; with room to spare it keeps every earlier snapshot.
pub proof fn lemma_buffer_push_bounded<T>(items: Seq<T>, cap: nat, x: T)
    requires
        cap > 0,
        items.len() <= cap,
    ensures
        keep_last(items.push(x), cap).len() <= cap,
        keep_last(items.push(x), cap).last() == x,
        items.len() < cap ==> keep_last(items.push(x), cap) == items.push(x),
{
}

// ─── Metric points, ranges and the store ─────────────────────────────────────

/// A point as the contracts see it: time (ms since the Unix epoch), value,
/// and labels as key/value pairs.
pub type PointView<V> = (i64, V, Seq<(Seq<char>, Seq<char>)>);

/// A metric data point; `timestamp` is in milliseconds since the Unix epoch.
pub struct MetricPoint<V> {
    pub timestamp: i64,
    pub value: V,
    pub labels: Vec<(String, String)>,
}

/// The views of a list of labels.
pub open spec fn labels_view(l: Seq<(String, String)>) -> Seq<(Seq<char>, Seq<char>)> {
    l.map_values(|kv: (String, String)| (kv.0@, kv.1@))
}

impl<V> View for MetricPoint<V> {
    type V = PointView<V>;

    open spec fn view(&self) -> PointView<V> {
        (self.timestamp, self.value, labels_view(self.labels@))
    }
}

/// Index of the first label with key `k`, or -1.
pub open spec fn label_position(l: Seq<(Seq<char>, Seq<char>)>, k: Seq<char>) -> int
    decreases l.len(),
{
    if l.len() == 0 {
        -1
    } else {
        let p = label_position(l.drop_last(), k);
        if p >= 0 { p } else if l.last().0 == k { l.len() - 1 } else { -1 }
    }
}

/// The labels after setting `k` to `v`: an existing key keeps its place and
/// takes the new value, a new key goes last.
pub open spec fn with_label(l: Seq<(Seq<char>, Seq<char>)>, k: Seq<char>, v: Seq<char>) -> Seq<(Seq<char>, Seq<char>)> {
    let p = label_position(l, k);
    if p >= 0 { l.update(p, (k, v)) } else { l.push((k, v)) }
}

proof fn lemma_label_position_bounds(l: Seq<(Seq<char>, Seq<char>)>, k: Seq<char>)
    ensures
        -1 <= label_position(l, k) < l.len(),
        label_position(l, k) >= 0 ==> l[label_position(l, k)].0 == k,
        label_position(l, k) < 0 ==> forall|j: int| 0 <= j < l.len() ==> l[j].0 != k,
    decreases l.len(),
{
    if l.len() > 0 {
        lemma_label_position_bounds(l.drop_last(), k);
        assert forall|j: int| 0 <= j < l.len() - 1 implies l.drop_last()[j] == l[j] by {}
    }
}

impl<V: Copy> MetricPoint<V> {
    /// A point at `timestamp` with no labels.
    pub fn at(timestamp: i64, value: V) -> (p: Self)
        ensures
            p@ == (timestamp, value, Seq::<(Seq<char>, Seq<char>)>::empty()),
    {
        let p = MetricPoint { timestamp, value, labels: Vec::new() };
        assert(labels_view(p.labels@) =~= Seq::<(Seq<char>, Seq<char>)>::empty());
        p
    }

    /// A point stamped with the current time, with no labels.
    pub fn now(value: V) -> (p: Self)
        ensures
            p.value == value,
            labels_view(p.labels@) == Seq::<(Seq<char>, Seq<char>)>::empty(),
    {
        Self::at(now_millis(), value)
    }

    /// The point with label `key` set to `value`.
    pub fn label(self, key: &str, value: &str) -> (p: Self)
        ensures
            p.timestamp == self.timestamp,
            p.value == self.value,
            labels_view(p.labels@) == with_label(labels_view(self.labels@), key@, value@),
    {
        let mut labels = self.labels;
        let ghost lv = labels_view(labels@);
        proof { lemma_label_position_bounds(lv, key@); }
        let mut i: usize = 0;
        while i < labels.len()
            invariant
                i <= labels@.len(),
                lv == labels_view(labels@),
                lv == labels_view(self.labels@),
                forall|j: int| 0 <= j < i ==> lv[j].0 != key@,
            decreases labels@.len() - i,
        {
            assert(lv[i as int] == (labels@[i as int].0@, labels@[i as int].1@));
            if str_equal(labels[i].0.as_str(), key) {
                assert(label_position(lv, key@) == i as int) by {
                    lemma_first_label(lv, key@, i as int);
                }
                let (k, _old) = labels.remove(i);
                labels.insert(i, (k, owned(value)));
                assert(labels_view(labels@) =~= lv.update(i as int, (key@, value@)));
                assert(with_label(lv, key@, value@) == lv.update(i as int, (key@, value@)));
                return MetricPoint { timestamp: self.timestamp, value: self.value, labels };
            }
            i = i + 1;
        }
        assert(label_position(lv, key@) < 0);
        labels.push((owned(key), owned(value)));
        assert(labels_view(labels@) =~= lv.push((key@, value@)));
        MetricPoint { timestamp: self.timestamp, value: self.value, labels }
    }

    /// An equal copy of the point.
    pub fn clone_point(&self) -> (p: Self)
        ensures
            p@ == self@,
    {
        let mut labels: Vec<(String, String)> = Vec::new();
        let mut i: usize = 0;
        while i < self.labels.len()
            invariant
                i <= self.labels@.len(),
                labels_view(labels@) == labels_view(self.labels@).take(i as int),
            decreases self.labels@.len() - i,
        {
            let kv = &self.labels[i];
            let ghost before = labels_view(labels@);
            labels.push((kv.0.clone(), kv.1.clone()));
            assert(labels_view(labels@) =~= before.push((kv.0@, kv.1@)));
            assert(labels_view(labels@) =~= labels_view(self.labels@).take(i as int + 1));
            i = i + 1;
        }
        assert(labels_view(self.labels@).take(self.labels@.len() as int) =~= labels_view(self.labels@));
        MetricPoint { timestamp: self.timestamp, value: self.value, labels }
    }
}

proof fn lemma_first_label(l: Seq<(Seq<char>, Seq<char>)>, k: Seq<char>, i: int)
    requires
        0 <= i < l.len(),
        l[i].0 == k,
        forall|j: int| 0 <= j < i ==> l[j].0 != k,
    ensures
        label_position(l, k) == i,
    decreases l.len(),
{
    if i < l.len() - 1 {
        lemma_first_label(l.drop_last(), k, i);
    } else {
        lemma_label_position_bounds(l.drop_last(), k);
    }
}

/// A closed time range in milliseconds since the Unix epoch.
#[derive(Debug, Clone, Copy)]
pub struct TimeRange {
    pub start: i64,
    pub end: i64,
}

impl TimeRange {
    /// The range from `span_ms` before `now` up to `now`.
    pub fn ending_at(now: i64, span_ms: i64) -> (r: TimeRange)
        requires
            i64::MIN <= now - span_ms <= i64::MAX,
        ensures
            r.end == now,
            r.start == now - span_ms,
    {
        TimeRange { start: now - span_ms, end: now }
    }

    /// The last `minutes` minutes up to now.
    pub fn last_minutes(minutes: i64) -> (r: TimeRange)
        requires
            -153_722_713_558_045 <= minutes <= 153_722_713_558_045,
        ensures
            clock_millis(r.end),
            r.end - r.start == minutes * 60_000,
    {
        Self::ending_at(now_millis(), minutes * 60_000)
    }

    /// The last `hours` hours up to now.
    pub fn last_hours(hours: i64) -> (r: TimeRange)
        requires
            -2_562_045_225_967 <= hours <= 2_562_045_225_967,
        ensures
            clock_millis(r.end),
            r.end - r.start == hours * 3_600_000,
    {
        Self::ending_at(now_millis(), hours * 3_600_000)
    }

    /// The last `days` days up to now.
    pub fn last_days(days: i64) -> (r: TimeRange)
        requires
            -106_751_884_415 <= days <= 106_751_884_415,
        ensures
            clock_millis(r.end),
            r.end - r.start == days * 86_400_000,
    {
        Self::ending_at(now_millis(), days * 86_400_000)
    }
}

/// One named series of the store.
struct NamedSeries<V> {
    name: String,
    points: Vec<MetricPoint<V>>,
}

/// Metric storage keyed by name, oldest point first in each series; a push
/// drops the points older than the retention window.
pub struct MetricStore<V> {
    series: Vec<NamedSeries<V>>,
    retention_ms: u64,
}

/// The views of a list of points.
pub open spec fn points_view<V>(p: Seq<MetricPoint<V>>) -> Seq<PointView<V>> {
    p.map_values(|x: MetricPoint<V>| x@)
}

/// A store as the contracts see it: (name, points) pairs in first-use order.
pub type StoreView<V> = Seq<(Seq<char>, Seq<PointView<V>>)>;

/// Index of the series named `name`, or -1.
pub open spec fn series_position<V>(s: StoreView<V>, name: Seq<char>) -> int
    decreases s.len(),
{
    if s.len() == 0 {
        -1
    } else {
        let p = series_position(s.drop_last(), name);
        if p >= 0 { p } else if s.last().0 == name { s.len() - 1 } else { -1 }
    }
}

/// The points of the series named `name` (none if there is no such series).
pub open spec fn series_points<V>(s: StoreView<V>, name: Seq<char>) -> Seq<PointView<V>> {
    let p = series_position(s, name);
    if p >= 0 { s[p].1 } else { Seq::empty() }
}

/// `pts` without its leading points older than `cutoff`.
pub open spec fn evicted<V>(pts: Seq<PointView<V>>, cutoff: int) -> Seq<PointView<V>>
    decreases pts.len(),
{
    if pts.len() > 0 && pts[0].0 < cutoff {
        evicted(pts.subrange(1, pts.len() as int), cutoff)
    } else {
        pts
    }
}

/// The store after pushing `p` onto series `name` with eviction before
/// `cutoff`; a new name starts a new series at the end.
pub open spec fn pushed<V>(s: StoreView<V>, name: Seq<char>, p: PointView<V>, cutoff: int) -> StoreView<V> {
    let i = series_position(s, name);
    if i >= 0 {
        s.update(i, (name, evicted(s[i].1, cutoff).push(p)))
    } else {
        s.push((name, seq![p]))
    }
}

/// The store after a push at time `now` with the given retention window.
pub open spec fn pushed_when<V>(s: StoreView<V>, name: Seq<char>, p: PointView<V>, now: i64, retention: nat) -> StoreView<V> {
    pushed(s, name, p, now - retention)
}

/// The points of `pts` whose time lies in `[start, end]`, in order.
pub open spec fn in_range<V>(pts: Seq<PointView<V>>, start: i64, end: i64) -> Seq<PointView<V>>
    decreases pts.len(),
{
    if pts.len() == 0 {
        Seq::empty()
    } else {
        let rest = in_range(pts.drop_last(), start, end);
        if start <= pts.last().0 <= end { rest.push(pts.last()) } else { rest }
    }
}

/// At most `limit` leading items of `s`.
pub open spec fn limited<T>(s: Seq<T>, limit: Option<usize>) -> Seq<T> {
    match limit {
        Some(n) => if (n as nat) < s.len() { s.take(n as int) } else { s },
        None => s,
    }
}

proof fn lemma_series_position_bounds<V>(s: StoreView<V>, name: Seq<char>)
    ensures
        -1 <= series_position(s, name) < s.len(),
        series_position(s, name) >= 0 ==> s[series_position(s, name)].0 == name,
        series_position(s, name) < 0 ==> forall|j: int| 0 <= j < s.len() ==> s[j].0 != name,
    decreases s.len(),
{
    if s.len() > 0 {
        lemma_series_position_bounds(s.drop_last(), name);
        assert forall|j: int| 0 <= j < s.len() - 1 implies s.drop_last()[j] == s[j] by {}
    }
}

proof fn lemma_first_series<V>(s: StoreView<V>, name: Seq<char>, i: int)
    requires
        0 <= i < s.len(),
        s[i].0 == name,
        forall|j: int| 0 <= j < i ==> s[j].0 != name,
    ensures
        series_position(s, name) == i,
    decreases s.len(),
{
    if i < s.len() - 1 {
        lemma_first_series(s.drop_last(), name, i);
    } else {
        lemma_series_position_bounds(s.drop_last(), name);
    }
}

impl<V> View for MetricStore<V> {
    type V = StoreView<V>;

    closed spec fn view(&self) -> StoreView<V> {
        self.series@.map_values(|e: NamedSeries<V>| (e.name@, points_view(e.points@)))
    }
}

impl<V> MetricStore<V> {
    /// The retention window in milliseconds.
    pub closed spec fn retention(&self) -> nat {
        self.retention_ms as nat
    }

    /// An empty store keeping points for `retention_ms` milliseconds.
    pub fn new(retention_ms: u64) -> (st: Self)
        ensures
            st@ == StoreView::<V>::empty(),
            st.retention() == retention_ms,
    {
        let st = MetricStore { series: Vec::new(), retention_ms };
        assert(st@ =~= StoreView::<V>::empty());
        st
    }

    fn position(&self, name: &str) -> (i: Option<usize>)
        ensures
            self@.len() == self.series@.len(),
            match i {
                Some(k) => k == series_position(self@, name@) && k < self.series@.len()
                    && self@[k as int] == (self.series@[k as int].name@, points_view(self.series@[k as int].points@)),
                None => series_position(self@, name@) < 0,
            },
    {
        proof { lemma_series_position_bounds(self@, name@); }
        let mut i: usize = 0;
        while i < self.series.len()
            invariant
                i <= self.series@.len(),
                self@.len() == self.series@.len(),
                forall|j: int| 0 <= j < i ==> self@[j].0 != name@,
            decreases self.series@.len() - i,
        {
            assert(self@[i as int] == (self.series@[i as int].name@, points_view(self.series@[i as int].points@)));
            if str_equal(self.series[i].name.as_str(), name) {
                proof { lemma_first_series(self@, name@, i as int); }
                return Some(i);
            }
            i = i + 1;
        }
        None
    }

    /// Pushes `point` onto series `name` at time `now`, first dropping the
    /// series' leading points older than `now` minus the retention window.
    /// A retention longer than `i64::MAX` milliseconds is refused.
    pub fn push_at(&mut self, name: &MetricName, point: MetricPoint<V>, now: i64) -> (r: Result<(), MetricsError>)
        requires
            old(self).retention() > i64::MAX || now - old(self).retention() >= i64::MIN,
        ensures
            final(self).retention() == old(self).retention(),
            old(self).retention() > i64::MAX ==> (r matches Err(MetricsError::InvalidRetention) && final(self)@ == old(self)@),
            old(self).retention() <= i64::MAX ==> (r is Ok && final(self)@ == pushed(
                old(self)@,
                name.0@,
                point@,
                now - old(self).retention(),
            )),
    {
        if self.retention_ms > 9_223_372_036_854_775_807u64 {
            return Err(MetricsError::InvalidRetention);
        }
        let retention: i64 = self.retention_ms as i64;
        let cutoff: i64 = now - retention;
        let ghost before = self@;
        let ghost pv = point@;
        match self.position(name.0.as_str()) {
            Some(i) => {
                let mut entry = self.series.remove(i);
                let ghost orig = points_view(entry.points@);
                proof { lemma_series_position_bounds(before, name.0@); }
                loop
                    invariant
                        evicted(points_view(entry.points@), cutoff as int) == evicted(orig, cutoff as int),
                        entry.name@ == name.0@,
                    ensures
                        evicted(points_view(entry.points@), cutoff as int) == evicted(orig, cutoff as int),
                        evicted(points_view(entry.points@), cutoff as int) == points_view(entry.points@),
                        entry.name@ == name.0@,
                    decreases entry.points@.len(),
                {
                    if entry.points.len() == 0 {
                        break;
                    }
                    if entry.points[0].timestamp >= cutoff {
                        break;
                    }
                    let ghost cur = points_view(entry.points@);
                    entry.points.remove(0);
                    assert(points_view(entry.points@) =~= cur.subrange(1, cur.len() as int));
                }
                entry.points.push(point);
                assert(points_view(entry.points@) =~= evicted(orig, cutoff as int).push(pv));
                self.series.insert(i, entry);
                assert(self@ =~= before.update(i as int, (name.0@, evicted(orig, cutoff as int).push(pv))));
            }
            None => {
                let mut points = Vec::new();
                points.push(point);
                self.series.push(NamedSeries { name: name.0.clone(), points });
                assert(points_view(points@) =~= seq![pv]);
                assert(self@ =~= before.push((name.0@, seq![pv])));
            }
        }
        Ok(())
    }

    /// Pushes `point` onto series `name`, dropping the series' points older
    /// than the retention window before the current time.
    pub fn push(&mut self, name: &MetricName, point: MetricPoint<V>) -> (r: Result<(), MetricsError>)
        requires
            old(self).retention() <= 8_000_000_000_000_000,
        ensures
            r is Ok,
            final(self).retention() == old(self).retention(),
            exists|now: i64| final(self)@ == #[trigger] pushed_when(old(self)@, name.0@, point@, now, old(self).retention()),
    {
        let now = now_millis();
        let ghost pv = point@;
        let r = self.push_at(name, point, now);
        assert(self@ == pushed_when(old(self)@, name.0@, pv, now, old(self).retention()));
        r
    }

    /// The name of every series, in first-use order.
    pub fn metric_names(&self) -> (r: Vec<String>)
        ensures
            r@.map_values(|s: String| s@) == self@.map_values(|e: (Seq<char>, Seq<PointView<V>>)| e.0),
    {
        let mut out: Vec<String> = Vec::new();
        let mut i: usize = 0;
        while i < self.series.len()
            invariant
                i <= self.series@.len(),
                self@.len() == self.series@.len(),
                out@.map_values(|s: String| s@)
                    == self@.map_values(|e: (Seq<char>, Seq<PointView<V>>)| e.0).take(i as int),
            decreases self.series@.len() - i,
        {
            assert(self@[i as int] == (self.series@[i as int].name@, points_view(self.series@[i as int].points@)));
            let ghost before = out@.map_values(|s: String| s@);
            out.push(self.series[i].name.clone());
            assert(out@.map_values(|s: String| s@) =~= before.push(self.series@[i as int].name@));
            assert(out@.map_values(|s: String| s@)
                =~= self@.map_values(|e: (Seq<char>, Seq<PointView<V>>)| e.0).take(i as int + 1));
            i = i + 1;
        }
        assert(self@.map_values(|e: (Seq<char>, Seq<PointView<V>>)| e.0).take(self@.len() as int)
            =~= self@.map_values(|e: (Seq<char>, Seq<PointView<V>>)| e.0));
        out
    }
}

impl<V: Copy> MetricStore<V> {
    /// The points of series `name` whose time lies in `range`, oldest
    /// first, at most `limit` of them.
    pub fn query(&self, name: &MetricName, range: &TimeRange, limit: Option<usize>) -> (r: Result<Vec<MetricPoint<V>>, MetricsError>)
        ensures
            r matches Ok(v) && points_view(v@) == limited(
                in_range(series_points(self@, name.0@), range.start, range.end),
                limit,
            ),
    {
        let mut out: Vec<MetricPoint<V>> = Vec::new();
        match self.position(name.0.as_str()) {
            None => {
                assert(points_view(out@) =~= Seq::<PointView<V>>::empty());
                return Ok(out);
            }
            Some(k) => {
                let pts = &self.series[k].points;
                assert(points_view(pts@) == series_points(self@, name.0@));
                let mut i: usize = 0;
                while i < pts.len()
                    invariant
                        i <= pts@.len(),
                        points_view(out@) == in_range(points_view(pts@).take(i as int), range.start, range.end),
                    decreases pts@.len() - i,
                {
                    assert(points_view(pts@).take(i as int + 1).drop_last() =~= points_view(pts@).take(i as int));
                    let p = &pts[i];
                    if range.start <= p.timestamp && p.timestamp <= range.end {
                        let ghost before = points_view(out@);
                        out.push(p.clone_point());
                        assert(points_view(out@) =~= before.push(p@));
                    }
                    i = i + 1;
                }
                assert(points_view(pts@).take(pts@.len() as int) =~= points_view(pts@));
            }
        }
        match limit {
            Some(n) => {
                let ghost all = points_view(out@);
                out.truncate(n);
                assert(points_view(out@) =~= limited(all, limit));
            }
            None => {}
        }
        Ok(out)
    }

    /// The value of the newest point of series `name`.
    pub fn last_value(&self, name: &MetricName) -> (r: Option<V>)
        ensures
            r == (if series_points(self@, name.0@).len() > 0 {
                Some(series_points(self@, name.0@).last().1)
            } else {
                None::<V>
            }),
    {
        match self.position(name.0.as_str()) {
            None => None,
            Some(k) => {
                let pts = &self.series[k].points;
                assert(points_view(pts@) == series_points(self@, name.0@));
                if pts.len() == 0 {
                    None
                } else {
                    Some(pts[pts.len() - 1].value)
                }
            }
        }
    }
}

// ─── Snapshots of one VPS ────────────────────────────────────────────────────

/// Whether `n` passes `MetricName::new`.
pub open spec fn valid_metric_name(n: Seq<char>) -> bool {
    n.len() > 0 && forall|i: int| 0 <= i < n.len() ==> metric_name_char(#[trigger] n[i])
}

/// The store after pushing `v` as metric `name` at `now`: unchanged when the
/// name is invalid or the push is refused.
pub open spec fn snapshot_step<V>(s: StoreView<V>, name: Seq<char>, v: V, now: i64, retention: nat) -> StoreView<V> {
    if retention > i64::MAX || !valid_metric_name(name) {
        s
    } else {
        pushed(s, name, (now, v, Seq::empty()), now - retention)
    }
}

/// The store after a VPS snapshot at `now`: `<id>.cpu`, `<id>.mem`,
/// `<id>.disk` and `<id>.health`, in that order.
pub open spec fn snapshot_pushed<V>(
    s: StoreView<V>,
    id: Seq<char>,
    cpu: V,
    mem: V,
    disk: V,
    health: V,
    now: i64,
    retention: nat,
) -> StoreView<V> {
    let s1 = snapshot_step(s, id + ".cpu"@, cpu, now, retention);
    let s2 = snapshot_step(s1, id + ".mem"@, mem, now, retention);
    let s3 = snapshot_step(s2, id + ".disk"@, disk, now, retention);
    snapshot_step(s3, id + ".health"@, health, now, retention)
}

fn push_snapshot_metric<V: Copy>(store: &mut MetricStore<V>, instance_id: &str, suffix: &str, value: V, now: i64)
    requires
        old(store).retention() > i64::MAX || now - old(store).retention() >= i64::MIN,
    ensures
        final(store).retention() == old(store).retention(),
        final(store)@ == snapshot_step(old(store)@, instance_id@ + suffix@, value, now, old(store).retention()),
{
    let mut name_str = owned(instance_id);
    push_str(&mut name_str, suffix);
    match MetricName::new(name_str.as_str()) {
        Ok(name) => {
            let _ = store.push_at(&name, MetricPoint::at(now, value), now);
        }
        Err(_) => {}
    }
}

/// Pushes one VPS snapshot at time `now`: `<id>.cpu`, `<id>.mem`,
/// `<id>.disk` and `<id>.health`. A metric whose name is invalid, or whose
/// push is refused, is skipped.
pub fn push_vps_snapshot_at<V: Copy>(
    store: &mut MetricStore<V>,
    instance_id: &str,
    cpu_pct: V,
    mem_pct: V,
    disk_pct: V,
    health_score: V,
    now: i64,
)
    requires
        old(store).retention() > i64::MAX || now - old(store).retention() >= i64::MIN,
    ensures
        final(store).retention() == old(store).retention(),
        final(store)@ == snapshot_pushed(
            old(store)@,
            instance_id@,
            cpu_pct,
            mem_pct,
            disk_pct,
            health_score,
            now,
            old(store).retention(),
        ),
{
    proof {
        reveal_strlit(".cpu");
        reveal_strlit(".mem");
        reveal_strlit(".disk");
        reveal_strlit(".health");
    }
    push_snapshot_metric(store, instance_id, ".cpu", cpu_pct, now);
    push_snapshot_metric(store, instance_id, ".mem", mem_pct, now);
    push_snapshot_metric(store, instance_id, ".disk", disk_pct, now);
    push_snapshot_metric(store, instance_id, ".health", health_score, now);
}

/// Pushes one VPS snapshot stamped with the current time.
pub fn push_vps_snapshot<V: Copy>(
    store: &mut MetricStore<V>,
    instance_id: &str,
    cpu_pct: V,
    mem_pct: V,
    disk_pct: V,
    health_score: V,
)
    requires
        old(store).retention() <= 8_000_000_000_000_000,
    ensures
        final(store).retention() == old(store).retention(),
        exists|now: i64| final(store)@ == #[trigger] snapshot_pushed(
            old(store)@,
            instance_id@,
            cpu_pct,
            mem_pct,
            disk_pct,
            health_score,
            now,
            old(store).retention(),
        ),
{
    let now = now_millis();
    push_vps_snapshot_at(store, instance_id, cpu_pct, mem_pct, disk_pct, health_score, now);
}

/// A value pushed at `now` within the retention window is the newest value
/// of its series: a read after a write gives back what was written.
pub proof fn lemma_last_value_after_push<V>(s: StoreView<V>, name: Seq<char>, p: PointView<V>, cutoff: int)
    ensures
        series_points(pushed(s, name, p, cutoff), name).len() > 0,
        series_points(pushed(s, name, p, cutoff), name).last() == p,
{
    lemma_series_position_bounds(s, name);
    let i = series_position(s, name);
    let t = pushed(s, name, p, cutoff);
    if i >= 0 {
        assert forall|j: int| 0 <= j < i implies t[j].0 != name by {
            lemma_first_series_not_before(s, name, j);
        }
        lemma_first_series(t, name, i);
    } else {
        assert forall|j: int| 0 <= j < s.len() implies t[j].0 != name by {}
        lemma_first_series(t, name, s.len() as int);
    }
}

proof fn lemma_first_series_not_before<V>(s: StoreView<V>, name: Seq<char>, j: int)
    requires
        0 <= j < series_position(s, name),
    ensures
        s[j].0 != name,
    decreases s.len(),
{
    lemma_series_position_bounds(s, name);
    lemma_series_position_bounds(s.drop_last(), name);
    assert(s.drop_last()[j] == s[j]);
    if series_position(s.drop_last(), name) >= 0 {
        lemma_first_series_not_before(s.drop_last(), name, j);
    }
}

proof fn lemma_position_same_names<V>(a: StoreView<V>, b: StoreView<V>, name: Seq<char>)
    requires
        a.len() == b.len(),
        forall|j: int| 0 <= j < a.len() ==> a[j].0 == b[j].0,
    ensures
        series_position(a, name) == series_position(b, name),
    decreases a.len(),
{
    if a.len() > 0 {
        lemma_position_same_names(a.drop_last(), b.drop_last(), name);
    }
}

/// A push onto one series leaves every other series as it was.
pub proof fn lemma_push_leaves_other_series<V>(
    s: StoreView<V>,
    name: Seq<char>,
    p: PointView<V>,
    cutoff: int,
    other: Seq<char>,
)
    requires
        other != name,
    ensures
        series_points(pushed(s, name, p, cutoff), other) == series_points(s, other),
{
    lemma_series_position_bounds(s, name);
    lemma_series_position_bounds(s, other);
    let i = series_position(s, name);
    let t = pushed(s, name, p, cutoff);
    if i >= 0 {
        lemma_position_same_names(s, t, other);
        let k = series_position(s, other);
        if k >= 0 {
            assert(k != i);
        }
    } else {
        assert(t.drop_last() =~= s);
    }
}

} // verus!
