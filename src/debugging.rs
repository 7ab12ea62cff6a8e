use vstd::prelude::*;
use crate::handles::{Counter, Gauge, Histogram};
use crate::key::{CompositeKey, Key, KeyView, MetricKind, Unit};
use crate::metadata::{
    describe_entries, has_meta_key, meta_view, text_of, CompositeKeyView, MetaView,
    MetadataTable,
};
use crate::registry::{has_key, Registry};

verus! {

/// A point-in-time value of a metric. A gauge and each histogram sample are
/// the bit patterns of their floating-point values.
#[derive(Clone, Debug, PartialEq, Eq, Hash)]
pub enum DebugValue {
    Counter(u64),
    Gauge(u64),
    Histogram(Vec<u64>),
}

/// What a `DebugValue` holds, as plain values.
pub enum DebugView {
    Counter(u64),
    Gauge(u64),
    Histogram(Seq<u64>),
}

impl View for DebugValue {
    type V = DebugView;

    open spec fn view(&self) -> DebugView {
        match self {
            DebugValue::Counter(v) => DebugView::Counter(*v),
            DebugValue::Gauge(v) => DebugView::Gauge(*v),
            DebugValue::Histogram(v) => DebugView::Histogram(v@),
        }
    }
}

/// One metric of a snapshot: its key, unit, description and value.
pub type SnapshotEntry = (CompositeKey, Option<Unit>, Option<String>, DebugValue);

/// A `SnapshotEntry`, as plain values.
pub type SnapshotEntryView = (CompositeKeyView, Option<Unit>, Option<Seq<char>>, DebugView);

pub open spec fn entry_view(e: SnapshotEntry) -> SnapshotEntryView {
    (e.0@, e.1, text_of(e.2), e.3@)
}

/// A position of `k` in `keys`.
pub open spec fn key_index(keys: Seq<KeyView>, k: KeyView) -> int {
    choose|i: int| 0 <= i < keys.len() && keys[i] == k
}

/// The current value of the metric under `ck` in `reg`, if one is registered.
pub open spec fn value_of(reg: Registry, ck: CompositeKeyView) -> Option<DebugView> {
    match ck.0 {
        MetricKind::Counter => if has_key(reg.counter_keys(), ck.1) {
            Some(DebugView::Counter(reg.counters()[key_index(reg.counter_keys(), ck.1)]))
        } else {
            None
        },
        MetricKind::Gauge => if has_key(reg.gauge_keys(), ck.1) {
            Some(DebugView::Gauge(reg.gauges()[key_index(reg.gauge_keys(), ck.1)]))
        } else {
            None
        },
        MetricKind::Histogram => if has_key(reg.histogram_keys(), ck.1) {
            Some(DebugView::Histogram(reg.histograms()[key_index(reg.histogram_keys(), ck.1)]))
        } else {
            None
        },
    }
}

/// Every described metric has been registered.
pub open spec fn all_registered(reg: Registry, meta: Seq<(CompositeKeyView, MetaView)>) -> bool {
    forall|i: int| 0 <= i < meta.len() ==> value_of(reg, #[trigger] meta[i].0) is Some
}

/// The snapshot of `reg` over the described metrics `meta`, in their order.
pub open spec fn snapshot_of(reg: Registry, meta: Seq<(CompositeKeyView, MetaView)>) -> Seq<
    SnapshotEntryView,
> {
    meta.map_values(
        |e: (CompositeKeyView, MetaView)| (e.0, e.1.0, e.1.1, value_of(reg, e.0).unwrap()),
    )
}

/// The histogram buffers of `reg` after a snapshot over `meta`: each
/// described histogram is emptied, the others keep their samples.
pub open spec fn drained(reg: Registry, meta: Seq<(CompositeKeyView, MetaView)>) -> Seq<Seq<u64>> {
    Seq::new(
        reg.histograms().len(),
        |j: int|
            if has_meta_key(meta, (MetricKind::Histogram, reg.histogram_keys()[j])) {
                Seq::<u64>::empty()
            } else {
                reg.histograms()[j]
            },
    )
}

/// The values of all described metrics at one moment.
pub struct Snapshot {
    entries: Vec<SnapshotEntry>,
}

impl View for Snapshot {
    type V = Seq<SnapshotEntryView>;

    closed spec fn view(&self) -> Seq<SnapshotEntryView> {
        self.entries@.map_values(|e: SnapshotEntry| entry_view(e))
    }
}

impl Snapshot {
    /// The entries, in the order in which their metrics were first described.
    pub fn into_vec(self) -> (r: Vec<SnapshotEntry>)
        ensures
            r@.map_values(|e: SnapshotEntry| entry_view(e)) == self@,
    {
        self.entries
    }
}

/// A recorder that keeps every metric in memory so that it can be inspected.
pub struct DebuggingRecorder {
    registry: Registry,
    metrics: MetadataTable,
}

impl DebuggingRecorder {
    pub open spec fn wf(&self) -> bool {
        self.registry().wf() && crate::metadata::unique_meta_keys(self.metadata())
    }

    /// The registered metrics and their current values.
    pub closed spec fn registry(&self) -> Registry {
        self.registry
    }

    /// The unit and description of each described metric.
    pub closed spec fn metadata(&self) -> Seq<(CompositeKeyView, MetaView)> {
        self.metrics@
    }

    pub fn new() -> (r: DebuggingRecorder)
        ensures
            r.wf(),
            r.metadata() == Seq::<(CompositeKeyView, MetaView)>::empty(),
            r.registry().counter_keys() == Seq::<KeyView>::empty(),
            r.registry().gauge_keys() == Seq::<KeyView>::empty(),
            r.registry().histogram_keys() == Seq::<KeyView>::empty(),
    {
        DebuggingRecorder { registry: Registry::new(), metrics: MetadataTable::new() }
    }

    fn describe(&mut self, kind: MetricKind, key: &Key, unit: Option<Unit>, description: Option<String>)
        requires
            old(self).wf(),
        ensures
            final(self).wf(),
            final(self).registry() == old(self).registry(),
            final(self).metadata() == describe_entries(
                old(self).metadata(),
                (kind, key@),
                unit,
                text_of(description),
            ),
    {
        let ck = CompositeKey::new(kind, key.clone_key());
        self.metrics.describe(ck, unit, description);
    }

    /// Attaches a unit and a description to a counter; a `None` keeps what
    /// an earlier call gave.
    pub fn describe_counter(&mut self, key: &Key, unit: Option<Unit>, description: Option<String>)
        requires
            old(self).wf(),
        ensures
            final(self).wf(),
            final(self).registry() == old(self).registry(),
            final(self).metadata() == describe_entries(
                old(self).metadata(),
                (MetricKind::Counter, key@),
                unit,
                text_of(description),
            ),
    {
        self.describe(MetricKind::Counter, key, unit, description)
    }

    /// Attaches a unit and a description to a gauge; a `None` keeps what
    /// an earlier call gave.
    pub fn describe_gauge(&mut self, key: &Key, unit: Option<Unit>, description: Option<String>)
        requires
            old(self).wf(),
        ensures
            final(self).wf(),
            final(self).registry() == old(self).registry(),
            final(self).metadata() == describe_entries(
                old(self).metadata(),
                (MetricKind::Gauge, key@),
                unit,
                text_of(description),
            ),
    {
        self.describe(MetricKind::Gauge, key, unit, description)
    }

    /// Attaches a unit and a description to a histogram; a `None` keeps what
    /// an earlier call gave.
    pub fn describe_histogram(&mut self, key: &Key, unit: Option<Unit>, description: Option<String>)
        requires
            old(self).wf(),
        ensures
            final(self).wf(),
            final(self).registry() == old(self).registry(),
            final(self).metadata() == describe_entries(
                old(self).metadata(),
                (MetricKind::Histogram, key@),
                unit,
                text_of(description),
            ),
    {
        self.describe(MetricKind::Histogram, key, unit, description)
    }

    /// A handle to the counter under `key`, created with value zero on first use.
    pub fn register_counter(&mut self, key: &Key) -> (r: Counter)
        requires
            old(self).wf(),
        ensures
            final(self).wf(),
            final(self).metadata() == old(self).metadata(),
            r.slot matches Some(i) && i < final(self).registry().counter_keys().len()
                && final(self).registry().counter_keys()[i as int] == key@,
            has_key(old(self).registry().counter_keys(), key@) ==> final(self).registry()
                == old(self).registry(),
            !has_key(old(self).registry().counter_keys(), key@) ==> final(self).registry().counter_keys() == old(self).registry().counter_keys().push(key@)
                && final(self).registry().counters() == old(self).registry().counters().push(0),
            final(self).registry().gauge_keys() == old(self).registry().gauge_keys(),
            final(self).registry().gauges() == old(self).registry().gauges(),
            final(self).registry().histogram_keys() == old(self).registry().histogram_keys(),
            final(self).registry().histograms() == old(self).registry().histograms(),
    {
        let i = self.registry.get_or_create_counter(key);
        Counter { slot: Some(i) }
    }

    /// A handle to the gauge under `key`, created as positive zero on first use.
    pub fn register_gauge(&mut self, key: &Key) -> (r: Gauge)
        requires
            old(self).wf(),
        ensures
            final(self).wf(),
            final(self).metadata() == old(self).metadata(),
            r.slot matches Some(i) && i < final(self).registry().gauge_keys().len()
                && final(self).registry().gauge_keys()[i as int] == key@,
            has_key(old(self).registry().gauge_keys(), key@) ==> final(self).registry()
                == old(self).registry(),
            !has_key(old(self).registry().gauge_keys(), key@) ==> final(self).registry().gauge_keys() == old(self).registry().gauge_keys().push(key@)
                && final(self).registry().gauges() == old(self).registry().gauges().push(0),
            final(self).registry().counter_keys() == old(self).registry().counter_keys(),
            final(self).registry().counters() == old(self).registry().counters(),
            final(self).registry().histogram_keys() == old(self).registry().histogram_keys(),
            final(self).registry().histograms() == old(self).registry().histograms(),
    {
        let i = self.registry.get_or_create_gauge(key);
        Gauge { slot: Some(i) }
    }

    /// A handle to the histogram under `key`, created empty on first use.
    pub fn register_histogram(&mut self, key: &Key) -> (r: Histogram)
        requires
            old(self).wf(),
        ensures
            final(self).wf(),
            final(self).metadata() == old(self).metadata(),
            r.slot matches Some(i) && i < final(self).registry().histogram_keys().len()
                && final(self).registry().histogram_keys()[i as int] == key@,
            has_key(old(self).registry().histogram_keys(), key@) ==> final(self).registry()
                == old(self).registry(),
            !has_key(old(self).registry().histogram_keys(), key@) ==> final(self).registry().histogram_keys() == old(self).registry().histogram_keys().push(key@)
                && final(self).registry().histograms() == old(self).registry().histograms().push(
                Seq::empty(),
            ),
            final(self).registry().counter_keys() == old(self).registry().counter_keys(),
            final(self).registry().counters() == old(self).registry().counters(),
            final(self).registry().gauge_keys() == old(self).registry().gauge_keys(),
            final(self).registry().gauges() == old(self).registry().gauges(),
    {
        let i = self.registry.get_or_create_histogram(key);
        Histogram { slot: Some(i) }
    }

    /// Adds `by` to the counter behind `h`, wrapping at 2^64; a handle that
    /// points nowhere in this recorder changes nothing.
    pub fn increment(&mut self, h: &Counter, by: u64)
        requires
            old(self).wf(),
        ensures
            final(self).wf(),
            final(self).metadata() == old(self).metadata(),
            final(self).registry().counter_keys() == old(self).registry().counter_keys(),
            final(self).registry().gauge_keys() == old(self).registry().gauge_keys(),
            final(self).registry().gauges() == old(self).registry().gauges(),
            final(self).registry().histogram_keys() == old(self).registry().histogram_keys(),
            final(self).registry().histograms() == old(self).registry().histograms(),
            h.slot matches Some(i) ==> (i < old(self).registry().counter_keys().len() ==> final(self).registry().counters() == old(self).registry().counters().update(
                i as int,
                ((old(self).registry().counters()[i as int] + by) % 0x1_0000_0000_0000_0000) as u64,
            )),
            !(h.slot matches Some(i) && i < old(self).registry().counter_keys().len()) ==> final(self).registry() == old(self).registry(),
    {
        if let Some(i) = h.slot {
            if i < self.registry.counter_count() {
                self.registry.increment_counter(i, by);
            }
        }
    }

    /// Replaces the value of the gauge behind `h` with the bit pattern `bits`;
    /// a handle that points nowhere in this recorder changes nothing.
    pub fn set_gauge(&mut self, h: &Gauge, bits: u64)
        requires
            old(self).wf(),
        ensures
            final(self).wf(),
            final(self).metadata() == old(self).metadata(),
            final(self).registry().counter_keys() == old(self).registry().counter_keys(),
            final(self).registry().counters() == old(self).registry().counters(),
            final(self).registry().gauge_keys() == old(self).registry().gauge_keys(),
            final(self).registry().histogram_keys() == old(self).registry().histogram_keys(),
            final(self).registry().histograms() == old(self).registry().histograms(),
            h.slot matches Some(i) ==> (i < old(self).registry().gauge_keys().len() ==> final(self).registry().gauges() == old(self).registry().gauges().update(i as int, bits)),
            !(h.slot matches Some(i) && i < old(self).registry().gauge_keys().len()) ==> final(self).registry() == old(self).registry(),
    {
        if let Some(i) = h.slot {
            if i < self.registry.gauge_count() {
                self.registry.set_gauge(i, bits);
            }
        }
    }

    /// Appends the sample with bit pattern `bits` to the histogram behind
    /// `h`; a handle that points nowhere in this recorder changes nothing.
    pub fn record(&mut self, h: &Histogram, bits: u64)
        requires
            old(self).wf(),
        ensures
            final(self).wf(),
            final(self).metadata() == old(self).metadata(),
            final(self).registry().counter_keys() == old(self).registry().counter_keys(),
            final(self).registry().counters() == old(self).registry().counters(),
            final(self).registry().gauge_keys() == old(self).registry().gauge_keys(),
            final(self).registry().gauges() == old(self).registry().gauges(),
            final(self).registry().histogram_keys() == old(self).registry().histogram_keys(),
            h.slot matches Some(i) ==> (i < old(self).registry().histogram_keys().len() ==> final(self).registry().histograms() == old(self).registry().histograms().update(
                i as int,
                old(self).registry().histograms()[i as int].push(bits),
            )),
            !(h.slot matches Some(i) && i < old(self).registry().histogram_keys().len())
                ==> final(self).registry() == old(self).registry(),
    {
        if let Some(i) = h.slot {
            if i < self.registry.histogram_count() {
                self.registry.record_histogram(i, bits);
            }
        }
    }

    /// The value of the metric under `ck`, read from the registry.
    fn read_value(&self, ck: &CompositeKey) -> (r: Option<DebugValue>)
        requires
            self.wf(),
        ensures
            r matches Some(v) ==> value_of(self.registry, ck@) == Some(v@),
            r is None ==> value_of(self.registry, ck@) is None,
    {
        match ck.kind {
            MetricKind::Counter => match self.registry.find_counter(&ck.key) {
                Some(i) => {
                    proof {
                        let ks = self.registry.counter_keys();
                        assert(has_key(ks, ck.key@));
                        assert(key_index(ks, ck.key@) == i);
                    }
                    Some(DebugValue::Counter(self.registry.counter(i)))
                },
                None => None,
            },
            MetricKind::Gauge => match self.registry.find_gauge(&ck.key) {
                Some(i) => {
                    proof {
                        let ks = self.registry.gauge_keys();
                        assert(has_key(ks, ck.key@));
                        assert(key_index(ks, ck.key@) == i);
                    }
                    Some(DebugValue::Gauge(self.registry.gauge(i)))
                },
                None => None,
            },
            MetricKind::Histogram => match self.registry.find_histogram(&ck.key) {
                Some(i) => {
                    proof {
                        let ks = self.registry.histogram_keys();
                        assert(has_key(ks, ck.key@));
                        assert(key_index(ks, ck.key@) == i);
                    }
                    Some(DebugValue::Histogram(self.registry.histogram(i)))
                },
                None => None,
            },
        }
    }

    /// Empties every described histogram; the rest of the registry stays.
    fn drain_described(&mut self)
        requires
            old(self).wf(),
        ensures
            final(self).wf(),
            final(self).metadata() == old(self).metadata(),
            final(self).registry().counter_keys() == old(self).registry().counter_keys(),
            final(self).registry().counters() == old(self).registry().counters(),
            final(self).registry().gauge_keys() == old(self).registry().gauge_keys(),
            final(self).registry().gauges() == old(self).registry().gauges(),
            final(self).registry().histogram_keys() == old(self).registry().histogram_keys(),
            final(self).registry().histograms() == drained(old(self).registry(), old(self).metadata()),
    {
        let ghost reg0 = self.registry;
        let ghost meta = self.metrics@;
        let n = self.registry.histogram_count();
        let mut j: usize = 0;
        while j < n
            invariant
                self.wf(),
                reg0.wf(),
                j <= n,
                n == reg0.histogram_keys().len(),
                self.metrics@ == meta,
                self.registry.counter_keys() == reg0.counter_keys(),
                self.registry.counters() == reg0.counters(),
                self.registry.gauge_keys() == reg0.gauge_keys(),
                self.registry.gauges() == reg0.gauges(),
                self.registry.histogram_keys() == reg0.histogram_keys(),
                self.registry.histograms().len() == reg0.histograms().len(),
                forall|t: int| 0 <= t < j ==> self.registry.histograms()[t] == drained(reg0, meta)[t],
                forall|t: int| j <= t < n ==> self.registry.histograms()[t] == reg0.histograms()[t],
            decreases n - j,
        {
            let k = self.registry.histogram_key(j).clone_key();
            let ck = CompositeKey::new(MetricKind::Histogram, k);
            if self.metrics.index_of(&ck).is_some() {
                assert(has_meta_key(meta, (MetricKind::Histogram, reg0.histogram_keys()[j as int])));
                let _ = self.registry.drain_histogram(j);
            } else {
                assert(!has_meta_key(meta, (MetricKind::Histogram, reg0.histogram_keys()[j as int])));
            }
            j = j + 1;
        }
        assert(self.registry.histograms() =~= drained(reg0, meta));
    }

    /// Whether every described metric has been registered: the condition
    /// under which a snapshot can be taken.
    pub fn all_described_registered(&self) -> (r: bool)
        requires
            self.wf(),
        ensures
            r == all_registered(self.registry(), self.metadata()),
    {
        let ghost meta = self.metrics@;
        let n = self.metrics.len();
        let mut i: usize = 0;
        while i < n
            invariant
                self.wf(),
                meta == self.metrics@,
                n == meta.len(),
                i <= n,
                forall|t: int| 0 <= t < i ==> value_of(self.registry, #[trigger] meta[t].0) is Some,
            decreases n - i,
        {
            let (ck, _) = self.metrics.entry(i);
            let found = match ck.kind {
                MetricKind::Counter => self.registry.find_counter(&ck.key).is_some(),
                MetricKind::Gauge => self.registry.find_gauge(&ck.key).is_some(),
                MetricKind::Histogram => self.registry.find_histogram(&ck.key).is_some(),
            };
            if !found {
                assert(value_of(self.registry, meta[i as int].0) is None);
                return false;
            }
            i = i + 1;
        }
        true
    }

    /// Reads every described metric, in the order in which each was first
    /// described, then empties the described histograms. Every described
    /// metric must have been registered.
    pub fn snapshot(&mut self) -> (r: Snapshot)
        requires
            old(self).wf(),
            all_registered(old(self).registry(), old(self).metadata()),
        ensures
            final(self).wf(),
            final(self).metadata() == old(self).metadata(),
            r@ == snapshot_of(old(self).registry(), old(self).metadata()),
            final(self).registry().counter_keys() == old(self).registry().counter_keys(),
            final(self).registry().counters() == old(self).registry().counters(),
            final(self).registry().gauge_keys() == old(self).registry().gauge_keys(),
            final(self).registry().gauges() == old(self).registry().gauges(),
            final(self).registry().histogram_keys() == old(self).registry().histogram_keys(),
            final(self).registry().histograms() == drained(
                old(self).registry(),
                old(self).metadata(),
            ),
    {
        let ghost meta = self.metrics@;
        let n = self.metrics.len();
        let mut entries: Vec<SnapshotEntry> = Vec::new();
        let mut i: usize = 0;
        while i < n
            invariant
                self.wf(),
                *self == *old(self),
                meta == self.metrics@,
                all_registered(self.registry, meta),
                n == meta.len(),
                i <= n,
                entries@.len() == i,
                forall|t: int| 0 <= t < i ==> value_of(self.registry, #[trigger] meta[t].0) is Some,
                forall|t: int|
                    0 <= t < i ==> entry_view(#[trigger] entries@[t]) == snapshot_of(
                        self.registry,
                        meta,
                    )[t],
            decreases n - i,
        {
            let (ck, (unit, description)) = self.metrics.entry(i);
            match self.read_value(&ck) {
                Some(v) => {
                    entries.push((ck, unit, description, v));
                },
                None => {
                    assert(value_of(self.registry, meta[i as int].0) is Some);
                },
            }
            i = i + 1;
        }
        let snap = Snapshot { entries };
        assert(snap@ =~= snapshot_of(self.registry, meta));
        self.drain_described();
        snap
    }
}

impl Default for DebuggingRecorder {
    fn default() -> (r: Self)
        ensures
            r.wf(),
            r.metadata() == Seq::<(CompositeKeyView, MetaView)>::empty(),
            r.registry().counter_keys() == Seq::<KeyView>::empty(),
            r.registry().gauge_keys() == Seq::<KeyView>::empty(),
            r.registry().histogram_keys() == Seq::<KeyView>::empty(),
    {
        DebuggingRecorder::new()
    }
}

/// The value of a counter at `v` after adding each of `bys` in turn, each
/// addition wrapping at 2^64.
pub open spec fn add_all(v: u64, bys: Seq<u64>) -> u64
    decreases bys.len(),
{
    if bys.len() == 0 {
        v
    } else {
        add_all(((v + bys[0]) % 0x1_0000_0000_0000_0000) as u64, bys.drop_first())
    }
}

/// The sum of `bys`.
pub open spec fn total(bys: Seq<u64>) -> int
    decreases bys.len(),
{
    if bys.len() == 0 {
        0
    } else {
        bys[0] + total(bys.drop_first())
    }
}

/// A counter that takes the increments `bys`, in any order, ends at its
/// start plus their sum, modulo 2^64: the order of the increments does not
/// matter.
pub proof fn lemma_increments_sum(v: u64, bys: Seq<u64>)
    ensures
        add_all(v, bys) == (v + total(bys)) % 0x1_0000_0000_0000_0000,
    decreases bys.len(),
{
    if bys.len() > 0 {
        let w = ((v + bys[0]) % 0x1_0000_0000_0000_0000) as u64;
        lemma_increments_sum(w, bys.drop_first());
        let t = total(bys.drop_first());
        let m: int = 0x1_0000_0000_0000_0000;
        assert((((v + bys[0]) % m) + t) % m == (v + bys[0] + t) % m) by {
            vstd::arithmetic::div_mod::lemma_add_mod_noop(v + bys[0], t, m);
            vstd::arithmetic::div_mod::lemma_mod_twice(t, m);
            vstd::arithmetic::div_mod::lemma_add_mod_noop((v + bys[0]) % m, t, m);
            vstd::arithmetic::div_mod::lemma_mod_twice(v + bys[0], m);
        }
    }
}

/// The sum of `n` ones is `n`.
pub proof fn lemma_total_of_ones(bys: Seq<u64>)
    requires
        forall|i: int| 0 <= i < bys.len() ==> bys[i] == 1,
    ensures
        total(bys) == bys.len(),
    decreases bys.len(),
{
    if bys.len() > 0 {
        lemma_total_of_ones(bys.drop_first());
    }
}

/// `n` increments by one of a counter at zero, from any number of callers
/// in any interleaving, leave it at `n`, as long as `n` fits in 64 bits.
pub proof fn lemma_unit_increments_count(bys: Seq<u64>)
    requires
        forall|i: int| 0 <= i < bys.len() ==> bys[i] == 1,
        bys.len() < 0x1_0000_0000_0000_0000,
    ensures
        add_all(0, bys) == bys.len(),
{
    lemma_increments_sum(0, bys);
    lemma_total_of_ones(bys);
}

/// A gauge read right after it was set yields exactly the bit pattern that
/// was written, whatever floating-point value it encodes.
pub proof fn lemma_gauge_reads_back(
    before: Registry,
    after: Registry,
    meta: Seq<(CompositeKeyView, MetaView)>,
    m: int,
    i: int,
    bits: u64,
)
    requires
        before.wf(),
        0 <= m < meta.len(),
        meta[m].0 == (MetricKind::Gauge, before.gauge_keys()[i]),
        0 <= i < before.gauge_keys().len(),
        after.gauge_keys() == before.gauge_keys(),
        after.gauges() == before.gauges().update(i, bits),
    ensures
        value_of(after, (MetricKind::Gauge, before.gauge_keys()[i])) == Some(DebugView::Gauge(bits)),
        snapshot_of(after, meta)[m].3 == DebugView::Gauge(bits),
{
    let k = before.gauge_keys()[i];
    assert(has_key(after.gauge_keys(), k));
    assert(key_index(after.gauge_keys(), k) == i);
}

/// A snapshot consumes the samples of every described histogram: read
/// again right after, each of them is empty.
pub proof fn lemma_snapshot_drains(
    before: Registry,
    after: Registry,
    meta: Seq<(CompositeKeyView, MetaView)>,
    m: int,
    k: KeyView,
)
    requires
        before.wf(),
        has_key(before.histogram_keys(), k),
        0 <= m < meta.len(),
        meta[m].0 == (MetricKind::Histogram, k),
        after.histogram_keys() == before.histogram_keys(),
        after.histograms() == drained(before, meta),
    ensures
        value_of(after, (MetricKind::Histogram, k)) == Some(DebugView::Histogram(Seq::empty())),
        snapshot_of(after, meta)[m].3 == DebugView::Histogram(Seq::empty()),
{
    assert(has_meta_key(meta, (MetricKind::Histogram, k)));
    let i = key_index(before.histogram_keys(), k);
    assert(drained(before, meta)[i] == Seq::<u64>::empty());
}

/// The unit and description recorded for `k` in `s`, if `k` was described.
pub open spec fn meta_of(s: Seq<(CompositeKeyView, MetaView)>, k: CompositeKeyView) -> Option<MetaView> {
    if has_meta_key(s, k) {
        Some(s[choose|i: int| 0 <= i < s.len() && s[i].0 == k].1)
    } else {
        None
    }
}

/// Describing a metric with a unit only, then with a description only,
/// leaves both: each field is overwritten only by a given value.
pub proof fn lemma_describe_fields_independent(
    s: Seq<(CompositeKeyView, MetaView)>,
    k: CompositeKeyView,
    unit: Unit,
    description: Seq<char>,
)
    requires
        crate::metadata::unique_meta_keys(s),
    ensures
        meta_of(
            describe_entries(describe_entries(s, k, Some(unit), None), k, None, Some(description)),
            k,
        ) == Some((Some(unit), Some(description))),
{
    let s1 = describe_entries(s, k, Some(unit), None);
    let s2 = describe_entries(s1, k, None, Some(description));
    let i1: int = if has_meta_key(s, k) {
        choose|i: int| 0 <= i < s.len() && s[i].0 == k
    } else {
        s.len() as int
    };
    assert(s1[i1].0 == k);
    assert(s1[i1].1.0 == Some(unit));
    assert(has_meta_key(s1, k));
    assert(crate::metadata::unique_meta_keys(s1));
    let i2 = choose|i: int| 0 <= i < s1.len() && s1[i].0 == k;
    assert(i2 == i1);
    assert(s2[i1] == (k, (Some(unit), Some(description))));
    assert(has_meta_key(s2, k));
    let i3 = choose|i: int| 0 <= i < s2.len() && s2[i].0 == k;
    assert(crate::metadata::unique_meta_keys(s2));
    assert(i3 == i1);
}

/// The value of a registered metric is the one stored at its key's position.
pub proof fn lemma_value_at(reg: Registry, i: int)
    requires
        reg.wf(),
    ensures
        0 <= i < reg.counter_keys().len() ==> value_of(reg, (MetricKind::Counter, reg.counter_keys()[i]))
            == Some(DebugView::Counter(reg.counters()[i])),
        0 <= i < reg.gauge_keys().len() ==> value_of(reg, (MetricKind::Gauge, reg.gauge_keys()[i]))
            == Some(DebugView::Gauge(reg.gauges()[i])),
        0 <= i < reg.histogram_keys().len() ==> value_of(reg, (MetricKind::Histogram, reg.histogram_keys()[i]))
            == Some(DebugView::Histogram(reg.histograms()[i])),
{
    if 0 <= i < reg.counter_keys().len() {
        assert(has_key(reg.counter_keys(), reg.counter_keys()[i]));
    }
    if 0 <= i < reg.gauge_keys().len() {
        assert(has_key(reg.gauge_keys(), reg.gauge_keys()[i]));
    }
    if 0 <= i < reg.histogram_keys().len() {
        assert(has_key(reg.histogram_keys(), reg.histogram_keys()[i]));
    }
}

/// The values `vals` that a counter takes through a sequence of
/// `increment` calls by `bys`, from any number of callers taking turns: the
/// last is the first plus the sum of `bys` modulo 2^64, so `n` increments by
/// one of a counter at zero leave it at `n` when `n` fits in 64 bits.
pub proof fn lemma_increment_sequence(vals: Seq<u64>, bys: Seq<u64>)
    requires
        vals.len() == bys.len() + 1,
        forall|j: int|
            0 <= j < bys.len() ==> vals[j + 1] == ((#[trigger] vals[j] + bys[j])
                % 0x1_0000_0000_0000_0000) as u64,
    ensures
        vals.last() == add_all(vals[0], bys),
        vals.last() == (vals[0] + total(bys)) % 0x1_0000_0000_0000_0000,
        vals[0] == 0 && bys.len() < 0x1_0000_0000_0000_0000 && (forall|j: int|
            0 <= j < bys.len() ==> bys[j] == 1) ==> vals.last() == bys.len(),
    decreases bys.len(),
{
    if bys.len() > 0 {
        assert(vals[1] == ((vals[0] + bys[0]) % 0x1_0000_0000_0000_0000) as u64);
        let rest = vals.drop_first();
        assert forall|j: int| 0 <= j < bys.drop_first().len() implies rest[j + 1] == ((
        #[trigger] rest[j] + bys.drop_first()[j]) % 0x1_0000_0000_0000_0000) as u64 by {
            assert(vals[j + 2] == ((vals[j + 1] + bys[j + 1]) % 0x1_0000_0000_0000_0000) as u64);
        }
        lemma_increment_sequence(rest, bys.drop_first());
        assert(rest.last() == vals.last());
    }
    lemma_increments_sum(vals[0], bys);
    if vals[0] == 0 && bys.len() < 0x1_0000_0000_0000_0000 && (forall|j: int|
        0 <= j < bys.len() ==> bys[j] == 1) {
        lemma_unit_increments_count(bys);
    }
}

/// The buffers `hs` that a histogram passes through as `record` appends
/// `xs` one by one: the last is the first followed by `xs`, in order.
pub proof fn lemma_record_sequence(hs: Seq<Seq<u64>>, xs: Seq<u64>)
    requires
        hs.len() == xs.len() + 1,
        forall|j: int| 0 <= j < xs.len() ==> hs[j + 1] == (#[trigger] hs[j]).push(xs[j]),
    ensures
        hs.last() == hs[0] + xs,
    decreases xs.len(),
{
    if xs.len() > 0 {
        let n = xs.len() as int;
        let hs2 = hs.subrange(0, n);
        let xs2 = xs.subrange(0, n - 1);
        assert forall|j: int| 0 <= j < xs2.len() implies hs2[j + 1] == (#[trigger] hs2[j]).push(
            xs2[j],
        ) by {
            assert(hs[j + 1] == hs[j].push(xs[j]));
        }
        lemma_record_sequence(hs2, xs2);
        assert(hs[n] == hs[n - 1].push(xs[n - 1]));
        assert(hs.last() =~= hs[0] + xs);
    }
}

/// Samples appended to an empty, described histogram all show in the next
/// snapshot's entry for it, each exactly once.
pub proof fn lemma_snapshot_shows_recorded(
    reg: Registry,
    meta: Seq<(CompositeKeyView, MetaView)>,
    m: int,
    i: int,
    hs: Seq<Seq<u64>>,
    xs: Seq<u64>,
)
    requires
        reg.wf(),
        0 <= i < reg.histogram_keys().len(),
        0 <= m < meta.len(),
        meta[m].0 == (MetricKind::Histogram, reg.histogram_keys()[i]),
        hs.len() == xs.len() + 1,
        hs[0] == Seq::<u64>::empty(),
        forall|j: int| 0 <= j < xs.len() ==> hs[j + 1] == (#[trigger] hs[j]).push(xs[j]),
        reg.histograms()[i] == hs.last(),
    ensures
        snapshot_of(reg, meta)[m].3 == DebugView::Histogram(xs),
{
    lemma_record_sequence(hs, xs);
    assert(hs[0] + xs =~= xs);
    lemma_value_at(reg, i);
}

} // verus!
