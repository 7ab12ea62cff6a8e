use vstd::prelude::*;
use crate::key::{Key, KeyView};

verus! {

/// No key occurs twice in `s`.
pub open spec fn unique_keys(s: Seq<KeyView>) -> bool {
    forall|i: int, j: int| 0 <= i < s.len() && 0 <= j < s.len() && i != j ==> s[i] != s[j]
}

/// `k` occurs in `s`.
pub open spec fn has_key(s: Seq<KeyView>, k: KeyView) -> bool {
    exists|i: int| 0 <= i < s.len() && s[i] == k
}

/// The keys of one kind of metric, in the order they were first registered.
pub struct KeyList {
    keys: Vec<Key>,
}

impl View for KeyList {
    type V = Seq<KeyView>;

    closed spec fn view(&self) -> Seq<KeyView> {
        self.keys@.map_values(|k: Key| k@)
    }
}

impl KeyList {
    pub open spec fn wf(&self) -> bool {
        unique_keys(self@)
    }

    pub fn new() -> (r: KeyList)
        ensures
            r.wf(),
            r@ == Seq::<KeyView>::empty(),
    {
        let r = KeyList { keys: Vec::new() };
        assert(r@ =~= Seq::<KeyView>::empty());
        r
    }

    pub fn len(&self) -> (r: usize)
        ensures
            r == self@.len(),
    {
        self.keys.len()
    }

    pub fn get(&self, i: usize) -> (r: &Key)
        requires
            i < self@.len(),
        ensures
            r@ == self@[i as int],
    {
        &self.keys[i]
    }

    /// The position of `k`, if it is present.
    pub fn find(&self, k: &Key) -> (r: Option<usize>)
        requires
            self.wf(),
        ensures
            r matches Some(i) ==> i < self@.len() && self@[i as int] == k@,
            r is None ==> !has_key(self@, k@),
    {
        let mut i: usize = 0;
        while i < self.keys.len()
            invariant
                i <= self@.len(),
                self@.len() == self.keys@.len(),
                forall|j: int| 0 <= j < i ==> self@[j] != k@,
            decreases self.keys@.len() - i,
        {
            if self.keys[i].same_as(k) {
                return Some(i);
            }
            i = i + 1;
        }
        None
    }

    /// The position of `k`, appending it first if it is absent; the flag
    /// tells whether it was appended.
    pub fn find_or_push(&mut self, k: &Key) -> (r: (usize, bool))
        requires
            old(self).wf(),
        ensures
            final(self).wf(),
            r.0 < final(self)@.len(),
            final(self)@[r.0 as int] == k@,
            r.1 == !has_key(old(self)@, k@),
            !r.1 ==> *final(self) == *old(self),
            r.1 ==> final(self)@ == old(self)@.push(k@) && r.0 == old(self)@.len(),
    {
        match self.find(k) {
            Some(i) => (i, false),
            None => {
                let n = self.keys.len();
                let c = k.clone_key();
                self.keys.push(c);
                assert(self@ =~= old(self)@.push(k@));
                (n, true)
            },
        }
    }
}

/// Storage of every registered metric: a value for each counter and gauge
/// (a gauge as the bit pattern of its floating-point value) and the buffered
/// samples of each histogram. Entries are created once and never removed.
pub struct Registry {
    counter_keys: KeyList,
    counter_values: Vec<u64>,
    gauge_keys: KeyList,
    gauge_values: Vec<u64>,
    histogram_keys: KeyList,
    histogram_values: Vec<Vec<u64>>,
}

impl Registry {
    pub open spec fn wf(&self) -> bool {
        &&& unique_keys(self.counter_keys())
        &&& unique_keys(self.gauge_keys())
        &&& unique_keys(self.histogram_keys())
        &&& self.counters().len() == self.counter_keys().len()
        &&& self.gauges().len() == self.gauge_keys().len()
        &&& self.histograms().len() == self.histogram_keys().len()
    }

    pub closed spec fn counter_keys(&self) -> Seq<KeyView> {
        self.counter_keys@
    }

    pub closed spec fn counters(&self) -> Seq<u64> {
        self.counter_values@
    }

    pub closed spec fn gauge_keys(&self) -> Seq<KeyView> {
        self.gauge_keys@
    }

    pub closed spec fn gauges(&self) -> Seq<u64> {
        self.gauge_values@
    }

    pub closed spec fn histogram_keys(&self) -> Seq<KeyView> {
        self.histogram_keys@
    }

    pub closed spec fn histograms(&self) -> Seq<Seq<u64>> {
        self.histogram_values@.map_values(|v: Vec<u64>| v@)
    }

    pub fn new() -> (r: Registry)
        ensures
            r.wf(),
            r.counter_keys() == Seq::<KeyView>::empty(),
            r.gauge_keys() == Seq::<KeyView>::empty(),
            r.histogram_keys() == Seq::<KeyView>::empty(),
    {
        Registry {
            counter_keys: KeyList::new(),
            counter_values: Vec::new(),
            gauge_keys: KeyList::new(),
            gauge_values: Vec::new(),
            histogram_keys: KeyList::new(),
            histogram_values: Vec::new(),
        }
    }

    /// The position of the counter under `k`, created with value zero if absent.
    pub fn get_or_create_counter(&mut self, k: &Key) -> (r: usize)
        requires
            old(self).wf(),
        ensures
            final(self).wf(),
            r < final(self).counter_keys().len(),
            final(self).counter_keys()[r as int] == k@,
            has_key(old(self).counter_keys(), k@) ==> *final(self) == *old(self),
            has_key(old(self).counter_keys(), k@) ==> final(self).counter_keys() == old(self).counter_keys() && final(self).counters() == old(self).counters(),
            !has_key(old(self).counter_keys(), k@) ==> final(self).counter_keys() == old(self).counter_keys().push(k@) && final(self).counters() == old(self).counters().push(0),
            final(self).gauge_keys() == old(self).gauge_keys(),
            final(self).gauges() == old(self).gauges(),
            final(self).histogram_keys() == old(self).histogram_keys(),
            final(self).histograms() == old(self).histograms(),
    {
        let (i, added) = self.counter_keys.find_or_push(k);
        if added {
            self.counter_values.push(0);
        }
        i
    }

    /// The position of the gauge under `k`, created as positive zero if absent.
    pub fn get_or_create_gauge(&mut self, k: &Key) -> (r: usize)
        requires
            old(self).wf(),
        ensures
            final(self).wf(),
            r < final(self).gauge_keys().len(),
            final(self).gauge_keys()[r as int] == k@,
            has_key(old(self).gauge_keys(), k@) ==> *final(self) == *old(self),
            has_key(old(self).gauge_keys(), k@) ==> final(self).gauge_keys() == old(self).gauge_keys() && final(self).gauges() == old(self).gauges(),
            !has_key(old(self).gauge_keys(), k@) ==> final(self).gauge_keys() == old(self).gauge_keys().push(k@) && final(self).gauges() == old(self).gauges().push(0),
            final(self).counter_keys() == old(self).counter_keys(),
            final(self).counters() == old(self).counters(),
            final(self).histogram_keys() == old(self).histogram_keys(),
            final(self).histograms() == old(self).histograms(),
    {
        let (i, added) = self.gauge_keys.find_or_push(k);
        if added {
            self.gauge_values.push(0);
        }
        i
    }

    /// The position of the histogram under `k`, created empty if absent.
    pub fn get_or_create_histogram(&mut self, k: &Key) -> (r: usize)
        requires
            old(self).wf(),
        ensures
            final(self).wf(),
            r < final(self).histogram_keys().len(),
            final(self).histogram_keys()[r as int] == k@,
            has_key(old(self).histogram_keys(), k@) ==> *final(self) == *old(self),
            has_key(old(self).histogram_keys(), k@) ==> final(self).histogram_keys() == old(self).histogram_keys() && final(self).histograms() == old(self).histograms(),
            !has_key(old(self).histogram_keys(), k@) ==> final(self).histogram_keys() == old(self).histogram_keys().push(k@) && final(self).histograms() == old(self).histograms().push(Seq::empty()),
            final(self).counter_keys() == old(self).counter_keys(),
            final(self).counters() == old(self).counters(),
            final(self).gauge_keys() == old(self).gauge_keys(),
            final(self).gauges() == old(self).gauges(),
    {
        let (i, added) = self.histogram_keys.find_or_push(k);
        if added {
            self.histogram_values.push(Vec::new());
            assert(self.histograms() =~= old(self).histograms().push(Seq::empty()));
        }
        i
    }

    /// The position of the counter under `k`, if one was registered.
    pub fn find_counter(&self, k: &Key) -> (r: Option<usize>)
        requires
            self.wf(),
        ensures
            r matches Some(i) ==> i < self.counter_keys().len() && self.counter_keys()[i as int]
                == k@,
            r is None ==> !has_key(self.counter_keys(), k@),
    {
        self.counter_keys.find(k)
    }

    /// The position of the gauge under `k`, if one was registered.
    pub fn find_gauge(&self, k: &Key) -> (r: Option<usize>)
        requires
            self.wf(),
        ensures
            r matches Some(i) ==> i < self.gauge_keys().len() && self.gauge_keys()[i as int]
                == k@,
            r is None ==> !has_key(self.gauge_keys(), k@),
    {
        self.gauge_keys.find(k)
    }

    /// The position of the histogram under `k`, if one was registered.
    pub fn find_histogram(&self, k: &Key) -> (r: Option<usize>)
        requires
            self.wf(),
        ensures
            r matches Some(i) ==> i < self.histogram_keys().len() && self.histogram_keys()[i as int]
                == k@,
            r is None ==> !has_key(self.histogram_keys(), k@),
    {
        self.histogram_keys.find(k)
    }

    /// Adds `by` to counter `i`, wrapping around at 2^64 as a fetch-add does.
    pub fn increment_counter(&mut self, i: usize, by: u64)
        requires
            old(self).wf(),
            i < old(self).counter_keys().len(),
        ensures
            final(self).wf(),
            final(self).counters() == old(self).counters().update(
                i as int,
                ((old(self).counters()[i as int] + by) % 0x1_0000_0000_0000_0000) as u64,
            ),
            final(self).counter_keys() == old(self).counter_keys(),
            final(self).gauge_keys() == old(self).gauge_keys(),
            final(self).gauges() == old(self).gauges(),
            final(self).histogram_keys() == old(self).histogram_keys(),
            final(self).histograms() == old(self).histograms(),
    {
        let v = self.counter_values[i].wrapping_add(by);
        self.counter_values.set(i, v);
    }

    /// Replaces the bit pattern of gauge `i`.
    pub fn set_gauge(&mut self, i: usize, bits: u64)
        requires
            old(self).wf(),
            i < old(self).gauge_keys().len(),
        ensures
            final(self).wf(),
            final(self).gauges() == old(self).gauges().update(i as int, bits),
            final(self).counter_keys() == old(self).counter_keys(),
            final(self).counters() == old(self).counters(),
            final(self).gauge_keys() == old(self).gauge_keys(),
            final(self).histogram_keys() == old(self).histogram_keys(),
            final(self).histograms() == old(self).histograms(),
    {
        self.gauge_values.set(i, bits);
    }

    /// Appends one sample, given as a bit pattern, to histogram `i`.
    pub fn record_histogram(&mut self, i: usize, bits: u64)
        requires
            old(self).wf(),
            i < old(self).histogram_keys().len(),
        ensures
            final(self).wf(),
            final(self).histograms() == old(self).histograms().update(
                i as int,
                old(self).histograms()[i as int].push(bits),
            ),
            final(self).counter_keys() == old(self).counter_keys(),
            final(self).counters() == old(self).counters(),
            final(self).gauge_keys() == old(self).gauge_keys(),
            final(self).gauges() == old(self).gauges(),
            final(self).histogram_keys() == old(self).histogram_keys(),
    {
        let mut samples: Vec<u64> = Vec::new();
        std::mem::swap(&mut samples, &mut self.histogram_values[i]);
        samples.push(bits);
        self.histogram_values.set(i, samples);
        assert(self.histograms() =~= old(self).histograms().update(
            i as int,
            old(self).histograms()[i as int].push(bits),
        ));
    }

    pub fn counter(&self, i: usize) -> (r: u64)
        requires
            self.wf(),
            i < self.counter_keys().len(),
        ensures
            r == self.counters()[i as int],
    {
        self.counter_values[i]
    }

    pub fn gauge(&self, i: usize) -> (r: u64)
        requires
            self.wf(),
            i < self.gauge_keys().len(),
        ensures
            r == self.gauges()[i as int],
    {
        self.gauge_values[i]
    }

    /// Takes every buffered sample out of histogram `i`, leaving it empty.
    pub fn drain_histogram(&mut self, i: usize) -> (r: Vec<u64>)
        requires
            old(self).wf(),
            i < old(self).histogram_keys().len(),
        ensures
            final(self).wf(),
            r@ == old(self).histograms()[i as int],
            final(self).histograms() == old(self).histograms().update(i as int, Seq::empty()),
            final(self).counter_keys() == old(self).counter_keys(),
            final(self).counters() == old(self).counters(),
            final(self).gauge_keys() == old(self).gauge_keys(),
            final(self).gauges() == old(self).gauges(),
            final(self).histogram_keys() == old(self).histogram_keys(),
    {
        let mut samples: Vec<u64> = Vec::new();
        std::mem::swap(&mut samples, &mut self.histogram_values[i]);
        assert(self.histograms() =~= old(self).histograms().update(i as int, Seq::empty()));
        samples
    }

    pub fn histogram_count(&self) -> (r: usize)
        requires
            self.wf(),
        ensures
            r == self.histogram_keys().len(),
    {
        self.histogram_keys.len()
    }

    pub fn histogram_key(&self, i: usize) -> (r: &Key)
        requires
            self.wf(),
            i < self.histogram_keys().len(),
        ensures
            r@ == self.histogram_keys()[i as int],
    {
        self.histogram_keys.get(i)
    }

    /// A copy of the samples buffered in histogram `i`.
    pub fn histogram(&self, i: usize) -> (r: Vec<u64>)
        requires
            self.wf(),
            i < self.histogram_keys().len(),
        ensures
            r@ == self.histograms()[i as int],
    {
        let src = &self.histogram_values[i];
        let mut out: Vec<u64> = Vec::new();
        let mut j: usize = 0;
        while j < src.len()
            invariant
                j <= src@.len(),
                out@ == src@.subrange(0, j as int),
            decreases src@.len() - j,
        {
            out.push(src[j]);
            j = j + 1;
            assert(out@ =~= src@.subrange(0, j as int));
        }
        assert(out@ =~= src@);
        out
    }

    pub fn counter_count(&self) -> (r: usize)
        requires
            self.wf(),
        ensures
            r == self.counter_keys().len(),
    {
        self.counter_keys.len()
    }

    pub fn gauge_count(&self) -> (r: usize)
        requires
            self.wf(),
        ensures
            r == self.gauge_keys().len(),
    {
        self.gauge_keys.len()
    }
}

} // verus!
