use vstd::prelude::*;

verus! {

/// The kind of a metric, fixed when it is declared.
#[derive(Clone, Copy, Debug, PartialEq, Eq, Hash, Structural)]
pub enum MetricKind {
    Counter,
    Gauge,
    Histogram,
}

/// The unit a metric is measured in.
#[derive(Clone, Copy, Debug, PartialEq, Eq, Hash, Structural)]
pub enum Unit {
    Count,
    Percent,
    Seconds,
    Milliseconds,
    Microseconds,
    Nanoseconds,
    Bytes,
    CountPerSecond,
    BytesPerSecond,
}

/// The canonical label of each unit.
pub open spec fn unit_label(u: Unit) -> Seq<char> {
    match u {
        Unit::Count => "count"@,
        Unit::Percent => "percent"@,
        Unit::Seconds => "seconds"@,
        Unit::Milliseconds => "milliseconds"@,
        Unit::Microseconds => "microseconds"@,
        Unit::Nanoseconds => "nanoseconds"@,
        Unit::Bytes => "bytes"@,
        Unit::CountPerSecond => "count_per_second"@,
        Unit::BytesPerSecond => "bytes_per_second"@,
    }
}

impl Unit {
    /// The canonical label of the unit.
    pub fn as_str(&self) -> (r: &'static str)
        ensures
            r@ == unit_label(*self),
    {
        proof {
            reveal_strlit("count");
            reveal_strlit("percent");
            reveal_strlit("seconds");
            reveal_strlit("milliseconds");
            reveal_strlit("microseconds");
            reveal_strlit("nanoseconds");
            reveal_strlit("bytes");
            reveal_strlit("count_per_second");
            reveal_strlit("bytes_per_second");
        }
        match self {
            Unit::Count => "count",
            Unit::Percent => "percent",
            Unit::Seconds => "seconds",
            Unit::Milliseconds => "milliseconds",
            Unit::Microseconds => "microseconds",
            Unit::Nanoseconds => "nanoseconds",
            Unit::Bytes => "bytes",
            Unit::CountPerSecond => "count_per_second",
            Unit::BytesPerSecond => "bytes_per_second",
        }
    }
}

/// One name/value pair that qualifies a metric.
#[derive(Clone, Debug, PartialEq, Eq, Hash)]
pub struct Label {
    pub key: String,
    pub value: String,
}

/// The identity of a metric: a name and an ordered list of labels.
#[derive(Clone, Debug, PartialEq, Eq, Hash)]
pub struct Key {
    pub name: String,
    pub labels: Vec<Label>,
}

/// What a key is, as plain text.
pub struct KeyView {
    pub name: Seq<char>,
    pub labels: Seq<(Seq<char>, Seq<char>)>,
}

impl View for Label {
    type V = (Seq<char>, Seq<char>);

    open spec fn view(&self) -> (Seq<char>, Seq<char>) {
        (self.key@, self.value@)
    }
}

impl View for Key {
    type V = KeyView;

    open spec fn view(&self) -> KeyView {
        KeyView { name: self.name@, labels: self.labels@.map_values(|l: Label| l@) }
    }
}

/// A metric's kind together with its key: distinct kinds under one key are
/// distinct metrics.
#[derive(Clone, Debug, PartialEq, Eq, Hash)]
pub struct CompositeKey {
    pub kind: MetricKind,
    pub key: Key,
}

impl View for CompositeKey {
    type V = (MetricKind, KeyView);

    open spec fn view(&self) -> (MetricKind, KeyView) {
        (self.kind, self.key@)
    }
}

impl Key {
    /// A key with a name and no labels.
    pub fn from_name(name: String) -> (r: Key)
        ensures
            r@ == (KeyView { name: name@, labels: Seq::empty() }),
    {
        let r = Key { name, labels: Vec::new() };
        assert(r@.labels =~= Seq::empty());
        r
    }

    /// A key with a name and the given labels, in order.
    pub fn with_labels(name: String, labels: Vec<Label>) -> (r: Key)
        ensures
            r@ == (KeyView { name: name@, labels: labels@.map_values(|l: Label| l@) }),
    {
        Key { name, labels }
    }

    /// Whether two keys have the same name and the same labels in the same order.
    pub fn same_as(&self, other: &Key) -> (r: bool)
        ensures
            r == (self@ == other@),
    {
        if self.name != other.name {
            return false;
        }
        if self.labels.len() != other.labels.len() {
            assert(self@.labels.len() != other@.labels.len());
            return false;
        }
        let n = self.labels.len();
        let mut i: usize = 0;
        while i < n
            invariant
                n == self.labels@.len(),
                n == other.labels@.len(),
                i <= n,
                forall|j: int| 0 <= j < i ==> self.labels@[j]@ == other.labels@[j]@,
            decreases n - i,
        {
            if self.labels[i].key != other.labels[i].key || self.labels[i].value
                != other.labels[i].value {
                assert(self@.labels[i as int] != other@.labels[i as int]);
                return false;
            }
            i = i + 1;
        }
        assert(self@.labels =~= other@.labels);
        true
    }

    pub fn clone_key(&self) -> (r: Key)
        ensures
            r@ == self@,
    {
        let mut labels: Vec<Label> = Vec::new();
        let mut i: usize = 0;
        while i < self.labels.len()
            invariant
                i <= self.labels@.len(),
                labels@.len() == i,
                forall|j: int| 0 <= j < i ==> labels@[j]@ == self.labels@[j]@,
            decreases self.labels@.len() - i,
        {
            let l = Label { key: self.labels[i].key.clone(), value: self.labels[i].value.clone() };
            labels.push(l);
            i = i + 1;
        }
        let r = Key { name: self.name.clone(), labels };
        assert(r@.labels =~= self@.labels);
        r
    }
}

impl CompositeKey {
    pub fn new(kind: MetricKind, key: Key) -> (r: CompositeKey)
        ensures
            r@ == (kind, key@),
    {
        CompositeKey { kind, key }
    }

    pub fn kind(&self) -> (r: MetricKind)
        ensures
            r == self.kind,
    {
        self.kind
    }

    pub fn key(&self) -> (r: &Key)
        ensures
            r == self.key,
    {
        &self.key
    }

    pub fn clone_key(&self) -> (r: CompositeKey)
        ensures
            r@ == self@,
    {
        CompositeKey { kind: self.kind, key: self.key.clone_key() }
    }
}

} // verus!
