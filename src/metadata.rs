use vstd::prelude::*;
use indexmap::IndexMap;
use crate::key::{CompositeKey, KeyView, MetricKind, Unit};

verus! {

#[verifier::external_type_specification]
#[verifier::external_body]
#[verifier::reject_recursive_types(K)]
#[verifier::reject_recursive_types(V)]
#[verifier::reject_recursive_types(S)]
pub struct ExIndexMap<K, V, S>(IndexMap<K, V, S>);

/// The unit and description attached to one metric.
pub type Meta = (Option<Unit>, Option<String>);

/// What a `Meta` holds, as plain values.
pub type MetaView = (Option<Unit>, Option<Seq<char>>);

/// A composite key, as plain values.
pub type CompositeKeyView = (MetricKind, KeyView);

pub open spec fn text_of(o: Option<String>) -> Option<Seq<char>> {
    match o {
        Some(s) => Some(s@),
        None => None,
    }
}

pub open spec fn meta_view(m: Meta) -> MetaView {
    (m.0, text_of(m.1))
}

/// The entries of a metadata map, in their order in the map.
pub uninterp spec fn meta_entries(m: IndexMap<CompositeKey, Meta>) -> Seq<(CompositeKeyView, MetaView)>;

/// `k` is the key of an entry of `s`.
pub open spec fn has_meta_key(s: Seq<(CompositeKeyView, MetaView)>, k: CompositeKeyView) -> bool {
    exists|i: int| 0 <= i < s.len() && s[i].0 == k
}

/// No key occurs twice in `s`.
pub open spec fn unique_meta_keys(s: Seq<(CompositeKeyView, MetaView)>) -> bool {
    forall|i: int, j: int| 0 <= i < s.len() && 0 <= j < s.len() && i != j ==> s[i].0 != s[j].0
}

/// Relies on `IndexMap::new`: the new map is empty.
#[verifier::external_body]
fn map_new() -> (r: IndexMap<CompositeKey, Meta>)
    ensures
        meta_entries(r) == Seq::<(CompositeKeyView, MetaView)>::empty(),
{
    IndexMap::new()
}

/// Relies on `IndexMap::len`: the number of entries.
#[verifier::external_body]
fn map_len(m: &IndexMap<CompositeKey, Meta>) -> (r: usize)
    ensures
        r == meta_entries(*m).len(),
{
    m.len()
}

/// Relies on `IndexMap::get_index_of`: the position of the entry whose key
/// equals `k` (the derived `Eq` of a composite key compares its fields).
#[verifier::external_body]
fn map_index_of(m: &IndexMap<CompositeKey, Meta>, k: &CompositeKey) -> (r: Option<usize>)
    ensures
        r matches Some(i) ==> i < meta_entries(*m).len() && meta_entries(*m)[i as int].0 == k@,
        r is None ==> !has_meta_key(meta_entries(*m), k@),
{
    m.get_index_of(k)
}

/// A copy of one entry of a metadata map.
pub fn clone_entry(k: &CompositeKey, v: &Meta) -> (r: (CompositeKey, Meta))
    ensures
        r.0@ == k@,
        meta_view(r.1) == meta_view(*v),
{
    let d = match &v.1 {
        Some(s) => Some(s.clone()),
        None => None,
    };
    (k.clone_key(), (v.0, d))
}

/// Relies on `IndexMap::get_index`: the entry at position `i`, copied.
#[verifier::external_body]
fn map_get_index(m: &IndexMap<CompositeKey, Meta>, i: usize) -> (r: Option<(CompositeKey, Meta)>)
    ensures
        i < meta_entries(*m).len() <==> r is Some,
        r matches Some(e) ==> e.0@ == meta_entries(*m)[i as int].0 && meta_view(e.1)
            == meta_entries(*m)[i as int].1,
{
    m.get_index(i).map(|(k, v)| clone_entry(k, v))
}

/// Relies on `IndexMap::insert`: an existing key keeps its place and takes the
/// new value; a new key is appended last.
#[verifier::external_body]
fn map_insert(m: &mut IndexMap<CompositeKey, Meta>, k: CompositeKey, v: Meta)
    ensures
        forall|i: int|
            0 <= i < meta_entries(*old(m)).len() && meta_entries(*old(m))[i].0 == k@
                ==> meta_entries(*final(m)) == meta_entries(*old(m)).update(i, (k@, meta_view(v))),
        !has_meta_key(meta_entries(*old(m)), k@) ==> meta_entries(*final(m)) == meta_entries(
            *old(m),
        ).push((k@, meta_view(v))),
{
    m.insert(k, v);
}

/// The unit and description of each described metric, in the order in which
/// each was first described.
pub struct MetadataTable {
    map: IndexMap<CompositeKey, Meta>,
}

/// `old` with the entry for `k` updated field by field: a `None` leaves the
/// field as it was, and a new key is appended with the given fields.
pub open spec fn describe_entries(
    old: Seq<(CompositeKeyView, MetaView)>,
    k: CompositeKeyView,
    unit: Option<Unit>,
    description: Option<Seq<char>>,
) -> Seq<(CompositeKeyView, MetaView)> {
    if has_meta_key(old, k) {
        let i = choose|i: int| 0 <= i < old.len() && old[i].0 == k;
        let u = if unit is Some { unit } else { old[i].1.0 };
        let d = if description is Some { description } else { old[i].1.1 };
        old.update(i, (k, (u, d)))
    } else {
        old.push((k, (unit, description)))
    }
}

impl View for MetadataTable {
    type V = Seq<(CompositeKeyView, MetaView)>;

    closed spec fn view(&self) -> Seq<(CompositeKeyView, MetaView)> {
        meta_entries(self.map)
    }
}

impl MetadataTable {
    pub open spec fn wf(&self) -> bool {
        unique_meta_keys(self@)
    }

    pub fn new() -> (r: MetadataTable)
        ensures
            r.wf(),
            r@ == Seq::<(CompositeKeyView, MetaView)>::empty(),
    {
        MetadataTable { map: map_new() }
    }

    pub fn len(&self) -> (r: usize)
        ensures
            r == self@.len(),
    {
        map_len(&self.map)
    }

    pub fn index_of(&self, k: &CompositeKey) -> (r: Option<usize>)
        ensures
            r matches Some(i) ==> i < self@.len() && self@[i as int].0 == k@,
            r is None ==> !has_meta_key(self@, k@),
    {
        map_index_of(&self.map, k)
    }

    pub fn entry(&self, i: usize) -> (r: (CompositeKey, Meta))
        requires
            i < self@.len(),
        ensures
            r.0@ == self@[i as int].0,
            meta_view(r.1) == self@[i as int].1,
    {
        match map_get_index(&self.map, i) {
            Some(e) => e,
            None => {
                assert(false);
                (CompositeKey::new(MetricKind::Counter, crate::key::Key::from_name(String::new())), (None, None))
            }
        }
    }

    /// Records a unit and a description for `k`; each given field replaces
    /// the stored one, and each absent field leaves it as it was.
    pub fn describe(&mut self, k: CompositeKey, unit: Option<Unit>, description: Option<String>)
        requires
            old(self).wf(),
        ensures
            final(self).wf(),
            final(self)@ == describe_entries(old(self)@, k@, unit, text_of(description)),
    {
        let ghost kv = k@;
        match map_index_of(&self.map, &k) {
            Some(i) => {
                let (_, (old_unit, old_desc)) = self.entry(i);
                let u = match unit {
                    Some(x) => Some(x),
                    None => old_unit,
                };
                let d = match description {
                    Some(x) => Some(x),
                    None => old_desc,
                };
                let ghost s = self@;
                map_insert(&mut self.map, k, (u, d));
                proof {
                    let j = choose|j: int| 0 <= j < s.len() && s[j].0 == kv;
                    assert(j == i);
                    assert(self@ =~= describe_entries(s, kv, unit, text_of(description)));
                }
            },
            None => {
                map_insert(&mut self.map, k, (unit, description));
            },
        }
    }
}

} // verus!
