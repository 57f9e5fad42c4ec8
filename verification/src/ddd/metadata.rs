use vstd::prelude::*;

use crate::ddd::constant::{
    CORRELATION_ID_KEY, ENTITY_ID_KEY, ENTITY_NAME_KEY, TRACE_ID_KEY,
    lemma_well_known_keys_distinct,
};
use crate::ddd::entity::{Entity, EntityView};
use crate::ddd::value::{Val, ValView, vview};

verus! {

broadcast use vstd::std_specs::vec::group_vec_axioms;

/// The model of a [`MetaData`]: its entries in insertion order, keys as
/// character sequences and values as structured-value models.
pub type MetaView = Seq<(Seq<char>, ValView)>;

/// Whether some entry carries key `k`.
pub open spec fn has_key(s: MetaView, k: Seq<char>) -> bool {
    exists|i: int| 0 <= i < s.len() && s[i].0 == k
}

/// The index of the entry carrying key `k`; unique when the keys are unique.
pub open spec fn key_at(s: MetaView, k: Seq<char>) -> int {
    choose|i: int| 0 <= i < s.len() && s[i].0 == k
}

/// The value under key `k`; meaningful only when `has_key(s, k)`.
pub open spec fn lookup(s: MetaView, k: Seq<char>) -> ValView {
    s[key_at(s, k)].1
}

/// No two entries carry the same key.
pub open spec fn unique_keys(s: MetaView) -> bool {
    forall|i: int, j: int| 0 <= i < j < s.len() ==> s[i].0 != s[j].0
}

/// Adding under a key that is already present overwrites that entry in
/// place; a new key is appended at the end. The last write for a key wins.
pub open spec fn meta_add(s: MetaView, k: Seq<char>, v: ValView) -> MetaView {
    if has_key(s, k) {
        s.update(key_at(s, k), (k, v))
    } else {
        s.push((k, v))
    }
}

/// The union of the two entry lists: all of `a`, then every entry of `b`
/// added in order, so entries of `b` win on a key collision.
pub open spec fn meta_merge(a: MetaView, b: MetaView) -> MetaView
    decreases b.len(),
{
    if b.len() == 0 {
        a
    } else {
        meta_add(meta_merge(a, b.drop_last()), b.last().0, b.last().1)
    }
}

/// An ordered mapping from string keys to structured values. Keys are
/// unique; insertion order is preserved. A message owns exactly one
/// `MetaData`; correlation providers build new ones.
#[derive(Debug, PartialEq)]
pub struct MetaData {
    entries: Vec<(String, Val)>,
}

/// The model of an entry list: keys and values as their models, in order.
spec fn entries_view(es: Seq<(String, Val)>) -> MetaView {
    Seq::new(es.len(), |i: int| (es[i].0@, vview(es[i].1)))
}

impl View for MetaData {
    type V = MetaView;

    closed spec fn view(&self) -> MetaView {
        entries_view(self.entries@)
    }
}

impl MetaData {
    /// Every `MetaData` keeps its keys unique.
    #[verifier::type_invariant]
    pub open spec fn wf(self) -> bool {
        unique_keys(self@)
    }

    /// An empty `MetaData`.
    pub fn new() -> (r: MetaData)
        ensures
            r@ == Seq::<(Seq<char>, ValView)>::empty(),
    {
        let r = MetaData { entries: Vec::new() };
        proof {
            assert(r@ =~= Seq::<(Seq<char>, ValView)>::empty());
        }
        r
    }

    /// The number of entries.
    pub fn len(&self) -> (r: usize)
        ensures
            r == self@.len(),
    {
        self.entries.len()
    }

    /// The index of the entry under `key`, if one exists.
    fn index_of(&self, key: &str) -> (r: Option<usize>)
        ensures
            match r {
                Some(i) => i < self@.len() && self@[i as int].0 == key@,
                None => !has_key(self@, key@),
            },
    {
        let mut i: usize = 0;
        while i < self.entries.len()
            invariant
                i <= self.entries.len(),
                forall|j: int| 0 <= j < i as int ==> self@[j].0 != key@,
            decreases self.entries.len() - i,
        {
            if crate::ddd::value::str_eq(self.entries[i].0.as_str(), key) {
                return Some(i);
            }
            i = i + 1;
        }
        None
    }

    /// The value under `key`, if one exists.
    pub fn get(&self, key: &str) -> (r: Option<&Val>)
        ensures
            match r {
                Some(v) => has_key(self@, key@) && vview(*v) == lookup(self@, key@),
                None => !has_key(self@, key@),
            },
    {
        proof {
            use_type_invariant(&*self);
        }
        match self.index_of(key) {
            Some(i) => {
                proof {
                    assert(has_key(self@, key@));
                    assert(self@[key_at(self@, key@)].0 == key@);
                    assert(key_at(self@, key@) == i as int);
                }
                Some(&self.entries[i].1)
            },
            None => None,
        }
    }

    /// Whether an entry carries `key`.
    pub fn contains_key(&self, key: &str) -> (r: bool)
        ensures
            r == has_key(self@, key@),
    {
        match self.get(key) {
            Some(_) => true,
            None => false,
        }
    }

    /// Inserts or overwrites the entry under `key`: an existing entry keeps
    /// its place and takes the new value, a new key is appended at the end.
    pub fn add(&mut self, key: String, value: Val)
        ensures
            final(self)@ == meta_add(old(self)@, key@, vview(value)),
    {
        proof {
            use_type_invariant(&*self);
        }
        let ghost before = self@;
        let found = self.index_of(key.as_str());
        let mut entries: Vec<(String, Val)> = Vec::new();
        core::mem::swap(&mut self.entries, &mut entries);
        match found {
            Some(i) => {
                proof {
                    assert(has_key(before, key@));
                    assert(before[key_at(before, key@)].0 == key@);
                    assert(key_at(before, key@) == i as int);
                }
                entries.set(i, (key, value));
                proof {
                    assert(entries_view(entries@) =~= before.update(
                        key_at(before, key@),
                        (key@, vview(value)),
                    ));
                }
            },
            None => {
                entries.push((key, value));
                proof {
                    assert(entries_view(entries@) =~= before.push((key@, vview(value))));
                    assert forall|i: int, j: int|
                        0 <= i < j < entries_view(entries@).len() implies entries_view(
                        entries@,
                    )[i].0 != entries_view(entries@)[j].0 by {
                        if j == entries_view(entries@).len() - 1 {
                            assert(entries_view(entries@)[i] == before[i]);
                        } else {
                            assert(entries_view(entries@)[i] == before[i]);
                            assert(entries_view(entries@)[j] == before[j]);
                        }
                    }
                }
            },
        }
        self.entries = entries;
    }

    /// Adds every entry of `other`, in order, into this `MetaData`; entries
    /// of `other` win on a key collision.
    pub fn merge(&mut self, other: &MetaData)
        ensures
            final(self)@ == meta_merge(old(self)@, other@),
    {
        let mut i: usize = 0;
        while i < other.entries.len()
            invariant
                i <= other.entries.len(),
                self@ == meta_merge(old(self)@, other@.take(i as int)),
            decreases other.entries.len() - i,
        {
            let key = other.entries[i].0.clone();
            let value = other.entries[i].1.dup();
            proof {
                assert(other@[i as int] == (key@, vview(value)));
            }
            self.add(key, value);
            proof {
                assert(other@.take(i as int + 1).drop_last() =~= other@.take(i as int));
                assert(other@.take(i as int + 1).last() == other@[i as int]);
            }
            i = i + 1;
        }
        proof {
            assert(other@.take(other@.len() as int) =~= other@);
        }
    }

    /// A copy of this `MetaData`; the copy has the same entries.
    pub fn dup(&self) -> (r: MetaData)
        ensures
            r@ == self@,
    {
        proof {
            use_type_invariant(&*self);
        }
        let mut out: Vec<(String, Val)> = Vec::new();
        let mut i: usize = 0;
        while i < self.entries.len()
            invariant
                i <= self.entries.len(),
                out@.len() == i as int,
                forall|j: int| 0 <= j < i as int ==> out@[j].0@ == self.entries@[j].0@ && vview(
                    out@[j].1,
                ) == vview(self.entries@[j].1),
            decreases self.entries.len() - i,
        {
            let key = self.entries[i].0.clone();
            let value = self.entries[i].1.dup();
            out.push((key, value));
            i = i + 1;
        }
        proof {
            assert(entries_view(out@) =~= self@);
        }
        MetaData { entries: out }
    }
}

/// Merging keeps keys unique.
pub proof fn lemma_meta_merge_unique(a: MetaView, b: MetaView)
    requires
        unique_keys(a),
    ensures
        unique_keys(meta_merge(a, b)),
    decreases b.len(),
{
    if b.len() > 0 {
        lemma_meta_merge_unique(a, b.drop_last());
        lemma_meta_add_properties(meta_merge(a, b.drop_last()), b.last().0, b.last().1);
    }
}

/// The merge rule, as callers composing providers rely on it: the merge
/// carries the union of the two key sets, and on a key collision the later
/// operand wins — a key of `b` carries `b`'s value, a key only in `a`
/// carries `a`'s value.
pub proof fn lemma_meta_merge_keys(a: MetaView, b: MetaView)
    requires
        unique_keys(a),
        unique_keys(b),
    ensures
        forall|k: Seq<char>|
            #[trigger] has_key(meta_merge(a, b), k) <==> (has_key(a, k) || has_key(b, k)),
        forall|k: Seq<char>|
            #[trigger] has_key(b, k) ==> lookup(meta_merge(a, b), k) == lookup(b, k),
        forall|k: Seq<char>|
            !has_key(b, k) && #[trigger] has_key(a, k) ==> lookup(meta_merge(a, b), k) == lookup(
                a,
                k,
            ),
    decreases b.len(),
{
    let r = meta_merge(a, b);
    if b.len() == 0 {
        assert(forall|k: Seq<char>| !has_key(b, k));
    } else {
        let rest = b.drop_last();
        let k0 = b.last().0;
        let v0 = b.last().1;
        assert(unique_keys(rest)) by {
            assert(forall|i: int| 0 <= i < rest.len() ==> rest[i] == b[i]);
        }
        lemma_meta_merge_keys(a, rest);
        lemma_meta_merge_unique(a, rest);
        let m1 = meta_merge(a, rest);
        lemma_meta_add_properties(m1, k0, v0);
        assert(has_key(b, k0)) by {
            assert(b[b.len() - 1].0 == k0);
        }
        assert(!has_key(rest, k0)) by {
            if has_key(rest, k0) {
                let j = choose|j: int| 0 <= j < rest.len() && rest[j].0 == k0;
                assert(b[j].0 == b[b.len() - 1].0);
            }
        }
        assert(lookup(b, k0) == v0) by {
            assert(b[key_at(b, k0)].0 == k0);
            assert(key_at(b, k0) == b.len() - 1);
        }
        assert forall|k: Seq<char>| k != k0 implies (#[trigger] has_key(b, k) <==> has_key(
            rest,
            k,
        )) by {
            if has_key(b, k) {
                let j = choose|j: int| 0 <= j < b.len() && b[j].0 == k;
                assert(j != b.len() - 1);
                assert(rest[j].0 == k);
            }
            if has_key(rest, k) {
                let j = choose|j: int| 0 <= j < rest.len() && rest[j].0 == k;
                assert(b[j].0 == k);
            }
        }
        assert forall|k: Seq<char>| k != k0 && has_key(rest, k) implies lookup(b, k) == lookup(
            rest,
            k,
        ) by {
            let j = key_at(rest, k);
            assert(0 <= j < rest.len() && rest[j].0 == k);
            assert(b[j].0 == k);
            assert(b[key_at(b, k)].0 == k);
            assert(key_at(b, k) == j);
        }
        assert forall|k: Seq<char>| #[trigger] has_key(b, k) implies lookup(r, k) == lookup(
            b,
            k,
        ) by {
            if k != k0 {
                assert(has_key(rest, k));
                assert(lookup(r, k) == lookup(m1, k));
            }
        }
        assert forall|k: Seq<char>| #[trigger] has_key(r, k) implies (has_key(a, k) || has_key(
            b,
            k,
        )) by {
            if k != k0 {
                assert(has_key(m1, k));
                assert(has_key(b, k) <==> has_key(rest, k));
            }
        }
        assert forall|k: Seq<char>| has_key(a, k) || has_key(b, k) implies #[trigger] has_key(
            r,
            k,
        ) by {
            if k != k0 {
                assert(has_key(b, k) <==> has_key(rest, k));
                assert(has_key(m1, k) <==> (has_key(a, k) || has_key(rest, k)));
            }
        }
    }
}

/// A metadata carrier rendered as a structured value: an object with one
/// field per entry, in insertion order.
pub open spec fn metadata_value_view(m: MetaView) -> ValView {
    ValView::Obj(m)
}

/// The metadata a structured value stands for: an object whose field names
/// are unique. Duplicate field names do not stand for any metadata.
pub open spec fn metadata_of_value(v: ValView) -> Option<MetaView> {
    match v {
        ValView::Obj(o) => if unique_keys(o) {
            Some(o)
        } else {
            None
        },
        _ => None,
    }
}

/// Decoding an encoded metadata carrier gives the entries back: the
/// structured-value rendering loses nothing.
pub proof fn lemma_metadata_value_round_trip(m: MetaView)
    requires
        unique_keys(m),
    ensures
        metadata_of_value(metadata_value_view(m)) == Some(m),
{
}

impl MetaData {
    /// The metadata as a structured value, in the shape of
    /// [`metadata_value_view`].
    pub fn to_value(&self) -> (r: Val)
        ensures
            r@ == metadata_value_view(self@),
    {
        let mut out: Vec<(String, Val)> = Vec::new();
        let mut i: usize = 0;
        while i < self.entries.len()
            invariant
                i <= self.entries.len(),
                out@.len() == i as int,
                forall|j: int| 0 <= j < i as int ==> out@[j].0@ == self.entries@[j].0@ && vview(
                    out@[j].1,
                ) == vview(self.entries@[j].1),
            decreases self.entries.len() - i,
        {
            let key = self.entries[i].0.clone();
            let value = self.entries[i].1.dup();
            out.push((key, value));
            i = i + 1;
        }
        let r = Val::Obj(out);
        proof {
            assert(vview(r)->Obj_0 =~~= self@);
        }
        r
    }

    /// The metadata a structured value stands for, or `None` when the value
    /// is not an object or a field name repeats.
    #[verifier::loop_isolation(false)]
    pub fn from_value(v: &Val) -> (r: Option<MetaData>)
        ensures
            match r {
                Some(m) => metadata_of_value(v@) == Some(m@),
                None => metadata_of_value(v@) is None,
            },
    {
        match v {
            Val::Obj(fields) => {
                let ghost o = v@->Obj_0;
                proof {
                    assert(o =~= entries_view(fields@));
                }
                let mut i: usize = 0;
                while i < fields.len()
                    invariant
                        i <= fields.len(),
                        o == entries_view(fields@),
                        forall|p: int, q: int|
                            0 <= p < q < o.len() && p < i as int ==> o[p].0 != o[q].0,
                    decreases fields.len() - i,
                {
                    let mut j: usize = i + 1;
                    while j < fields.len()
                        invariant
                            i < j <= fields.len(),
                            i < fields.len(),
                            o == entries_view(fields@),
                            forall|q: int| (i as int) < q < (j as int) ==> o[i as int].0 != o[q].0,
                        decreases fields.len() - j,
                    {
                        if crate::ddd::value::str_eq(
                            fields[i].0.as_str(),
                            fields[j].0.as_str(),
                        ) {
                            proof {
                                assert(o[i as int].0 == o[j as int].0);
                                assert(!unique_keys(o));
                            }
                            return None;
                        }
                        j = j + 1;
                    }
                    i = i + 1;
                }
                proof {
                    assert(unique_keys(o));
                }
                let mut out: Vec<(String, Val)> = Vec::new();
                let mut k: usize = 0;
                while k < fields.len()
                    invariant
                        k <= fields.len(),
                        out@.len() == k as int,
                        forall|j: int| 0 <= j < k as int ==> out@[j].0@ == fields@[j].0@ && vview(
                            out@[j].1,
                        ) == vview(fields@[j].1),
                    decreases fields.len() - k,
                {
                    let key = fields[k].0.clone();
                    let value = fields[k].1.dup();
                    out.push((key, value));
                    k = k + 1;
                }
                proof {
                    assert(entries_view(out@) =~= o);
                }
                Some(MetaData { entries: out })
            },
            _ => None,
        }
    }
}

impl Clone for MetaData {
    /// The copy has the same entries.
    fn clone(&self) -> (r: MetaData)
        ensures
            r@ == self@,
    {
        self.dup()
    }
}

/// The metadata derived from an entity under the entity keys.
pub open spec fn entity_metadata_view(e: EntityView) -> MetaView {
    seq![(ENTITY_ID_KEY@, ValView::Str(e.id)), (ENTITY_NAME_KEY@, ValView::Str(e.name))]
}

/// The metadata derived from an entity under the correlation keys, used
/// when a message roots a new causal chain.
pub open spec fn correlation_metadata_view(e: EntityView) -> MetaView {
    seq![(CORRELATION_ID_KEY@, ValView::Str(e.id)), (TRACE_ID_KEY@, ValView::Str(e.id))]
}

impl Entity {
    /// A `MetaData` carrying this entity's id and name under the well-known
    /// entity keys.
    pub fn as_metadata(&self) -> (r: MetaData)
        ensures
            r@ == entity_metadata_view(self@),
    {
        let mut r = MetaData::new();
        r.add(ENTITY_ID_KEY.to_owned(), Val::Str(self.id()));
        r.add(ENTITY_NAME_KEY.to_owned(), Val::Str(self.name()));
        proof {
            lemma_well_known_keys_distinct();
            assert(r@ =~= entity_metadata_view(self@));
        }
        r
    }

    /// A `MetaData` carrying this entity's id under both the correlation
    /// and the trace key, rooting a new causal chain at this entity.
    pub fn as_correlation_metadata(&self) -> (r: MetaData)
        ensures
            r@ == correlation_metadata_view(self@),
    {
        let mut r = MetaData::new();
        r.add(CORRELATION_ID_KEY.to_owned(), Val::Str(self.id()));
        r.add(TRACE_ID_KEY.to_owned(), Val::Str(self.id()));
        proof {
            lemma_well_known_keys_distinct();
            assert(r@ =~= correlation_metadata_view(self@));
        }
        r
    }
}

/// Adding a key twice leaves exactly one entry for it, carrying the value
/// of the second add: the overwrite keeps keys unique and the last write
/// wins.
pub proof fn lemma_add_overwrites(m: MetaView, k: Seq<char>, v: ValView, v2: ValView)
    requires
        unique_keys(m),
    ensures
        unique_keys(meta_add(meta_add(m, k, v), k, v2)),
        has_key(meta_add(meta_add(m, k, v), k, v2), k),
        lookup(meta_add(meta_add(m, k, v), k, v2), k) == v2,
        forall|i: int|
            0 <= i < meta_add(meta_add(m, k, v), k, v2).len() && meta_add(
                meta_add(m, k, v),
                k,
                v2,
            )[i].0 == k ==> meta_add(meta_add(m, k, v), k, v2)[i] == (k, v2),
{
    let m1 = meta_add(m, k, v);
    let m2 = meta_add(m1, k, v2);
    lemma_meta_add_properties(m, k, v);
    lemma_meta_add_properties(m1, k, v2);
}

/// What one `meta_add` does: the keys stay unique, the key is present
/// afterwards with the given value, every other entry is untouched, and no
/// other key appears.
pub proof fn lemma_meta_add_properties(m: MetaView, k: Seq<char>, v: ValView)
    requires
        unique_keys(m),
    ensures
        unique_keys(meta_add(m, k, v)),
        has_key(meta_add(m, k, v), k),
        lookup(meta_add(m, k, v), k) == v,
        forall|i: int|
            0 <= i < meta_add(m, k, v).len() && meta_add(m, k, v)[i].0 == k ==> meta_add(m, k, v)[i]
                == (k, v),
        forall|k2: Seq<char>| k2 != k ==> (has_key(meta_add(m, k, v), k2) <==> has_key(m, k2)),
        forall|k2: Seq<char>|
            k2 != k && has_key(m, k2) ==> lookup(meta_add(m, k, v), k2) == lookup(m, k2),
{
    let r = meta_add(m, k, v);
    if has_key(m, k) {
        let i = key_at(m, k);
        assert(0 <= i < m.len() && m[i].0 == k);
        assert(r =~= m.update(i, (k, v)));
        assert(r[i] == (k, v));
        assert(has_key(r, k));
        assert(r[key_at(r, k)].0 == k);
        assert(key_at(r, k) == i);
        assert forall|k2: Seq<char>| k2 != k && has_key(m, k2) implies has_key(r, k2) && lookup(
            r,
            k2,
        ) == lookup(m, k2) by {
            let j = key_at(m, k2);
            assert(0 <= j < m.len() && m[j].0 == k2);
            assert(j != i);
            assert(r[j] == m[j]);
            assert(has_key(r, k2));
            assert(r[key_at(r, k2)].0 == k2);
            assert(key_at(r, k2) == j);
        }
        assert forall|k2: Seq<char>| k2 != k && has_key(r, k2) implies has_key(m, k2) by {
            let j = key_at(r, k2);
            assert(0 <= j < r.len() && r[j].0 == k2);
            assert(j != i);
            assert(m[j] == r[j]);
        }
    } else {
        assert(r =~= m.push((k, v)));
        let n = m.len() as int;
        assert(r[n] == (k, v));
        assert(has_key(r, k));
        assert forall|i: int, j: int| 0 <= i < j < r.len() implies r[i].0 != r[j].0 by {
            if j == n {
                assert(r[i] == m[i]);
            } else {
                assert(r[i] == m[i] && r[j] == m[j]);
            }
        }
        assert(r[key_at(r, k)].0 == k);
        assert(key_at(r, k) == n);
        assert forall|k2: Seq<char>| k2 != k && has_key(m, k2) implies has_key(r, k2) && lookup(
            r,
            k2,
        ) == lookup(m, k2) by {
            let j = key_at(m, k2);
            assert(0 <= j < m.len() && m[j].0 == k2);
            assert(r[j] == m[j]);
            assert(has_key(r, k2));
            assert(r[key_at(r, k2)].0 == k2);
            assert(key_at(r, k2) == j);
        }
        assert forall|k2: Seq<char>| k2 != k && has_key(r, k2) implies has_key(m, k2) by {
            let j = key_at(r, k2);
            assert(0 <= j < r.len() && r[j].0 == k2);
            assert(j != n);
            assert(m[j] == r[j]);
        }
    }
}

} // verus!
