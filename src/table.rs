//! The ordered glyph table: name → glyph, in insertion order.
use ordermap::OrderMap;
use vstd::prelude::*;

verus! {

#[verifier::external_type_specification]
#[verifier::external_body]
#[verifier::reject_recursive_types(K)]
#[verifier::reject_recursive_types(V)]
#[verifier::reject_recursive_types(S)]
pub struct ExOrderMap<K, V, S>(OrderMap<K, V, S>);

/// One glyph: the font family that renders it, its codepoint as upper-case hex
/// text, and, when it came from a vector body, the normalised markup.
#[derive(Clone, Debug)]
pub struct Glyph {
    pub family: String,
    pub codepoint: String,
    pub svg: Option<String>,
}

pub type GlyphModel = (Seq<char>, Seq<char>, Option<Seq<char>>);

pub open spec fn opt_view(o: Option<String>) -> Option<Seq<char>> {
    match o {
        Some(s) => Some(s@),
        None => None,
    }
}

impl Glyph {
    pub open spec fn model(&self) -> GlyphModel {
        (self.family@, self.codepoint@, opt_view(self.svg))
    }
}

/// The entries of an `OrderMap` of glyphs, in the map's order.
pub uninterp spec fn entries_of(m: OrderMap<String, Glyph>) -> Seq<(Seq<char>, GlyphModel)>;

pub open spec fn keys_unique(es: Seq<(Seq<char>, GlyphModel)>) -> bool {
    forall|i: int, j: int|
        0 <= i < es.len() && 0 <= j < es.len() && i != j ==> (#[trigger] es[i]).0 != (#[trigger] es[j]).0
}

pub open spec fn has_key(es: Seq<(Seq<char>, GlyphModel)>, k: Seq<char>) -> bool {
    exists|i: int| 0 <= i < es.len() && (#[trigger] es[i]).0 == k
}

/// The entries after inserting `k ↦ v`: an existing key keeps its place and takes
/// the new value; a new key goes last.
pub open spec fn inserted(es: Seq<(Seq<char>, GlyphModel)>, k: Seq<char>, v: GlyphModel) -> Seq<
    (Seq<char>, GlyphModel),
> {
    if has_key(es, k) {
        let i = choose|i: int| 0 <= i < es.len() && (#[trigger] es[i]).0 == k;
        es.update(i, (k, v))
    } else {
        es.push((k, v))
    }
}

/// The entries after inserting each pair of `kvs` in turn.
pub open spec fn inserted_all(es: Seq<(Seq<char>, GlyphModel)>, kvs: Seq<(Seq<char>, GlyphModel)>) -> Seq<
    (Seq<char>, GlyphModel),
>
    decreases kvs.len(),
{
    if kvs.len() == 0 {
        es
    } else {
        let last = kvs.last();
        inserted(inserted_all(es, kvs.drop_last()), last.0, last.1)
    }
}

/// Relies on `OrderMap::new`: an empty map.
#[verifier::external_body]
fn map_new() -> (r: OrderMap<String, Glyph>)
    ensures
        entries_of(r) == Seq::<(Seq<char>, GlyphModel)>::empty(),
{
    OrderMap::new()
}

/// Relies on `OrderMap::insert`: an equivalent key keeps its place and takes the new
/// value; otherwise the pair is inserted last.
#[verifier::external_body]
fn map_insert(m: &mut OrderMap<String, Glyph>, k: String, v: Glyph)
    ensures
        entries_of(*final(m)) == inserted(entries_of(*old(m)), k@, v.model()),
{
    m.insert(k, v);
}

/// Relies on `OrderMap::iter`: the pairs in the map's order, cloned.
#[verifier::external_body]
fn map_entries(m: &OrderMap<String, Glyph>) -> (r: Vec<(String, Glyph)>)
    ensures
        r@.len() == entries_of(*m).len(),
        forall|i: int|
            0 <= i < r@.len() ==> (#[trigger] r@[i]).0@ == entries_of(*m)[i].0 && r@[i].1.model()
                == entries_of(*m)[i].1,
{
    m.iter().map(|(k, v)| (k.clone(), v.clone())).collect()
}

pub proof fn lemma_inserted_keeps_unique(es: Seq<(Seq<char>, GlyphModel)>, k: Seq<char>, v: GlyphModel)
    requires
        keys_unique(es),
    ensures
        keys_unique(inserted(es, k, v)),
        has_key(inserted(es, k, v), k),
        forall|k2: Seq<char>| has_key(es, k2) ==> has_key(inserted(es, k, v), k2),
{
    if has_key(es, k) {
        let i = choose|i: int| 0 <= i < es.len() && (#[trigger] es[i]).0 == k;
        let r = es.update(i, (k, v));
        assert(r[i].0 == k);
        assert forall|k2: Seq<char>| has_key(es, k2) implies has_key(r, k2) by {
            let j = choose|j: int| 0 <= j < es.len() && (#[trigger] es[j]).0 == k2;
            assert(r[j].0 == k2);
        }
    } else {
        let r = es.push((k, v));
        assert(r[es.len() as int].0 == k);
        assert forall|k2: Seq<char>| has_key(es, k2) implies has_key(r, k2) by {
            let j = choose|j: int| 0 <= j < es.len() && (#[trigger] es[j]).0 == k2;
            assert(r[j].0 == k2);
        }
    }
}

/// Merging never loses a name: after inserting a list of pairs into a table, every
/// name that the table held and every name of the list is present.
pub proof fn lemma_merge_keeps_names(es: Seq<(Seq<char>, GlyphModel)>, kvs: Seq<(Seq<char>, GlyphModel)>)
    requires
        keys_unique(es),
    ensures
        keys_unique(inserted_all(es, kvs)),
        forall|k: Seq<char>| has_key(es, k) ==> has_key(inserted_all(es, kvs), k),
        forall|i: int| 0 <= i < kvs.len() ==> has_key(inserted_all(es, kvs), (#[trigger] kvs[i]).0),
    decreases kvs.len(),
{
    if kvs.len() > 0 {
        let prev = kvs.drop_last();
        lemma_merge_keeps_names(es, prev);
        let mid = inserted_all(es, prev);
        lemma_inserted_keeps_unique(mid, kvs.last().0, kvs.last().1);
        assert forall|i: int| 0 <= i < kvs.len() implies has_key(inserted_all(es, kvs), (#[trigger] kvs[i]).0) by {
            if i < kvs.len() - 1 {
                assert(kvs[i] == prev[i]);
            }
        }
    }
}

/// A glyph table: distinct names, each with its glyph, in insertion order.
pub struct GlyphTable {
    map: OrderMap<String, Glyph>,
}

impl View for GlyphTable {
    type V = Seq<(Seq<char>, GlyphModel)>;

    closed spec fn view(&self) -> Self::V {
        entries_of(self.map)
    }
}

impl GlyphTable {
    pub open spec fn wf(&self) -> bool {
        keys_unique(self@)
    }

    /// An empty table.
    pub fn new() -> (r: GlyphTable)
        ensures
            r@ == Seq::<(Seq<char>, GlyphModel)>::empty(),
            r.wf(),
    {
        GlyphTable { map: map_new() }
    }

    /// Binds `name` to `glyph`; a name already present keeps its place and takes
    /// the new glyph (last insert wins), a new one goes last.
    pub fn insert(&mut self, name: String, glyph: Glyph)
        requires
            old(self).wf(),
        ensures
            final(self)@ == inserted(old(self)@, name@, glyph.model()),
            final(self).wf(),
    {
        proof {
            lemma_inserted_keeps_unique(self@, name@, glyph.model());
        }
        map_insert(&mut self.map, name, glyph);
    }

    /// The entries in order.
    pub fn entries(&self) -> (r: Vec<(String, Glyph)>)
        ensures
            r@.len() == self@.len(),
            forall|i: int|
                0 <= i < r@.len() ==> (#[trigger] r@[i]).0@ == self@[i].0 && r@[i].1.model()
                    == self@[i].1,
    {
        map_entries(&self.map)
    }
}

} // verus!
