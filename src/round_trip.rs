//! Regular values: the values that come back unchanged from encoding,
//! decoding and normalization.
use vstd::prelude::*;
use crate::value::{Json, text_key, is_attr_key, is_text_only, normalize_model};
use crate::xml::{ElementModel, NodeModel};
use crate::document::{parsed_tree, emitted_text};
use crate::encode::{encode_model, attrs_of, children_of, entry_children};
use crate::decode::{
    decode_model, fold_children, attr_entries, attr_key_of, add_child, has_key, key_pos,
    keys_unique,
};

verus! {

/// A regular object: not empty, keys unique, attributes before every other
/// entry, not made of the text entry alone, and every entry regular.
pub open spec fn regular_object(m: Seq<(Seq<char>, Json)>) -> bool
    decreases m,
{
    &&& m.len() > 0
    &&& keys_unique(m)
    &&& !is_text_only(m)
    &&& forall|i: int, j: int|
        0 <= i < j < m.len() && is_attr_key(#[trigger] m[j].0) ==> is_attr_key(#[trigger] m[i].0)
    &&& forall|i: int| 0 <= i < m.len() ==> regular_entry(m[i].0, #[trigger] m[i].1)
}

/// A regular entry: an attribute or the text holds a string; any other key
/// holds a string, a regular object, or an array of two or more regular
/// objects.
pub open spec fn regular_entry(k: Seq<char>, v: Json) -> bool
    decreases v,
{
    if is_attr_key(k) || k == text_key() {
        v is Str
    } else {
        match v {
            Json::Str(_) => true,
            Json::Object(m) => regular_object(m),
            Json::Array(a) => a.len() >= 2 && forall|i: int|
                0 <= i < a.len() ==> (#[trigger] a[i] is Object && regular_object(a[i]->Object_0)),
            _ => false,
        }
    }
}


/// The number of leading attribute entries, where attributes come first.
proof fn attr_split(m: Seq<(Seq<char>, Json)>) -> (p: int)
    requires
        forall|i: int, j: int|
            0 <= i < j < m.len() && is_attr_key(#[trigger] m[j].0) ==> is_attr_key(#[trigger] m[i].0),
    ensures
        0 <= p <= m.len(),
        forall|i: int| 0 <= i < p ==> is_attr_key(#[trigger] m[i].0),
        forall|i: int| p <= i < m.len() ==> !is_attr_key(#[trigger] m[i].0),
    decreases m.len(),
{
    if m.len() == 0 {
        0
    } else if is_attr_key(m.last().0) {
        assert forall|i: int| 0 <= i < m.len() implies is_attr_key(#[trigger] m[i].0) by {
            if i < m.len() - 1 {
                assert(is_attr_key(m[m.len() - 1].0));
            }
        }
        m.len() as int
    } else {
        let q = attr_split(m.drop_last());
        assert forall|i: int| 0 <= i < q implies is_attr_key(#[trigger] m[i].0) by {
            assert(m.drop_last()[i] == m[i]);
        }
        assert forall|i: int| q <= i < m.len() implies !is_attr_key(#[trigger] m[i].0) by {
            if i < m.len() - 1 {
                assert(m.drop_last()[i] == m[i]);
            }
        }
        q
    }
}

/// Folding children in two runs is folding them in one.
proof fn lemma_fold_concat(d: Seq<(Seq<char>, Json)>, a: Seq<NodeModel>, b: Seq<NodeModel>)
    ensures
        fold_children(d, a + b) == fold_children(fold_children(d, a), b),
    decreases b.len(),
{
    if b.len() == 0 {
        assert(a + b =~= a);
    } else {
        assert((a + b).drop_last() =~= a + b.drop_last());
        assert((a + b).last() == b.last());
        lemma_fold_concat(d, a, b.drop_last());
    }
}

/// The decoded form of one regular entry that is not an attribute.
pub open spec fn decoded_entry(k: Seq<char>, v: Json) -> Json {
    if k == text_key() {
        v
    } else {
        match v {
            Json::Str(s) => Json::Object(seq![(text_key(), Json::Str(s))]),
            Json::Array(a) => Json::Array(
                Seq::new(a.len(), |t: int| decode_model(encode_model(a[t], k))),
            ),
            _ => decode_model(encode_model(v, k)),
        }
    }
}

/// The entries that decoding gives back for the first `j` entries of `m`,
/// whose first `p` are attributes.
pub open spec fn decoded_prefix(m: Seq<(Seq<char>, Json)>, p: int, j: int) -> Seq<(Seq<char>, Json)> {
    Seq::new(j as nat, |i: int| (m[i].0, if i < p { m[i].1 } else { decoded_entry(m[i].0, m[i].1) }))
}

/// Decoding never gives an array.
proof fn lemma_decode_not_array(e: ElementModel)
    ensures
        !(decode_model(e) is Array),
{
}

/// Folding the elements of an array under a new key gives its first
/// decoded item alone, then an array of all of them.
proof fn lemma_fold_array(d: Seq<(Seq<char>, Json)>, k: Seq<char>, a: Seq<Json>, t: int)
    requires
        0 <= t <= a.len(),
        !has_key(d, k),
    ensures
        fold_children(d, Seq::new(t as nat, |i: int| NodeModel::Element(encode_model(a[i], k)))) == if t == 0 {
            d
        } else if t == 1 {
            d.push((k, decode_model(encode_model(a[0], k))))
        } else {
            d.push((k, Json::Array(Seq::new(t as nat, |i: int| decode_model(encode_model(a[i], k))))))
        },
    decreases t,
{
    let cs = Seq::new(t as nat, |i: int| NodeModel::Element(encode_model(a[i], k)));
    if t == 0 {
    } else {
        let prev = Seq::new((t - 1) as nat, |i: int| NodeModel::Element(encode_model(a[i], k)));
        assert(cs.drop_last() =~= prev);
        lemma_fold_array(d, k, a, t - 1);
        let e = encode_model(a[t - 1], k);
        assert(cs.last() == NodeModel::Element(e));
        assert(e.name == k) by {
            match a[t - 1] {
                Json::Object(_) => {},
                _ => {},
            }
        }
        let f = fold_children(d, prev);
        if t == 1 {
            assert(prev =~= seq![]);
        } else {
            let dk = d.len() as int;
            assert(f[dk].0 == k);
            assert(has_key(f, k));
            assert forall|j: int| 0 <= j < f.len() && f[j].0 == k implies j == dk by {
                if j < dk {
                    assert(f[j] == d[j]);
                }
            }
            assert(key_pos(f, k) == dk);
            let items = Seq::new(t as nat, |i: int| decode_model(encode_model(a[i], k)));
            assert(fold_children(d, cs) == add_child(f, k, decode_model(e)));
            if t == 2 {
                lemma_decode_not_array(encode_model(a[0], k));
                assert(f[dk].1 == decode_model(encode_model(a[0], k)));
                assert(seq![decode_model(encode_model(a[0], k)), decode_model(e)] =~= items);
            } else {
                let before = Seq::new((t - 1) as nat, |i: int| decode_model(encode_model(a[i], k)));
                assert(f[dk].1 == Json::Array(before));
                assert(before.push(decode_model(e)) =~= items);
            }
            assert(fold_children(d, cs) =~= d.push((k, Json::Array(items))));
        }
    }
}


/// A key that no entry of the first `j` entries has.
proof fn lemma_fresh_key(m: Seq<(Seq<char>, Json)>, d: Seq<(Seq<char>, Json)>, j: int)
    requires
        keys_unique(m),
        0 <= j < m.len(),
        d.len() == j,
        forall|i: int| 0 <= i < j ==> (#[trigger] d[i]).0 == m[i].0,
    ensures
        !has_key(d, m[j].0),
{
    assert forall|i: int| 0 <= i < d.len() implies (#[trigger] d[i]).0 != m[j].0 by {
        assert(m[i].0 == d[i].0);
    }
}

/// The attribute entries come back as they were, and give no children.
proof fn lemma_attr_phase(m: Seq<(Seq<char>, Json)>, p: int, j: int)
    requires
        keys_unique(m),
        0 <= j <= p <= m.len(),
        forall|i: int| 0 <= i < p ==> is_attr_key(#[trigger] m[i].0) && m[i].1 is Str,
    ensures
        attr_entries(attrs_of(m.take(j))) == m.take(j),
        children_of(m.take(j)) == Seq::<NodeModel>::empty(),
    decreases j,
{
    if j == 0 {
        assert(m.take(0) =~= seq![]);
        assert(attrs_of(m.take(0)) =~= seq![]);
        assert(attr_entries(seq![]) =~= seq![]);
    } else {
        lemma_attr_phase(m, p, j - 1);
        let mj = m.take(j);
        assert(mj.drop_last() =~= m.take(j - 1));
        assert(mj.last() == m[j - 1]);
        let k = m[j - 1].0;
        let sv = m[j - 1].1->Str_0;
        let x = attrs_of(m.take(j - 1));
        assert(attrs_of(mj) == x.push((k.drop_first(), sv)));
        assert(x.push((k.drop_first(), sv)).drop_last() =~= x);
        assert(attr_key_of(k.drop_first()) =~= k);
        lemma_fresh_key(m, m.take(j - 1), j - 1);
        assert(attr_entries(attrs_of(mj)) =~= m.take(j));
        assert(is_attr_key(k));
        assert(entry_children(k, m[j - 1].1) == Seq::<NodeModel>::empty());
        assert(children_of(mj) == children_of(m.take(j - 1)) + entry_children(k, m[j - 1].1));
        assert(children_of(mj) =~= Seq::<NodeModel>::empty());
    }
}

/// A child element holding only text decodes to an object of the text
/// entry alone.
proof fn lemma_text_leaf(k: Seq<char>, s: Seq<char>)
    ensures
        decode_model(ElementModel { name: k, attributes: seq![], children: seq![NodeModel::Text(s)] })
            == Json::Object(seq![(text_key(), Json::Str(s))]),
{
    let cs = seq![NodeModel::Text(s)];
    let empty: Seq<(Seq<char>, Json)> = seq![];
    assert(attr_entries(seq![]) =~= empty);
    assert(cs.drop_last() =~= seq![]);
    assert(fold_children(empty, cs.drop_last()) == empty);
    assert(!has_key(empty, text_key()));
    assert(fold_children(empty, cs) =~= seq![(text_key(), Json::Str(s))]);
}

/// The other entries come back in their decoded forms, in order.
proof fn lemma_child_phase(m: Seq<(Seq<char>, Json)>, p: int, j: int)
    requires
        keys_unique(m),
        0 <= p <= j <= m.len(),
        forall|i: int| 0 <= i < p ==> is_attr_key(#[trigger] m[i].0) && m[i].1 is Str,
        forall|i: int| p <= i < m.len() ==> !is_attr_key(#[trigger] m[i].0),
        forall|i: int| 0 <= i < m.len() ==> regular_entry(m[i].0, #[trigger] m[i].1),
    ensures
        attrs_of(m.take(j)) == attrs_of(m.take(p)),
        fold_children(m.take(p), children_of(m.take(j))) == decoded_prefix(m, p, j),
    decreases j,
{
    if j == p {
        lemma_attr_phase(m, p, p);
        assert(decoded_prefix(m, p, p) =~= m.take(p));
    } else {
        lemma_child_phase(m, p, j - 1);
        let mj = m.take(j);
        assert(mj.drop_last() =~= m.take(j - 1));
        assert(mj.last() == m[j - 1]);
        let k = m[j - 1].0;
        let v = m[j - 1].1;
        let d = decoded_prefix(m, p, j - 1);
        let before = children_of(m.take(j - 1));
        assert(children_of(mj) == before + entry_children(k, v));
        lemma_fold_concat(m.take(p), before, entry_children(k, v));
        lemma_fresh_key(m, d, j - 1);
        assert(regular_entry(k, v));
        let want = decoded_prefix(m, p, j);
        assert(d.push((k, decoded_entry(k, v))) =~= want);
        if k == text_key() {
            let cs = entry_children(k, v);
            assert(cs.drop_last() =~= seq![]);
            assert(fold_children(d, cs.drop_last()) == d);
        } else {
            match v {
                Json::Str(s) => {
                    let cs = entry_children(k, v);
                    assert(cs.drop_last() =~= seq![]);
                    assert(fold_children(d, cs.drop_last()) == d);
                    lemma_text_leaf(k, s);
                },
                Json::Object(m2) => {
                    let cs = entry_children(k, v);
                    assert(cs.drop_last() =~= seq![]);
                    assert(fold_children(d, cs.drop_last()) == d);
                },
                Json::Array(a) => {
                    lemma_fold_array(d, k, a, a.len() as int);
                    assert(entry_children(k, v) =~= Seq::new(
                        a.len(),
                        |i: int| NodeModel::Element(encode_model(a[i], k)),
                    ));
                },
                _ => {},
            }
        }
    }
}

/// Round trip: a regular object, encoded under any tag, then decoded and
/// normalized, is the object it was.
pub proof fn lemma_round_trip(m: Seq<(Seq<char>, Json)>, tag: Seq<char>)
    requires
        regular_object(m),
    ensures
        normalize_model(decode_model(encode_model(Json::Object(m), tag))) == Json::Object(m),
    decreases m,
{
    let n = m.len() as int;
    let p = attr_split(m);
    assert forall|i: int| 0 <= i < p implies is_attr_key(#[trigger] m[i].0) && m[i].1 is Str by {
        assert(regular_entry(m[i].0, m[i].1));
    }
    lemma_attr_phase(m, p, p);
    lemma_child_phase(m, p, n);
    assert(m.take(n) =~= m);
    let d = decoded_prefix(m, p, n);
    assert(decode_model(encode_model(Json::Object(m), tag)) == Json::Object(d));
    assert(d[0].0 == m[0].0);
    assert(!is_text_only(d));
    assert forall|i: int| 0 <= i < n implies normalize_model(#[trigger] d[i].1) == m[i].1 by {
        let k = m[i].0;
        let v = m[i].1;
        assert(regular_entry(k, v));
        assert(d[i].1 == (if i < p { v } else { decoded_entry(k, v) }));
        if i < p || k == text_key() {
            assert(v is Str);
            assert(d[i].1 == v);
        } else {
            match v {
                Json::Str(s) => {
                    assert(is_text_only(seq![(text_key(), Json::Str(s))]));
                    assert(d[i].1 == Json::Object(seq![(text_key(), Json::Str(s))]));
                },
                Json::Object(m2) => {
                    lemma_round_trip(m2, k);
                    assert(d[i].1 == decode_model(encode_model(v, k)));
                },
                Json::Array(a) => {
                    let ds = Seq::new(a.len(), |t: int| decode_model(encode_model(a[t], k)));
                    assert forall|t: int| 0 <= t < a.len() implies normalize_model(#[trigger] ds[t]) == a[t] by {
                        lemma_round_trip(a[t]->Object_0, k);
                    }
                    assert(normalize_model(Json::Array(ds))->Array_0 =~= a);
                },
                _ => {},
            }
        }
    }
    assert(normalize_model(Json::Object(d))->Object_0 =~= m);
}


/// Round trip through text: where the parser reads back the tree that the
/// emitter wrote, a regular object written out under any tag and read back
/// is the object it was.
pub proof fn lemma_text_round_trip(m: Seq<(Seq<char>, Json)>, tag: Seq<char>)
    requires
        regular_object(m),
        emitted_text(encode_model(Json::Object(m), tag)) is Some,
        parsed_tree(emitted_text(encode_model(Json::Object(m), tag))->0) == Some(
            encode_model(Json::Object(m), tag),
        ),
    ensures
        normalize_model(
            decode_model(parsed_tree(emitted_text(encode_model(Json::Object(m), tag))->0)->0),
        ) == Json::Object(m),
{
    lemma_round_trip(m, tag);
}

} // verus!
