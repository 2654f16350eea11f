//! From an XML element tree to a generic value.
//!
//! Attributes become `@name` entries holding strings, text becomes the
//! `#text` entry (a later run replaces an earlier one), and a child element
//! named `k` is stored under `k`: alone the first time, and as an array once
//! a sibling of the same name follows.
use vstd::prelude::*;
use crate::value::{GenericValue, Json, text_key, entries_view, lemma_object_view};
use crate::xml::{XmlElement, XmlNode, ElementModel, NodeModel};

verus! {

/// Some entry of `m` has the key `k`.
pub open spec fn has_key(m: Seq<(Seq<char>, Json)>, k: Seq<char>) -> bool {
    exists|j: int| 0 <= j < m.len() && #[trigger] m[j].0 == k
}

/// The place of the entry with key `k`.
pub open spec fn key_pos(m: Seq<(Seq<char>, Json)>, k: Seq<char>) -> int {
    choose|j: int| 0 <= j < m.len() && #[trigger] m[j].0 == k
}

/// No two entries share a key.
pub open spec fn keys_unique(m: Seq<(Seq<char>, Json)>) -> bool {
    forall|a: int, b: int|
        0 <= a < m.len() && 0 <= b < m.len() && #[trigger] m[a].0 == #[trigger] m[b].0 ==> a == b
}

/// Sets the entry `k` to `v`: in its place where `k` is present, else at
/// the end.
pub open spec fn set_entry(m: Seq<(Seq<char>, Json)>, k: Seq<char>, v: Json) -> Seq<(Seq<char>, Json)> {
    if has_key(m, k) {
        m.update(key_pos(m, k), (k, v))
    } else {
        m.push((k, v))
    }
}

/// Stores the child value `v` under `k`: alone if `k` is new; otherwise the
/// present value becomes, or grows, an array that ends with `v`.
pub open spec fn add_child(m: Seq<(Seq<char>, Json)>, k: Seq<char>, v: Json) -> Seq<(Seq<char>, Json)> {
    if has_key(m, k) {
        let old = m[key_pos(m, k)].1;
        let nv = match old {
            Json::Array(a) => Json::Array(a.push(v)),
            _ => Json::Array(seq![old, v]),
        };
        m.update(key_pos(m, k), (k, nv))
    } else {
        m.push((k, v))
    }
}

/// The key under which the attribute `name` is stored.
pub open spec fn attr_key_of(name: Seq<char>) -> Seq<char> {
    seq!['@'] + name
}

/// The entries that a list of attributes gives.
pub open spec fn attr_entries(a: Seq<(Seq<char>, Seq<char>)>) -> Seq<(Seq<char>, Json)>
    decreases a.len(),
{
    if a.len() == 0 {
        seq![]
    } else {
        set_entry(attr_entries(a.drop_last()), attr_key_of(a.last().0), Json::Str(a.last().1))
    }
}

/// The entries after the children `cs` are added, in order, to `m`.
pub open spec fn fold_children(m: Seq<(Seq<char>, Json)>, cs: Seq<NodeModel>) -> Seq<(Seq<char>, Json)>
    decreases cs,
{
    if cs.len() == 0 {
        m
    } else {
        let p = fold_children(m, cs.drop_last());
        match cs.last() {
            NodeModel::Text(t) => set_entry(p, text_key(), Json::Str(t)),
            NodeModel::Element(c) => add_child(p, c.name, decode_model(c)),
            _ => p,
        }
    }
}

/// Holds text: a text or character-data node.
pub open spec fn is_text_node(n: NodeModel) -> bool {
    n is Text || n is CData
}

/// The text and character data among `cs`, joined in order.
pub open spec fn text_content(cs: Seq<NodeModel>) -> Seq<char>
    decreases cs.len(),
{
    if cs.len() == 0 {
        seq![]
    } else {
        text_content(cs.drop_last()) + match cs.last() {
            NodeModel::Text(t) => t,
            NodeModel::CData(t) => t,
            _ => seq![],
        }
    }
}

/// The value that an element decodes to. An element that gives no entry
/// is a string of its text where it holds any text node, and null where it
/// holds none; any other element is an object.
pub open spec fn decode_model(e: ElementModel) -> Json
    decreases e,
{
    let m = fold_children(attr_entries(e.attributes), e.children);
    if m.len() == 0 {
        if exists|i: int| 0 <= i < e.children.len() && is_text_node(#[trigger] e.children[i]) {
            Json::Str(text_content(e.children))
        } else {
            Json::Null
        }
    } else {
        Json::Object(m)
    }
}

/// The place of the entry with key `k`, if any.
fn find_key(m: &Vec<(String, GenericValue)>, k: &String) -> (r: Option<usize>)
    ensures
        match r {
            Some(j) => j < m.len() && entries_view(m@)[j as int].0 == k@,
            None => !has_key(entries_view(m@), k@),
        },
{
    let mut j: usize = 0;
    while j < m.len()
        invariant
            j <= m.len(),
            forall|t: int| 0 <= t < j ==> (#[trigger] m[t]).0@ != k@,
        decreases m.len() - j,
    {
        if m[j].0 == *k {
            return Some(j);
        }
        j += 1;
    }
    assert forall|t: int| 0 <= t < m.len() implies #[trigger] entries_view(m@)[t].0 != k@ by {
        assert(entries_view(m@)[t].0 == m[t].0@);
    }
    None
}

proof fn lemma_pos_unique(m: Seq<(Seq<char>, Json)>, k: Seq<char>, j: int)
    requires
        keys_unique(m),
        0 <= j < m.len(),
        m[j].0 == k,
    ensures
        has_key(m, k),
        key_pos(m, k) == j,
{
    assert(m[j].0 == k);
    let p = key_pos(m, k);
    assert(m[p].0 == m[j].0);
}

/// `set_entry` on a vector of entries.
fn set_entry_exec(m: &mut Vec<(String, GenericValue)>, k: String, v: GenericValue)
    requires
        keys_unique(entries_view(old(m)@)),
    ensures
        entries_view(final(m)@) == set_entry(entries_view(old(m)@), k@, v@),
        keys_unique(entries_view(final(m)@)),
{
    let ghost before = entries_view(m@);
    let ghost kv = k@;
    let ghost vv = v@;
    match find_key(m, &k) {
        Some(j) => {
            proof {
                lemma_pos_unique(before, kv, j as int);
            }
            m.remove(j);
            m.insert(j, (k, v));
            assert(entries_view(m@) =~= before.update(j as int, (kv, vv)));
        },
        None => {
            m.push((k, v));
            assert(entries_view(m@) =~= before.push((kv, vv)));
        },
    }
}

/// `add_child` on a vector of entries.
fn add_child_exec(m: &mut Vec<(String, GenericValue)>, k: String, v: GenericValue)
    requires
        keys_unique(entries_view(old(m)@)),
    ensures
        entries_view(final(m)@) == add_child(entries_view(old(m)@), k@, v@),
        keys_unique(entries_view(final(m)@)),
{
    let ghost before = entries_view(m@);
    let ghost kv = k@;
    let ghost vv = v@;
    match find_key(m, &k) {
        Some(j) => {
            proof {
                lemma_pos_unique(before, kv, j as int);
            }
            let (_, old) = m.remove(j);
            assert(old@ == before[j as int].1);
            let nv = match old {
                GenericValue::Array(mut a) => {
                    let ghost av = old@->Array_0;
                    a.push(v);
                    let nv = GenericValue::Array(a);
                    assert(nv@->Array_0 =~= av.push(vv));
                    nv
                },
                other => {
                    let mut a: Vec<GenericValue> = Vec::new();
                    a.push(other);
                    a.push(v);
                    let nv = GenericValue::Array(a);
                    assert(nv@->Array_0 =~= seq![before[j as int].1, vv]);
                    nv
                },
            };
            m.insert(j, (k, nv));
            assert(entries_view(m@) =~= add_child(before, kv, vv));
        },
        None => {
            m.push((k, v));
            assert(entries_view(m@) =~= before.push((kv, vv)));
        },
    }
}


/// The key `@name` for the attribute `name`.
fn attribute_entry_key(name: &String) -> (r: String)
    ensures
        r@ == attr_key_of(name@),
{
    let mut s = String::from_str("@");
    proof {
        reveal_strlit("@");
    }
    s.append(name.as_str());
    assert(s@ =~= attr_key_of(name@));
    s
}

/// The text key as a string.
fn text_key_string() -> (r: String)
    ensures
        r@ == text_key(),
{
    let s = String::from_str("#text");
    proof {
        reveal_strlit("#text");
        assert(s@ =~= text_key());
    }
    s
}

/// Decodes an element into a generic value.
#[verifier::loop_isolation(false)]
pub fn decode(e: &XmlElement) -> (r: GenericValue)
    ensures
        r@ == decode_model(e@),
        r@ is Object ==> keys_unique(r@->Object_0),
    decreases e,
{
    let ghost ev = e@;
    let mut m: Vec<(String, GenericValue)> = Vec::new();
    let mut i: usize = 0;
    proof {
        assert(entries_view(m@) =~= attr_entries(ev.attributes.take(0)));
    }
    while i < e.attributes.len()
        invariant
            i <= e.attributes.len(),
            entries_view(m@) == attr_entries(ev.attributes.take(i as int)),
            keys_unique(entries_view(m@)),
        decreases e.attributes.len() - i,
    {
        let key = attribute_entry_key(&e.attributes[i].0);
        set_entry_exec(&mut m, key, GenericValue::Str(e.attributes[i].1.clone()));
        proof {
            assert(ev.attributes.take(i + 1).drop_last() =~= ev.attributes.take(i as int));
            assert(ev.attributes[i as int] == (e.attributes[i as int].0@, e.attributes[i as int].1@));
        }
        i += 1;
    }
    proof {
        assert(ev.attributes.take(i as int) =~= ev.attributes);
    }
    let ghost m0 = entries_view(m@);
    let mut text = String::new();
    let mut saw_text = false;
    let mut i: usize = 0;
    proof {
        assert(text@ =~= text_content(ev.children.take(0)));
    }
    while i < e.children.len()
        invariant
            i <= e.children.len(),
            entries_view(m@) == fold_children(m0, ev.children.take(i as int)),
            keys_unique(entries_view(m@)),
            text@ == text_content(ev.children.take(i as int)),
            saw_text == exists|t: int| 0 <= t < i && is_text_node(#[trigger] ev.children[t]),
        decreases e.children.len() - i,
    {
        proof {
            assert(ev.children.take(i + 1).drop_last() =~= ev.children.take(i as int));
            assert(ev.children[i as int] == e.children[i as int]@);
        }
        match &e.children[i] {
            XmlNode::Text(t) => {
                set_entry_exec(&mut m, text_key_string(), GenericValue::Str(t.clone()));
                text.append(t.as_str());
                saw_text = true;
            },
            XmlNode::CData(t) => {
                text.append(t.as_str());
                saw_text = true;
            },
            XmlNode::Element(c) => {
                let cv = decode(c);
                add_child_exec(&mut m, c.name.clone(), cv);
            },
            _ => {},
        }
        i += 1;
        assert(saw_text == exists|t: int| 0 <= t < i && is_text_node(#[trigger] ev.children[t]));
    }
    proof {
        assert(ev.children.take(i as int) =~= ev.children);
    }
    if m.len() == 0 {
        if saw_text {
            GenericValue::Str(text)
        } else {
            GenericValue::Null
        }
    } else {
        proof {
            lemma_object_view(m);
        }
        GenericValue::Object(m)
    }
}


/// Sibling elements of one name decode to one entry: a single sibling to
/// its bare value, two siblings to an array of their values in document
/// order.
pub proof fn lemma_siblings_fan_in(name: Seq<char>, c1: ElementModel, c2: ElementModel)
    requires
        c1.name == c2.name,
    ensures
        decode_model(ElementModel { name, attributes: seq![], children: seq![NodeModel::Element(c1)] })
            == Json::Object(seq![(c1.name, decode_model(c1))]),
        decode_model(
            ElementModel {
                name,
                attributes: seq![],
                children: seq![NodeModel::Element(c1), NodeModel::Element(c2)],
            },
        ) == Json::Object(seq![(c1.name, Json::Array(seq![decode_model(c1), decode_model(c2)]))]),
{
    let k = c1.name;
    let one = seq![NodeModel::Element(c1)];
    let two = seq![NodeModel::Element(c1), NodeModel::Element(c2)];
    let empty: Seq<(Seq<char>, Json)> = seq![];
    assert(attr_entries(seq![]) == empty);
    assert(!has_key(empty, k));
    assert(one.drop_last() =~= seq![]);
    assert(fold_children(empty, one.drop_last()) == empty);
    assert(one.last() == NodeModel::Element(c1));
    assert(fold_children(empty, one) =~= seq![(k, decode_model(c1))]);
    assert(two.drop_last() =~= one);
    assert(two.last() == NodeModel::Element(c2));
    let m1 = seq![(k, decode_model(c1))];
    assert(m1[0].0 == k);
    assert(has_key(m1, k));
    assert(key_pos(m1, k) == 0);
    assert(!(decode_model(c1) is Array));
    assert(fold_children(empty, two) =~= seq![(k, Json::Array(seq![decode_model(c1), decode_model(c2)]))]);
}

/// An element with no attributes and no children decodes to null.
pub proof fn lemma_empty_element_is_null(name: Seq<char>)
    ensures
        decode_model(ElementModel { name, attributes: seq![], children: seq![] }) == Json::Null,
{
    assert(attr_entries(seq![]) =~= seq![]);
}

} // verus!
