//! From a generic value to an XML element tree.
//!
//! An object key that begins with `@` names an attribute, the key `#text`
//! names the element's own text (an array or an object there is written as
//! its JSON text), and any other key names child elements:
//! one per array item, one for an object, an empty one for null, and one
//! holding the value's text for any other scalar.
use vstd::prelude::*;
use crate::error::MappingError;
use crate::json::{json_text, json_text_of};
use crate::value::{GenericValue, Json, text_key, is_attr_key, is_text_key, is_attribute_key};
use crate::xml::{XmlElement, XmlNode, ElementModel, NodeModel, nodes_view, attrs_view, lemma_children_view};

verus! {

/// Neither an array nor an object.
pub open spec fn is_scalar(v: Json) -> bool {
    !(v is Array) && !(v is Object)
}

/// The text that a scalar stands for.
pub open spec fn scalar_text(v: Json) -> Seq<char> {
    match v {
        Json::Null => seq!['n', 'u', 'l', 'l'],
        Json::Bool(b) => if b {
            seq!['t', 'r', 'u', 'e']
        } else {
            seq!['f', 'a', 'l', 's', 'e']
        },
        Json::Number(n) => n,
        Json::Str(s) => s,
        _ => Seq::empty(),
    }
}

/// The text that the text entry `v` gives: a scalar's text, or the JSON
/// text of an array or an object.
pub open spec fn element_text(v: Json) -> Seq<char> {
    if is_scalar(v) {
        scalar_text(v)
    } else {
        json_text_of(v)
    }
}

/// Every attribute, at every depth, holds a scalar.
pub open spec fn encodable(v: Json) -> bool
    decreases v,
{
    match v {
        Json::Object(m) => forall|i: int| 0 <= i < m.len() ==> entry_encodable(m[i].0, #[trigger] m[i].1),
        _ => true,
    }
}

/// The entry `k: v` of an object can be encoded.
pub open spec fn entry_encodable(k: Seq<char>, v: Json) -> bool
    decreases v,
{
    if is_attr_key(k) {
        is_scalar(v)
    } else if k == text_key() {
        true
    } else {
        match v {
            Json::Array(a) => forall|i: int| 0 <= i < a.len() ==> encodable(#[trigger] a[i]),
            Json::Object(m) => forall|i: int|
                0 <= i < m.len() ==> entry_encodable(m[i].0, #[trigger] m[i].1),
            _ => true,
        }
    }
}

/// The element that `v` encodes to under `tag`. Only an object gives it
/// content.
pub open spec fn encode_model(v: Json, tag: Seq<char>) -> ElementModel
    decreases v,
{
    match v {
        Json::Object(m) => ElementModel { name: tag, attributes: attrs_of(m), children: children_of(m) },
        _ => ElementModel { name: tag, attributes: seq![], children: seq![] },
    }
}

/// The attributes that the `@` entries of `m` give, in entry order.
pub open spec fn attrs_of(m: Seq<(Seq<char>, Json)>) -> Seq<(Seq<char>, Seq<char>)>
    decreases m.len(),
{
    if m.len() == 0 {
        seq![]
    } else {
        let p = attrs_of(m.drop_last());
        if is_attr_key(m.last().0) {
            p.push((m.last().0.drop_first(), scalar_text(m.last().1)))
        } else {
            p
        }
    }
}

/// The children that the entries of `m` give, in entry order.
pub open spec fn children_of(m: Seq<(Seq<char>, Json)>) -> Seq<NodeModel>
    decreases m,
{
    if m.len() == 0 {
        seq![]
    } else {
        children_of(m.drop_last()) + entry_children(m.last().0, m.last().1)
    }
}

/// The children that the one entry `k: v` gives.
pub open spec fn entry_children(k: Seq<char>, v: Json) -> Seq<NodeModel>
    decreases v,
{
    if is_attr_key(k) {
        seq![]
    } else if k == text_key() {
        seq![NodeModel::Text(element_text(v))]
    } else {
        match v {
            Json::Array(a) => Seq::new(
                a.len(),
                |i: int|
                    if 0 <= i < a.len() {
                        NodeModel::Element(encode_model(a[i], k))
                    } else {
                        NodeModel::Text(Seq::empty())
                    },
            ),
            Json::Object(m) => seq![
                NodeModel::Element(
                    ElementModel { name: k, attributes: attrs_of(m), children: children_of(m) },
                ),
            ],
            Json::Null => seq![NodeModel::Element(ElementModel { name: k, attributes: seq![], children: seq![] })],
            _ => seq![
                NodeModel::Element(
                    ElementModel { name: k, attributes: seq![], children: seq![NodeModel::Text(scalar_text(v))] },
                ),
            ],
        }
    }
}

/// The text of a scalar; `None` for an array or an object.
pub fn scalar_string(v: &GenericValue) -> (r: Option<String>)
    ensures
        r is Some <==> is_scalar(v@),
        r is Some ==> r->0@ == scalar_text(v@),
{
    match v {
        GenericValue::Null => {
            let s = String::from_str("null");
            proof {
                reveal_strlit("null");
                assert(s@ =~= scalar_text(v@));
            }
            Some(s)
        },
        GenericValue::Bool(b) => {
            if *b {
                let s = String::from_str("true");
                proof {
                    reveal_strlit("true");
                    assert(s@ =~= scalar_text(v@));
                }
                Some(s)
            } else {
                let s = String::from_str("false");
                proof {
                    reveal_strlit("false");
                    assert(s@ =~= scalar_text(v@));
                }
                Some(s)
            }
        },
        GenericValue::Number(n) => Some(n.clone()),
        GenericValue::Str(s) => Some(s.clone()),
        _ => None,
    }
}


proof fn lemma_attrs_step(m: Seq<(Seq<char>, Json)>, i: int)
    requires
        0 <= i < m.len(),
    ensures
        attrs_of(m.take(i + 1)) == if is_attr_key(m[i].0) {
            attrs_of(m.take(i)).push((m[i].0.drop_first(), scalar_text(m[i].1)))
        } else {
            attrs_of(m.take(i))
        },
{
    assert(m.take(i + 1).drop_last() =~= m.take(i));
}

proof fn lemma_children_step(m: Seq<(Seq<char>, Json)>, i: int)
    requires
        0 <= i < m.len(),
    ensures
        children_of(m.take(i + 1)) == children_of(m.take(i)) + entry_children(m[i].0, m[i].1),
{
    assert(m.take(i + 1).drop_last() =~= m.take(i));
}

/// The key without its leading attribute marker.
fn strip_marker(k: &str) -> (r: String)
    requires
        k@.len() > 0,
    ensures
        r@ == k@.drop_first(),
{
    let n = k.unicode_len();
    String::from_str(k.substring_char(1, n))
}

/// Encodes `v` as an element named `tag`. Fails exactly when an attribute,
/// at any depth, holds an array or an object.
#[verifier::loop_isolation(false)]
pub fn encode(v: &GenericValue, tag: &str) -> (r: Result<XmlElement, MappingError>)
    ensures
        r is Ok <==> encodable(v@),
        r is Err ==> r->Err_0 is Encoding,
        r is Ok ==> r->Ok_0@ == encode_model(v@, tag@),
    decreases v,
{
    let m = match v {
        GenericValue::Object(m) => m,
        _ => {
            return Ok(XmlElement::new(tag));
        },
    };
    let ghost mv = v@->Object_0;
    let mut attributes: Vec<(String, String)> = Vec::new();
    let mut children: Vec<XmlNode> = Vec::new();
    let mut i: usize = 0;
    proof {
        assert(attrs_view(attributes@) =~= attrs_of(mv.take(0)));
        assert(nodes_view(children@) =~= children_of(mv.take(0)));
    }
    while i < m.len()
        invariant
            i <= m.len(),
            attrs_view(attributes@) == attrs_of(mv.take(i as int)),
            nodes_view(children@) == children_of(mv.take(i as int)),
            forall|j: int| 0 <= j < i ==> entry_encodable(mv[j].0, #[trigger] mv[j].1),
        decreases m.len() - i,
    {
        let k = &m[i].0;
        let val = &m[i].1;
        assert(mv[i as int] == (k@, val@));
        proof {
            lemma_attrs_step(mv, i as int);
            lemma_children_step(mv, i as int);
        }
        if is_attribute_key(k.as_str()) {
            match scalar_string(val) {
                None => {
                    return Err(MappingError::Encoding(k.clone()));
                },
                Some(s) => {
                    let name = strip_marker(k.as_str());
                    attributes.push((name, s));
                    assert(attrs_view(attributes@) =~= attrs_of(mv.take(i + 1)));
                },
            }
        } else if is_text_key(k.as_str()) {
            let s = match scalar_string(val) {
                Some(s) => s,
                None => json_text(val),
            };
            children.push(XmlNode::Text(s));
            assert(nodes_view(children@) =~= children_of(mv.take(i + 1)));
        } else {
            match val {
                GenericValue::Array(a) => {
                    let ghost before = nodes_view(children@);
                    let mut j: usize = 0;
                    while j < a.len()
                        invariant
                            j <= a.len(),
                            nodes_view(children@) == before + Seq::new(
                                j as nat,
                                |t: int| NodeModel::Element(encode_model(a[t]@, k@)),
                            ),
                            forall|t: int| 0 <= t < j ==> encodable(#[trigger] a[t]@),
                        decreases a.len() - j,
                    {
                        match encode(&a[j], k.as_str()) {
                            Err(e) => {
                                assert(!encodable(val@->Array_0[j as int]));
                                return Err(e);
                            },
                            Ok(c) => {
                                let ghost prev = nodes_view(children@);
                                children.push(XmlNode::Element(c));
                                assert(nodes_view(children@) =~= prev.push(NodeModel::Element(c@)));
                            },
                        }
                        j += 1;
                        assert(nodes_view(children@) =~= before + Seq::new(
                            j as nat,
                            |t: int| NodeModel::Element(encode_model(a[t]@, k@)),
                        ));
                    }
                    assert(nodes_view(children@) =~= children_of(mv.take(i + 1)));
                    assert forall|t: int| 0 <= t < a.len() implies encodable(
                        #[trigger] val@->Array_0[t],
                    ) by {
                        assert(val@->Array_0[t] == a[t]@);
                    }
                },
                GenericValue::Object(_) => {
                    match encode(val, k.as_str()) {
                        Err(e) => {
                            return Err(e);
                        },
                        Ok(c) => {
                            children.push(XmlNode::Element(c));
                            assert(nodes_view(children@) =~= children_of(mv.take(i + 1)));
                        },
                    }
                },
                GenericValue::Null => {
                    children.push(XmlNode::Element(XmlElement::new(k.as_str())));
                    assert(nodes_view(children@) =~= children_of(mv.take(i + 1)));
                },
                _ => {
                    match scalar_string(val) {
                        None => {
                            return Err(MappingError::Encoding(k.clone()));
                        },
                        Some(s) => {
                            let mut c = XmlElement::new(k.as_str());
                            c.children.push(XmlNode::Text(s));
                            proof {
                                lemma_children_view(c);
                                assert(nodes_view(c.children@) =~= seq![NodeModel::Text(s@)]);
                            }
                            children.push(XmlNode::Element(c));
                            assert(nodes_view(children@) =~= children_of(mv.take(i + 1)));
                        },
                    }
                },
            }
        }
        i += 1;
    }
    let r = XmlElement { name: String::from_str(tag), attributes, children };
    proof {
        lemma_children_view(r);
        assert(mv.take(m.len() as int) =~= mv);
    }
    Ok(r)
}


/// An array under a plain key fans out into one child element per item,
/// each named by the key, in the array's order.
pub proof fn lemma_array_fans_out(tag: Seq<char>, k: Seq<char>, a: Seq<Json>)
    requires
        !is_attr_key(k),
        k != text_key(),
    ensures
        encode_model(Json::Object(seq![(k, Json::Array(a))]), tag).children == Seq::new(
            a.len(),
            |i: int| NodeModel::Element(encode_model(a[i], k)),
        ),
{
    let m = seq![(k, Json::Array(a))];
    assert(m.drop_last() =~= seq![]);
    assert(encode_model(Json::Object(m), tag).children =~= Seq::new(
        a.len(),
        |i: int| NodeModel::Element(encode_model(a[i], k)),
    ));
}

/// The children of two runs of entries are the children of each, in order.
proof fn lemma_children_concat(a: Seq<(Seq<char>, Json)>, b: Seq<(Seq<char>, Json)>)
    ensures
        children_of(a + b) == children_of(a) + children_of(b),
    decreases b.len(),
{
    if b.len() == 0 {
        assert(a + b =~= a);
        assert(children_of(a) + children_of(b) =~= children_of(a));
    } else {
        assert((a + b).drop_last() =~= a + b.drop_last());
        assert((a + b).last() == b.last());
        lemma_children_concat(a, b.drop_last());
        assert(children_of(a + b) =~= children_of(a) + children_of(b));
    }
}

/// An array under a plain key, anywhere in an object, becomes one child
/// element per item, named by the key, consecutive and in the array's
/// order, between the children of the entries before it and those after
/// it; an empty array gives none.
pub proof fn lemma_array_entry_fans_out(tag: Seq<char>, m: Seq<(Seq<char>, Json)>, j: int, a: Seq<Json>)
    requires
        0 <= j < m.len(),
        m[j].1 == Json::Array(a),
        !is_attr_key(m[j].0),
        m[j].0 != text_key(),
    ensures
        encode_model(Json::Object(m), tag).children == children_of(m.take(j)) + Seq::new(
            a.len(),
            |i: int| NodeModel::Element(encode_model(a[i], m[j].0)),
        ) + children_of(m.skip(j + 1)),
{
    let k = m[j].0;
    assert(m =~= m.take(j + 1) + m.skip(j + 1));
    lemma_children_concat(m.take(j + 1), m.skip(j + 1));
    lemma_children_step(m, j);
    assert(entry_children(k, Json::Array(a)) =~= Seq::new(
        a.len(),
        |i: int| NodeModel::Element(encode_model(a[i], k)),
    ));
}

/// Null under a plain key becomes one child element with nothing in it.
pub proof fn lemma_null_is_empty_element(tag: Seq<char>, k: Seq<char>)
    requires
        !is_attr_key(k),
        k != text_key(),
    ensures
        encode_model(Json::Object(seq![(k, Json::Null)]), tag).children == seq![
            NodeModel::Element(ElementModel { name: k, attributes: seq![], children: seq![] }),
        ],
{
    let m = seq![(k, Json::Null)];
    assert(m.drop_last() =~= seq![]);
    assert(encode_model(Json::Object(m), tag).children =~= seq![
        NodeModel::Element(ElementModel { name: k, attributes: seq![], children: seq![] }),
    ]);
}

} // verus!
