//! The generic tree value and its mathematical model.
use vstd::prelude::*;

verus! {

/// A generic tree value: the shape a JSON-style decoder produces.
/// A number is held as its decimal text; an object keeps its entries in
/// insertion order.
#[derive(Debug, PartialEq, Eq)]
pub enum GenericValue {
    Null,
    Bool(bool),
    Number(String),
    Str(String),
    Array(Vec<GenericValue>),
    Object(Vec<(String, GenericValue)>),
}

/// The mathematical model of a [`GenericValue`].
pub enum Json {
    Null,
    Bool(bool),
    Number(Seq<char>),
    Str(Seq<char>),
    Array(Seq<Json>),
    Object(Seq<(Seq<char>, Json)>),
}

impl GenericValue {
    pub open spec fn view(&self) -> Json
        decreases self,
    {
        match self {
            GenericValue::Null => Json::Null,
            GenericValue::Bool(b) => Json::Bool(*b),
            GenericValue::Number(n) => Json::Number(n@),
            GenericValue::Str(s) => Json::Str(s@),
            GenericValue::Array(a) => Json::Array(
                Seq::new(a.len() as nat, |i: int| if 0 <= i < a.len() { a[i].view() } else { Json::Null }),
            ),
            GenericValue::Object(m) => Json::Object(
                Seq::new(
                    m.len() as nat,
                    |i: int| if 0 <= i < m.len() { (m[i].0@, m[i].1.view()) } else { (Seq::empty(), Json::Null) },
                ),
            ),
        }
    }
}


/// The model of the entries of an object.
pub open spec fn entries_view(m: Seq<(String, GenericValue)>) -> Seq<(Seq<char>, Json)> {
    Seq::new(m.len(), |i: int| (m[i].0@, m[i].1@))
}

/// An object is modelled entry by entry.
pub proof fn lemma_object_view(m: Vec<(String, GenericValue)>)
    ensures
        GenericValue::Object(m)@ == Json::Object(entries_view(m@)),
{
    assert(GenericValue::Object(m)@->Object_0 =~= entries_view(m@));
}

/// The object key that stands for an element's direct text.
pub open spec fn text_key() -> Seq<char> {
    seq!['#', 't', 'e', 'x', 't']
}

/// True when `k` begins with the attribute marker `@`.
pub open spec fn is_attr_key(k: Seq<char>) -> bool {
    k.len() > 0 && k[0] == '@'
}

/// An object whose sole entry is the text key.
pub open spec fn is_text_only(m: Seq<(Seq<char>, Json)>) -> bool {
    m.len() == 1 && m[0].0 == text_key()
}

/// The normal form of a value: every object that holds the text key as its
/// sole entry is replaced, recursively, by that entry's value.
pub open spec fn normalize_model(v: Json) -> Json
    decreases v,
{
    match v {
        Json::Array(a) => Json::Array(
            Seq::new(a.len(), |i: int| if 0 <= i < a.len() { normalize_model(a[i]) } else { Json::Null }),
        ),
        Json::Object(m) => if is_text_only(m) {
            normalize_model(m[0].1)
        } else {
            Json::Object(
                Seq::new(
                    m.len(),
                    |i: int|
                        if 0 <= i < m.len() {
                            (m[i].0, normalize_model(m[i].1))
                        } else {
                            (Seq::empty(), Json::Null)
                        },
                ),
            )
        },
        _ => v,
    }
}

/// No object anywhere in `v` holds the text key as its sole entry.
pub open spec fn is_normal(v: Json) -> bool
    decreases v,
{
    match v {
        Json::Array(a) => forall|i: int| 0 <= i < a.len() ==> is_normal(#[trigger] a[i]),
        Json::Object(m) => !is_text_only(m) && forall|i: int|
            0 <= i < m.len() ==> is_normal(#[trigger] m[i].1),
        _ => true,
    }
}

/// What `normalize_model` returns is in normal form.
pub proof fn lemma_normalize_is_normal(v: Json)
    ensures
        is_normal(normalize_model(v)),
    decreases v,
{
    match v {
        Json::Array(a) => {
            assert forall|i: int| 0 <= i < a.len() implies is_normal(
                #[trigger] normalize_model(v)->Array_0[i],
            ) by {
                lemma_normalize_is_normal(a[i]);
            }
        },
        Json::Object(m) => {
            if is_text_only(m) {
                lemma_normalize_is_normal(m[0].1);
            } else {
                let r = normalize_model(v)->Object_0;
                assert forall|i: int| 0 <= i < r.len() implies is_normal(#[trigger] r[i].1) by {
                    lemma_normalize_is_normal(m[i].1);
                }
                assert(!is_text_only(r));
            }
        },
        _ => {},
    }
}

/// A value already in normal form is left unchanged.
pub proof fn lemma_normal_is_fixed(v: Json)
    requires
        is_normal(v),
    ensures
        normalize_model(v) == v,
    decreases v,
{
    match v {
        Json::Array(a) => {
            assert forall|i: int| 0 <= i < a.len() implies normalize_model(a[i]) == a[i] by {
                lemma_normal_is_fixed(a[i]);
            }
            assert(normalize_model(v)->Array_0 =~= a);
        },
        Json::Object(m) => {
            assert forall|i: int| 0 <= i < m.len() implies normalize_model(m[i].1) == m[i].1 by {
                lemma_normal_is_fixed(m[i].1);
            }
            assert(normalize_model(v)->Object_0 =~= m);
        },
        _ => {},
    }
}

/// Normalization is idempotent: normalizing twice gives what normalizing
/// once gives, for every value.
pub proof fn lemma_normalize_idempotent(v: Json)
    ensures
        normalize_model(normalize_model(v)) == normalize_model(v),
{
    lemma_normalize_is_normal(v);
    lemma_normal_is_fixed(normalize_model(v));
}


/// Tells whether `k` is the text key.
pub fn is_text_key(k: &str) -> (r: bool)
    ensures
        r == (k@ == text_key()),
{
    if k.unicode_len() != 5 {
        return false;
    }
    let r = k.get_char(0) == '#' && k.get_char(1) == 't' && k.get_char(2) == 'e'
        && k.get_char(3) == 'x' && k.get_char(4) == 't';
    proof {
        if r {
            assert(k@ =~= text_key());
        }
    }
    r
}

/// Tells whether `k` begins with the attribute marker `@`.
pub fn is_attribute_key(k: &str) -> (r: bool)
    ensures
        r == is_attr_key(k@),
{
    k.unicode_len() > 0 && k.get_char(0) == '@'
}

/// Collapses every object whose sole entry is the text key into that
/// entry's value, throughout the tree.
#[verifier::loop_isolation(false)]
pub fn normalize(v: &GenericValue) -> (r: GenericValue)
    ensures
        r@ == normalize_model(v@),
    decreases v,
{
    match v {
        GenericValue::Null => GenericValue::Null,
        GenericValue::Bool(b) => GenericValue::Bool(*b),
        GenericValue::Number(n) => GenericValue::Number(n.clone()),
        GenericValue::Str(s) => GenericValue::Str(s.clone()),
        GenericValue::Array(a) => {
            let mut out: Vec<GenericValue> = Vec::new();
            let mut i: usize = 0;
            while i < a.len()
                invariant
                    i <= a.len(),
                    out.len() == i,
                    forall|j: int| 0 <= j < i ==> (#[trigger] out[j])@ == normalize_model(a[j]@),
                decreases a.len() - i,
            {
                let x = normalize(&a[i]);
                out.push(x);
                i += 1;
            }
            let r = GenericValue::Array(out);
            proof {
                assert(r@->Array_0 =~= normalize_model(v@)->Array_0);
            }
            r
        },
        GenericValue::Object(m) => {
            if m.len() == 1 && is_text_key(m[0].0.as_str()) {
                return normalize(&m[0].1);
            }
            let mut out: Vec<(String, GenericValue)> = Vec::new();
            let mut i: usize = 0;
            while i < m.len()
                invariant
                    i <= m.len(),
                    out.len() == i,
                    forall|j: int|
                        0 <= j < i ==> (#[trigger] out[j]).0@ == m[j].0@ && out[j].1@
                            == normalize_model(m[j].1@),
                decreases m.len() - i,
            {
                let x = normalize(&m[i].1);
                out.push((m[i].0.clone(), x));
                i += 1;
            }
            let r = GenericValue::Object(out);
            proof {
                assert(r@->Object_0 =~= normalize_model(v@)->Object_0);
            }
            r
        },
    }
}

} // verus!
