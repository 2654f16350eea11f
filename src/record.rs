//! Typed records and the generic value: the bridge between them, and the
//! two entry points that go from a record to XML text and back.
use vstd::prelude::*;
use crate::error::MappingError;
use crate::value::{GenericValue, Json, entries_view, lemma_object_view};

verus! {

/// A record that has a generic value, built by the key convention: `@name`
/// for an attribute, `#text` for the element's text, any other key for a
/// child element.
pub trait ToValue {
    /// The value of the record.
    spec fn value_model(&self) -> Json;

    /// Builds the value of the record.
    fn to_value(&self) -> (r: GenericValue)
        ensures
            r@ == self.value_model(),
    ;
}

impl ToValue for String {
    open spec fn value_model(&self) -> Json {
        Json::Str(self@)
    }

    fn to_value(&self) -> (r: GenericValue) {
        GenericValue::Str(self.clone())
    }
}

/// The value of an optional field: null when absent.
pub open spec fn opt_model<T: ToValue>(o: Option<T>) -> Json {
    match o {
        Some(x) => x.value_model(),
        None => Json::Null,
    }
}

/// The value of a list field: an array of the items' values.
pub open spec fn vec_model<T: ToValue>(s: Seq<T>) -> Json {
    Json::Array(s.map_values(|x: T| x.value_model()))
}

/// Builds the value of an optional field.
pub fn opt_to_value<T: ToValue>(o: &Option<T>) -> (r: GenericValue)
    ensures
        r@ == opt_model(*o),
{
    match o {
        Some(x) => x.to_value(),
        None => GenericValue::Null,
    }
}

/// Builds the value of a list field.
pub fn vec_to_value<T: ToValue>(v: &Vec<T>) -> (r: GenericValue)
    ensures
        r@ == vec_model(v@),
{
    let mut out: Vec<GenericValue> = Vec::new();
    let mut i: usize = 0;
    while i < v.len()
        invariant
            i <= v.len(),
            out.len() == i,
            forall|j: int| 0 <= j < i ==> (#[trigger] out[j])@ == v[j].value_model(),
        decreases v.len() - i,
    {
        out.push(v[i].to_value());
        i += 1;
    }
    let r = GenericValue::Array(out);
    assert(r@->Array_0 =~= vec_model(v@)->Array_0);
    r
}

/// The object with the given entries.
pub fn object_value(m: Vec<(String, GenericValue)>) -> (r: GenericValue)
    ensures
        r@ == Json::Object(entries_view(m@)),
{
    proof {
        lemma_object_view(m);
    }
    GenericValue::Object(m)
}


/// A record that can be read back from a generic value. Entries whose keys
/// the record does not name are ignored.
pub trait FromValue: Sized {
    /// The value gives a record.
    spec fn accepts(v: Json) -> bool;

    /// `r` is the record that the value gives.
    spec fn read_as(v: Json, r: Self) -> bool;

    /// Where the value gives no record: the first fault met, in field
    /// order, is an absent field rather than a value of the wrong shape.
    spec fn missing(v: Json) -> bool;

    /// `k` is the key of one of the record's fields.
    spec fn names(k: Seq<char>) -> bool;

    /// An entry under a key that the record does not name, inserted
    /// anywhere in an object, changes neither whether the object gives a
    /// record, nor how reading fails, nor which record it gives.
    proof fn lemma_ignores_unknown(m: Seq<(Seq<char>, Json)>, i: int, k: Seq<char>, x: Json)
        requires
            0 <= i <= m.len(),
            !Self::names(k),
        ensures
            Self::accepts(Json::Object(m.insert(i, (k, x)))) == Self::accepts(Json::Object(m)),
            Self::missing(Json::Object(m.insert(i, (k, x)))) == Self::missing(Json::Object(m)),
            Self::accepts(Json::Object(m)) ==> forall|r: Self|
                Self::read_as(Json::Object(m.insert(i, (k, x))), r) == Self::read_as(Json::Object(m), r),
    ;

    /// Reads the record. Fails exactly where the value does not give a
    /// record: with a missing-field error where the first fault is an absent
    /// field, else with a type-mismatch error.
    fn from_value(v: &GenericValue) -> (r: Result<Self, MappingError>)
        ensures
            r is Ok <==> Self::accepts(v@),
            r is Ok ==> Self::read_as(v@, r->Ok_0),
            r is Err ==> r->Err_0 is MissingField || r->Err_0 is TypeMismatch,
            r is Err ==> (r->Err_0 is MissingField <==> Self::missing(v@)),
    ;
}

/// The value of the first entry of `m` with key `k`.
pub open spec fn field(m: Seq<(Seq<char>, Json)>, k: Seq<char>) -> Option<Json>
    decreases m.len(),
{
    if m.len() == 0 {
        None
    } else if m[0].0 == k {
        Some(m[0].1)
    } else {
        field(m.drop_first(), k)
    }
}

/// A required field: present, and giving a record.
pub open spec fn required_ok<T: FromValue>(m: Seq<(Seq<char>, Json)>, k: Seq<char>) -> bool {
    field(m, k) is Some && T::accepts(field(m, k)->0)
}

/// `r` is what the required field gives.
pub open spec fn required_is<T: FromValue>(m: Seq<(Seq<char>, Json)>, k: Seq<char>, r: T) -> bool {
    T::read_as(field(m, k)->0, r)
}

/// Where a required field fails, it fails as absent.
pub open spec fn required_missing<T: FromValue>(m: Seq<(Seq<char>, Json)>, k: Seq<char>) -> bool {
    field(m, k) is None || T::missing(field(m, k)->0)
}

/// Where an optional field fails, it fails as absent.
pub open spec fn optional_missing<T: FromValue>(m: Seq<(Seq<char>, Json)>, k: Seq<char>) -> bool {
    match field(m, k) {
        None => false,
        Some(Json::Null) => false,
        Some(x) => T::missing(x),
    }
}

/// An optional field: absent or null, or giving a record.
pub open spec fn optional_ok<T: FromValue>(m: Seq<(Seq<char>, Json)>, k: Seq<char>) -> bool {
    match field(m, k) {
        None => true,
        Some(Json::Null) => true,
        Some(x) => T::accepts(x),
    }
}

/// `r` is what the optional field gives: nothing where it is absent or
/// null.
pub open spec fn optional_is<T: FromValue>(m: Seq<(Seq<char>, Json)>, k: Seq<char>, r: Option<T>) -> bool {
    match field(m, k) {
        None => r is None,
        Some(Json::Null) => r is None,
        Some(x) => r is Some && T::read_as(x, r->0),
    }
}

impl FromValue for String {
    open spec fn accepts(v: Json) -> bool {
        v is Str
    }

    open spec fn read_as(v: Json, r: String) -> bool {
        r@ == v->Str_0
    }

    open spec fn missing(v: Json) -> bool {
        false
    }

    open spec fn names(k: Seq<char>) -> bool {
        false
    }

    proof fn lemma_ignores_unknown(m: Seq<(Seq<char>, Json)>, i: int, k: Seq<char>, x: Json) {
    }

    fn from_value(v: &GenericValue) -> (r: Result<String, MappingError>) {
        match v {
            GenericValue::Str(s) => Ok(s.clone()),
            _ => Err(MappingError::TypeMismatch(String::from_str("expected a string"))),
        }
    }
}

impl FromValue for bool {
    open spec fn accepts(v: Json) -> bool {
        v is Bool
    }

    open spec fn read_as(v: Json, r: bool) -> bool {
        r == v->Bool_0
    }

    open spec fn missing(v: Json) -> bool {
        false
    }

    open spec fn names(k: Seq<char>) -> bool {
        false
    }

    proof fn lemma_ignores_unknown(m: Seq<(Seq<char>, Json)>, i: int, k: Seq<char>, x: Json) {
    }

    fn from_value(v: &GenericValue) -> (r: Result<bool, MappingError>) {
        match v {
            GenericValue::Bool(b) => Ok(*b),
            _ => Err(MappingError::TypeMismatch(String::from_str("expected a boolean"))),
        }
    }
}

impl<T: FromValue> FromValue for Vec<T> {
    open spec fn accepts(v: Json) -> bool {
        v is Array && forall|i: int| 0 <= i < v->Array_0.len() ==> T::accepts(#[trigger] v->Array_0[i])
    }

    open spec fn read_as(v: Json, r: Vec<T>) -> bool {
        r@.len() == v->Array_0.len() && forall|i: int|
            0 <= i < r@.len() ==> T::read_as(v->Array_0[i], #[trigger] r@[i])
    }

    open spec fn missing(v: Json) -> bool {
        v is Array && exists|i: int|
            0 <= i < v->Array_0.len() && !T::accepts(#[trigger] v->Array_0[i]) && T::missing(v->Array_0[i])
                && forall|j: int| 0 <= j < i ==> T::accepts(v->Array_0[j])
    }

    open spec fn names(k: Seq<char>) -> bool {
        false
    }

    proof fn lemma_ignores_unknown(m: Seq<(Seq<char>, Json)>, i: int, k: Seq<char>, x: Json) {
    }

    fn from_value(v: &GenericValue) -> (r: Result<Vec<T>, MappingError>) {
        let a = match v {
            GenericValue::Array(a) => a,
            _ => {
                return Err(MappingError::TypeMismatch(String::from_str("expected a sequence")));
            },
        };
        let mut out: Vec<T> = Vec::new();
        let mut i: usize = 0;
        while i < a.len()
            invariant
                i <= a.len(),
                v@ is Array,
                v@->Array_0.len() == a.len(),
                forall|j: int| 0 <= j < a.len() ==> v@->Array_0[j] == (#[trigger] a[j])@,
                out@.len() == i,
                forall|j: int| 0 <= j < i ==> T::accepts(#[trigger] v@->Array_0[j]),
                forall|j: int| 0 <= j < i ==> T::read_as(v@->Array_0[j], #[trigger] out@[j]),
            decreases a.len() - i,
        {
            match T::from_value(&a[i]) {
                Ok(x) => {
                    out.push(x);
                },
                Err(e) => {
                    assert(v@->Array_0[i as int] == a[i as int]@);
                    proof {
                        let vi = v@->Array_0[i as int];
                        assert(!T::accepts(vi));
                        if e is MissingField {
                            assert(0 <= i < v@->Array_0.len() && !T::accepts(v@->Array_0[i as int]) && T::missing(
                                v@->Array_0[i as int],
                            ) && forall|j: int| 0 <= j < i ==> T::accepts(v@->Array_0[j]));
                        }
                        if Self::missing(v@) {
                            let w = choose|w: int|
                                0 <= w < v@->Array_0.len() && !T::accepts(#[trigger] v@->Array_0[w]) && T::missing(
                                    v@->Array_0[w],
                                ) && forall|j: int| 0 <= j < w ==> T::accepts(v@->Array_0[j]);
                            if w < i {
                                assert(T::accepts(v@->Array_0[w]));
                            } else if w > i {
                                assert(T::accepts(v@->Array_0[i as int]));
                            }
                            assert(w == i);
                            assert(e is MissingField);
                        }
                        assert((e is MissingField) == Self::missing(v@));
                    }
                    return Err(e);
                },
            }
            i += 1;
        }
        Ok(out)
    }
}

/// The value of the first entry with key `k`.
pub fn find_field<'a>(m: &'a Vec<(String, GenericValue)>, k: &str) -> (r: Option<&'a GenericValue>)
    ensures
        match r {
            Some(x) => field(entries_view(m@), k@) == Some(x@),
            None => field(entries_view(m@), k@) is None,
        },
{
    let ghost mv = entries_view(m@);
    let key = String::from_str(k);
    let mut i: usize = 0;
    assert(mv.skip(0) =~= mv);
    while i < m.len()
        invariant
            i <= m.len(),
            mv == entries_view(m@),
            key@ == k@,
            field(mv, k@) == field(mv.skip(i as int), k@),
        decreases m.len() - i,
    {
        assert(mv.skip(i as int).drop_first() =~= mv.skip(i + 1));
        assert(mv.skip(i as int)[0] == mv[i as int]);
        assert(mv[i as int] == (m[i as int].0@, m[i as int].1@));
        assert(mv.skip(i as int).len() > 0);
        if m[i].0 == key {
            return Some(&m[i].1);
        }
        i += 1;
    }
    None
}

/// Reads a required field.
pub fn required<T: FromValue>(m: &Vec<(String, GenericValue)>, k: &str) -> (r: Result<T, MappingError>)
    ensures
        r is Ok <==> required_ok::<T>(entries_view(m@), k@),
        r is Ok ==> required_is::<T>(entries_view(m@), k@, r->Ok_0),
        r is Err ==> r->Err_0 is MissingField || r->Err_0 is TypeMismatch,
        r is Err ==> (r->Err_0 is MissingField <==> required_missing::<T>(entries_view(m@), k@)),
        field(entries_view(m@), k@) is None ==> r is Err && r->Err_0 is MissingField,
{
    match find_field(m, k) {
        Some(x) => T::from_value(x),
        None => Err(MappingError::MissingField(String::from_str(k))),
    }
}

/// Reads an optional field.
pub fn optional<T: FromValue>(m: &Vec<(String, GenericValue)>, k: &str) -> (r: Result<Option<T>, MappingError>)
    ensures
        r is Ok <==> optional_ok::<T>(entries_view(m@), k@),
        r is Ok ==> optional_is::<T>(entries_view(m@), k@, r->Ok_0),
        r is Err ==> r->Err_0 is MissingField || r->Err_0 is TypeMismatch,
        r is Err ==> (r->Err_0 is MissingField <==> optional_missing::<T>(entries_view(m@), k@)),
{
    match find_field(m, k) {
        None => Ok(None),
        Some(GenericValue::Null) => Ok(None),
        Some(x) => match T::from_value(x) {
            Ok(y) => Ok(Some(y)),
            Err(e) => Err(e),
        },
    }
}


/// An entry under another key does not change what a field reads, wherever
/// it stands.
pub proof fn lemma_field_insert(m: Seq<(Seq<char>, Json)>, i: int, k: Seq<char>, x: Json, k2: Seq<char>)
    requires
        0 <= i <= m.len(),
        k != k2,
    ensures
        field(m.insert(i, (k, x)), k2) == field(m, k2),
    decreases m.len(),
{
    if i == 0 {
        assert(m.insert(0, (k, x)).drop_first() =~= m);
    } else {
        assert(m.insert(i, (k, x))[0] == m[0]);
        assert(m.insert(i, (k, x)).drop_first() =~= m.drop_first().insert(i - 1, (k, x)));
        lemma_field_insert(m.drop_first(), i - 1, k, x, k2);
    }
}

} // verus!
