//! The entry points: from a value or a record to XML text, and from XML
//! text to a normalized value.
use vstd::prelude::*;
use crate::error::MappingError;
use crate::value::{GenericValue, normalize, normalize_model};
use crate::encode::{encode, encodable, encode_model};
use crate::decode::{decode, decode_model};
use crate::document::{parse, emit, parsed_tree, emitted_text};
use crate::record::{ToValue, FromValue};

verus! {

/// Encodes `v` under the tag `root` and writes it out as XML text. Fails
/// with an encoding error exactly where `v` is not encodable, and
/// otherwise gives the text of the encoded tree.
pub fn value_to_xml_text(v: &GenericValue, root: &str) -> (r: Result<String, MappingError>)
    ensures
        !encodable(v@) ==> r is Err && r->Err_0 is Encoding,
        encodable(v@) ==> (r is Ok <==> emitted_text(encode_model(v@, root@)) is Some),
        encodable(v@) && r is Err ==> r->Err_0 is Io,
        r is Ok ==> emitted_text(encode_model(v@, root@)) == Some(r->Ok_0@),
{
    match encode(v, root) {
        Ok(e) => emit(&e),
        Err(err) => Err(err),
    }
}

/// Parses XML text, decodes its root element and normalizes the result.
/// Fails with a parse error exactly where the text is not well-formed.
pub fn xml_text_to_value(text: &str) -> (r: Result<GenericValue, MappingError>)
    ensures
        r is Ok <==> parsed_tree(text@) is Some,
        r is Ok ==> r->Ok_0@ == normalize_model(decode_model(parsed_tree(text@)->0)),
        r is Err ==> r->Err_0 is Parse,
{
    match parse(text) {
        Ok(e) => {
            let v = decode(&e);
            Ok(normalize(&v))
        },
        Err(err) => Err(err),
    }
}

/// Writes a record out as XML text under the tag `root_name`.
pub fn struct_to_xml<T: ToValue>(value: &T, root_name: &str) -> (r: Result<String, MappingError>)
    ensures
        !encodable(value.value_model()) ==> r is Err && r->Err_0 is Encoding,
        encodable(value.value_model()) ==> (r is Ok <==> emitted_text(
            encode_model(value.value_model(), root_name@),
        ) is Some),
        encodable(value.value_model()) && r is Err ==> r->Err_0 is Io,
        r is Ok ==> emitted_text(encode_model(value.value_model(), root_name@)) == Some(r->Ok_0@),
{
    let v = value.to_value();
    value_to_xml_text(&v, root_name)
}


/// Parses XML text, decodes and normalizes it, and reads a record from the
/// result. Fails with a parse error where the text is not well-formed, and
/// with a missing-field or type-mismatch error where the value does not
/// give a record, the first for an absent field and the second for a value
/// of the wrong shape.
pub fn xml_to_struct<T: FromValue>(xml: &str) -> (r: Result<T, MappingError>)
    ensures
        parsed_tree(xml@) is None ==> r is Err && r->Err_0 is Parse,
        parsed_tree(xml@) is Some ==> (r is Ok <==> T::accepts(
            normalize_model(decode_model(parsed_tree(xml@)->0)),
        )),
        r is Ok ==> T::read_as(normalize_model(decode_model(parsed_tree(xml@)->0)), r->Ok_0),
        parsed_tree(xml@) is Some && r is Err ==> r->Err_0 is MissingField || r->Err_0 is TypeMismatch,
        parsed_tree(xml@) is Some && r is Err ==> (r->Err_0 is MissingField <==> T::missing(
            normalize_model(decode_model(parsed_tree(xml@)->0)),
        )),
{
    match xml_text_to_value(xml) {
        Ok(v) => T::from_value(&v),
        Err(e) => Err(e),
    }
}

} // verus!
