use vm_xml::convert::{struct_to_xml, value_to_xml_text, xml_text_to_value};
use vm_xml::decode::decode;
use vm_xml::document::{emit, parse};
use vm_xml::encode::encode;
use vm_xml::error::MappingError;
use vm_xml::install::installation_domain_xml;
use vm_xml::types::{Boot, Empty, Memory};
use vm_xml::value::{normalize, GenericValue};
use vm_xml::xml::{XmlElement, XmlNode};

fn s(x: &str) -> GenericValue {
    GenericValue::Str(x.to_string())
}

fn obj(entries: Vec<(&str, GenericValue)>) -> GenericValue {
    GenericValue::Object(entries.into_iter().map(|(k, v)| (k.to_string(), v)).collect())
}

fn elem(name: &str, attributes: Vec<(&str, &str)>, children: Vec<XmlNode>) -> XmlElement {
    XmlElement {
        name: name.to_string(),
        attributes: attributes.into_iter().map(|(k, v)| (k.to_string(), v.to_string())).collect(),
        children,
    }
}

#[test]
fn attribute_round_trip() {
    let v = obj(vec![("@unit", s("MiB")), ("#text", s("2048"))]);
    let e = encode(&v, "memory").unwrap();
    assert_eq!(e, elem("memory", vec![("unit", "MiB")], vec![XmlNode::Text("2048".to_string())]));
    let text = value_to_xml_text(&v, "memory").unwrap();
    assert!(text.contains("<memory unit=\"MiB\">2048</memory>"), "{}", text);
    assert_eq!(xml_text_to_value(&text).unwrap(), v);
}

#[test]
fn repetition_fans_out_in_order() {
    let v = obj(vec![("disk", GenericValue::Array(vec![obj(vec![("@device", s("cdrom"))]), obj(vec![("@device", s("disk"))])]))]);
    let e = encode(&v, "devices").unwrap();
    assert_eq!(
        e.children,
        vec![
            XmlNode::Element(elem("disk", vec![("device", "cdrom")], vec![])),
            XmlNode::Element(elem("disk", vec![("device", "disk")], vec![])),
        ]
    );
    let text = value_to_xml_text(&v, "devices").unwrap();
    let first = text.find("cdrom").unwrap();
    let second = text.find("\"disk\"").unwrap();
    assert!(first < second);
}

#[test]
fn two_siblings_decode_to_array() {
    let back = xml_text_to_value("<devices><disk device=\"cdrom\"/><disk device=\"disk\"/></devices>").unwrap();
    let want = obj(vec![("disk", GenericValue::Array(vec![obj(vec![("@device", s("cdrom"))]), obj(vec![("@device", s("disk"))])]))]);
    assert_eq!(back, want);
}

#[test]
fn one_sibling_decodes_to_bare_object() {
    let back = xml_text_to_value("<devices><disk device=\"cdrom\"/></devices>").unwrap();
    assert_eq!(back, obj(vec![("disk", obj(vec![("@device", s("cdrom"))]))]));
}

#[test]
fn three_siblings_grow_the_array() {
    let back = xml_text_to_value("<os><boot dev=\"a\"/><boot dev=\"b\"/><boot dev=\"c\"/></os>").unwrap();
    let items = vec![obj(vec![("@dev", s("a"))]), obj(vec![("@dev", s("b"))]), obj(vec![("@dev", s("c"))])];
    assert_eq!(back, obj(vec![("boot", GenericValue::Array(items))]));
}

#[test]
fn null_becomes_empty_tag() {
    let v = obj(vec![("readonly", GenericValue::Null)]);
    let e = encode(&v, "disk").unwrap();
    assert_eq!(e.children, vec![XmlNode::Element(elem("readonly", vec![], vec![]))]);
    let text = value_to_xml_text(&v, "disk").unwrap();
    assert!(text.contains("<readonly"), "{}", text);
    assert!(!text.contains("</readonly>"), "{}", text);
}

#[test]
fn childless_element_decodes_to_null() {
    assert_eq!(decode(&elem("readonly", vec![], vec![])), GenericValue::Null);
    assert_eq!(xml_text_to_value("<disk><readonly/></disk>").unwrap(), obj(vec![("readonly", GenericValue::Null)]));
}

#[test]
fn normalize_is_idempotent() {
    let v = obj(vec![("#text", obj(vec![("#text", s("x"))]))]);
    let once = normalize(&v);
    assert_eq!(once, s("x"));
    assert_eq!(normalize(&once), once);
    let kept = obj(vec![("@unit", s("MiB")), ("#text", s("2048"))]);
    assert_eq!(normalize(&kept), kept);
    let nested = GenericValue::Array(vec![obj(vec![("#text", s("a"))]), GenericValue::Null]);
    assert_eq!(normalize(&nested), GenericValue::Array(vec![s("a"), GenericValue::Null]));
    assert_eq!(normalize(&normalize(&nested)), normalize(&nested));
}

#[test]
fn unknown_element_keeps_known_fields() {
    let back = xml_text_to_value("<memory unit=\"MiB\"><extra/>2048</memory>").unwrap();
    assert_eq!(back, obj(vec![("@unit", s("MiB")), ("extra", GenericValue::Null), ("#text", s("2048"))]));
}

#[test]
fn mismatched_close_tag_is_rejected() {
    assert!(matches!(parse("<a><b></a>"), Err(MappingError::Parse(_))));
    assert!(matches!(xml_text_to_value("<a><b></a>"), Err(MappingError::Parse(_))));
}

#[test]
fn structured_attribute_is_an_encoding_error() {
    let v = obj(vec![("@unit", GenericValue::Array(vec![]))]);
    assert_eq!(encode(&v, "memory"), Err(MappingError::Encoding("@unit".to_string())));
    let nested = obj(vec![("inner", obj(vec![("@a", obj(vec![]))]))]);
    assert_eq!(value_to_xml_text(&nested, "a"), Err(MappingError::Encoding("@a".to_string())));
}

#[test]
fn scalars_are_stringified() {
    let v = obj(vec![
        ("@on", GenericValue::Bool(true)),
        ("n", GenericValue::Number("5".to_string())),
        ("b", GenericValue::Bool(false)),
        ("z", GenericValue::Null),
    ]);
    let e = encode(&v, "r").unwrap();
    assert_eq!(
        e,
        elem(
            "r",
            vec![("on", "true")],
            vec![
                XmlNode::Element(elem("n", vec![], vec![XmlNode::Text("5".to_string())])),
                XmlNode::Element(elem("b", vec![], vec![XmlNode::Text("false".to_string())])),
                XmlNode::Element(elem("z", vec![], vec![])),
            ]
        )
    );
}

#[test]
fn non_object_root_is_empty_element() {
    assert_eq!(encode(&s("x"), "root").unwrap(), elem("root", vec![], vec![]));
    assert_eq!(encode(&GenericValue::Array(vec![s("x")]), "root").unwrap(), elem("root", vec![], vec![]));
}

#[test]
fn later_text_replaces_earlier() {
    let back = xml_text_to_value("<a>foo<b/>bar</a>").unwrap();
    assert_eq!(back, obj(vec![("#text", s("bar")), ("b", GenericValue::Null)]));
}

#[test]
fn character_data_leaf_is_a_string() {
    let e = elem("a", vec![], vec![XmlNode::CData("x".to_string()), XmlNode::Comment("c".to_string())]);
    assert_eq!(decode(&e), s("x"));
    assert_eq!(xml_text_to_value("<r><a><![CDATA[x]]></a></r>").unwrap(), obj(vec![("a", s("x"))]));
}

#[test]
fn text_leaf_collapses_after_normalize() {
    let e = elem("name", vec![], vec![XmlNode::Text("vm1".to_string())]);
    assert_eq!(decode(&e), obj(vec![("#text", s("vm1"))]));
    assert_eq!(xml_text_to_value("<d><name>vm1</name></d>").unwrap(), obj(vec![("name", s("vm1"))]));
}

#[test]
fn emit_then_parse_gives_the_tree() {
    let e = elem("d", vec![("type", "kvm")], vec![XmlNode::Element(elem("name", vec![], vec![XmlNode::Text("vm1".to_string())]))]);
    let text = emit(&e).unwrap();
    assert!(!text.starts_with("<?xml"), "{}", text);
    assert_eq!(parse(&text).unwrap(), e);
}

#[test]
fn records_encode_by_field() {
    let m = Memory { unit: "MiB".to_string(), value: "512".to_string() };
    let text = struct_to_xml(&m, "memory").unwrap();
    assert!(text.contains("<memory unit=\"MiB\">512</memory>"), "{}", text);
    let b = Boot { dev: "hd".to_string() };
    assert!(struct_to_xml(&b, "boot").unwrap().contains("<boot dev=\"hd\""));
    assert!(struct_to_xml(&Empty {}, "readonly").unwrap().contains("<readonly"));
}

#[test]
fn installation_definition_has_its_devices() {
    let text = installation_domain_xml(
        "vm1",
        2048,
        3,
        "/images/vm1.qcow2".to_string(),
        "/images/vm1-seed.iso".to_string(),
        "0b6c6b1e-2f4f-4a8e-9a3b-1c2d3e4f5a6b".to_string(),
    )
    .unwrap();
    for part in [
        "<domain type=\"kvm\">",
        "<name>vm1</name>",
        "<uuid>0b6c6b1e-2f4f-4a8e-9a3b-1c2d3e4f5a6b</uuid>",
        "<type arch=\"x86_64\" machine=\"pc-q35-6.2\">hvm</type>",
        "<memory unit=\"MiB\">2048</memory>",
        "<currentMemory unit=\"MiB\">2048</currentMemory>",
        "<vcpu placement=\"static\">3</vcpu>",
        "<source file=\"/images/vm1-seed.iso\"",
        "<source file=\"/images/vm1.qcow2\"",
        "<source bridge=\"virbr0\"",
        "<graphics type=\"vnc\" port=\"-1\" autoport=\"yes\"",
        "<target type=\"isa-serial\" port=\"0\"",
    ] {
        assert!(text.contains(part), "{} not in {}", part, text);
    }
    assert_eq!(text.matches("<disk ").count(), 2);
    assert_eq!(text.matches("<readonly").count(), 1);
    let back = xml_text_to_value(&text).unwrap();
    match back {
        GenericValue::Object(m) => assert_eq!(m[1], ("name".to_string(), s("vm1"))),
        other => panic!("{:?}", other),
    }
}

#[test]
fn regular_document_round_trips() {
    let disk = |dev: &str, file: &str| {
        obj(vec![
            ("@device", s(dev)),
            ("source", obj(vec![("@file", s(file))])),
            ("target", obj(vec![("@dev", s("vda")), ("#text", s("t"))])),
        ])
    };
    let v = obj(vec![
        ("@type", s("kvm")),
        ("name", s("vm1")),
        ("devices", obj(vec![("disk", GenericValue::Array(vec![disk("cdrom", "/a.iso"), disk("disk", "/b.qcow2")]))])),
    ]);
    let text = value_to_xml_text(&v, "domain").unwrap();
    assert_eq!(xml_text_to_value(&text).unwrap(), v);
}

#[test]
fn numbers_come_back_as_strings() {
    let v = obj(vec![("n", GenericValue::Number("5".to_string()))]);
    let text = value_to_xml_text(&v, "r").unwrap();
    assert_eq!(xml_text_to_value(&text).unwrap(), obj(vec![("n", s("5"))]));
}

#[test]
fn structured_text_is_written_as_json() {
    let t = obj(vec![("#text", GenericValue::Array(vec![s("a"), GenericValue::Number("1".to_string())]))]);
    let e = encode(&t, "a").unwrap();
    assert_eq!(e.children, vec![XmlNode::Text("[\"a\",1]".to_string())]);
    let o = obj(vec![("inner", obj(vec![("#text", obj(vec![("k", GenericValue::Bool(true))]))]))]);
    let e = encode(&o, "a").unwrap();
    match &e.children[0] {
        XmlNode::Element(c) => assert_eq!(c.children, vec![XmlNode::Text("{\"k\":true}".to_string())]),
        other => panic!("{:?}", other),
    }
    assert!(value_to_xml_text(&obj(vec![("#text", obj(vec![]))]), "a").unwrap().contains("<a>{}</a>"));
}
