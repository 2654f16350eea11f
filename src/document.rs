//! XML text: reading a document into a tree and writing a tree out, both
//! done by the xmltree crate.
use vstd::prelude::*;
use crate::error::MappingError;
use crate::xml::{XmlElement, XmlNode, ElementModel};

verus! {

#[verifier::external_type_specification]
#[verifier::external_body]
pub struct ExXmlTreeElement(xmltree::Element);

#[verifier::external_type_specification]
#[verifier::external_body]
pub struct ExXmlTreeNode(xmltree::XMLNode);

#[verifier::external_type_specification]
#[verifier::external_body]
pub struct ExXmlTreeParseError(xmltree::ParseError);

#[verifier::external_type_specification]
#[verifier::external_body]
pub struct ExXmlTreeEmitError(xmltree::Error);

/// The root element that xmltree's parser builds from a text, or `None`
/// where it rejects the text.
pub uninterp spec fn parsed_tree(text: Seq<char>) -> Option<ElementModel>;

/// The text that xmltree's emitter writes for a tree, indented and without
/// an XML declaration, or `None` where it fails.
pub uninterp spec fn emitted_text(e: ElementModel) -> Option<Seq<char>>;

/// Copies an xmltree element into an [`XmlElement`], node for node; the
/// namespace prefix is not kept.
#[verifier::external_body]
fn element_from_xmltree(e: &xmltree::Element) -> XmlElement {
    XmlElement {
        name: e.name.clone(),
        attributes: e.attributes.iter().map(|(k, v)| (k.clone(), v.clone())).collect(),
        children: e.children.iter().map(node_from_xmltree).collect(),
    }
}

/// Copies one xmltree node into a [`XmlNode`].
#[verifier::external_body]
fn node_from_xmltree(n: &xmltree::XMLNode) -> XmlNode {
    match n {
        xmltree::XMLNode::Element(e) => XmlNode::Element(element_from_xmltree(e)),
        xmltree::XMLNode::Text(t) => XmlNode::Text(t.clone()),
        xmltree::XMLNode::CData(t) => XmlNode::CData(t.clone()),
        xmltree::XMLNode::Comment(t) => XmlNode::Comment(t.clone()),
        xmltree::XMLNode::ProcessingInstruction(n, d) => XmlNode::ProcessingInstruction(n.clone(), d.clone()),
    }
}

/// Copies an [`XmlElement`] into an xmltree element, node for node.
#[verifier::external_body]
fn element_to_xmltree(e: &XmlElement) -> xmltree::Element {
    let mut out = xmltree::Element::new(&e.name);
    out.attributes = e.attributes.iter().map(|(k, v)| (k.clone(), v.clone())).collect();
    out.children = e.children.iter().map(node_to_xmltree).collect();
    out
}

/// Copies one [`XmlNode`] into an xmltree node.
#[verifier::external_body]
fn node_to_xmltree(n: &XmlNode) -> xmltree::XMLNode {
    match n {
        XmlNode::Element(e) => xmltree::XMLNode::Element(element_to_xmltree(e)),
        XmlNode::Text(t) => xmltree::XMLNode::Text(t.clone()),
        XmlNode::CData(t) => xmltree::XMLNode::CData(t.clone()),
        XmlNode::Comment(t) => xmltree::XMLNode::Comment(t.clone()),
        XmlNode::ProcessingInstruction(n, d) => xmltree::XMLNode::ProcessingInstruction(n.clone(), d.clone()),
    }
}

/// Relies on xmltree::Element::parse: the root element of a well-formed
/// text, or an error; the result depends on the text alone.
#[verifier::external_body]
fn parse_tree(text: &str) -> (r: Result<XmlElement, xmltree::ParseError>)
    ensures
        r is Ok <==> parsed_tree(text@) is Some,
        r is Ok ==> parsed_tree(text@) == Some(r->Ok_0@),
{
    match xmltree::Element::parse(text.as_bytes()) {
        Ok(e) => Ok(element_from_xmltree(&e)),
        Err(err) => Err(err),
    }
}

/// Relies on the Display impl of xmltree::ParseError: a message that gives
/// the position of the fault.
#[verifier::external_body]
fn parse_error_message(err: &xmltree::ParseError) -> String {
    err.to_string()
}

/// Relies on xmltree::Element::write_with_config, with indentation on and
/// the XML declaration off: the text of a tree, or an error; the result
/// depends on the tree alone.
#[verifier::external_body]
fn write_tree(e: &XmlElement) -> (r: Result<String, xmltree::Error>)
    ensures
        r is Ok <==> emitted_text(e@) is Some,
        r is Ok ==> emitted_text(e@) == Some(r->Ok_0@),
{
    let mut buffer: Vec<u8> = Vec::new();
    let config = xmltree::EmitterConfig::new().perform_indent(true).write_document_declaration(false);
    match element_to_xmltree(e).write_with_config(&mut buffer, config) {
        Ok(()) => Ok(String::from_utf8_lossy(&buffer).into_owned()),
        Err(err) => Err(err),
    }
}

/// Relies on the Display impl of xmltree::Error: a message that says why
/// writing failed.
#[verifier::external_body]
fn emit_error_message(err: &xmltree::Error) -> String {
    err.to_string()
}

/// Parses XML text into its root element. Fails with a parse error exactly
/// where the text is not a well-formed document, and then builds no tree.
pub fn parse(text: &str) -> (r: Result<XmlElement, MappingError>)
    ensures
        r is Ok <==> parsed_tree(text@) is Some,
        r is Ok ==> parsed_tree(text@) == Some(r->Ok_0@),
        r is Err ==> r->Err_0 is Parse,
{
    match parse_tree(text) {
        Ok(e) => Ok(e),
        Err(err) => Err(MappingError::Parse(parse_error_message(&err))),
    }
}

/// Writes an element out as indented XML text without a declaration.
pub fn emit(e: &XmlElement) -> (r: Result<String, MappingError>)
    ensures
        r is Ok <==> emitted_text(e@) is Some,
        r is Ok ==> emitted_text(e@) == Some(r->Ok_0@),
        r is Err ==> r->Err_0 is Io,
{
    match write_tree(e) {
        Ok(s) => Ok(s),
        Err(err) => Err(MappingError::Io(emit_error_message(&err))),
    }
}

} // verus!
