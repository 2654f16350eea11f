//! The XML element tree and its mathematical model.
use vstd::prelude::*;

verus! {

/// An XML element: a tag, attributes in insertion order, and ordered
/// children.
#[derive(Debug, PartialEq, Eq)]
pub struct XmlElement {
    pub name: String,
    pub attributes: Vec<(String, String)>,
    pub children: Vec<XmlNode>,
}

/// A child of an element.
#[derive(Debug, PartialEq, Eq)]
pub enum XmlNode {
    Text(String),
    Element(XmlElement),
    CData(String),
    Comment(String),
    ProcessingInstruction(String, Option<String>),
}

/// The mathematical model of an [`XmlElement`].
pub struct ElementModel {
    pub name: Seq<char>,
    pub attributes: Seq<(Seq<char>, Seq<char>)>,
    pub children: Seq<NodeModel>,
}

/// The mathematical model of a [`XmlNode`].
pub enum NodeModel {
    Text(Seq<char>),
    Element(ElementModel),
    CData(Seq<char>),
    Comment(Seq<char>),
    ProcessingInstruction(Seq<char>, Option<Seq<char>>),
}

impl XmlElement {
    pub open spec fn view(&self) -> ElementModel
        decreases self,
    {
        ElementModel {
            name: self.name@,
            attributes: attrs_view(self.attributes@),
            children: Seq::new(
                self.children.len() as nat,
                |i: int|
                    if 0 <= i < self.children.len() {
                        self.children[i].view()
                    } else {
                        NodeModel::Text(Seq::empty())
                    },
            ),
        }
    }

    /// An element with the given tag and nothing in it.
    pub fn new(name: &str) -> (r: XmlElement)
        ensures
            r@ == (ElementModel { name: name@, attributes: seq![], children: seq![] }),
    {
        let r = XmlElement { name: String::from_str(name), attributes: Vec::new(), children: Vec::new() };
        proof {
            assert(r@.attributes =~= seq![]);
            assert(r@.children =~= seq![]);
        }
        r
    }
}

impl XmlNode {
    pub open spec fn view(&self) -> NodeModel
        decreases self,
    {
        match self {
            XmlNode::Text(t) => NodeModel::Text(t@),
            XmlNode::Element(e) => NodeModel::Element(e.view()),
            XmlNode::CData(t) => NodeModel::CData(t@),
            XmlNode::Comment(t) => NodeModel::Comment(t@),
            XmlNode::ProcessingInstruction(n, d) => NodeModel::ProcessingInstruction(
                n@,
                match d {
                    Some(d) => Some(d@),
                    None => None,
                },
            ),
        }
    }
}

/// The model of a list of attributes.
pub open spec fn attrs_view(a: Seq<(String, String)>) -> Seq<(Seq<char>, Seq<char>)> {
    Seq::new(a.len(), |i: int| (a[i].0@, a[i].1@))
}

/// The model of a list of children.
pub open spec fn nodes_view(s: Seq<XmlNode>) -> Seq<NodeModel> {
    Seq::new(s.len(), |i: int| s[i]@)
}

/// The children list of an element is modelled node by node.
pub proof fn lemma_children_view(e: XmlElement)
    ensures
        e@.children == nodes_view(e.children@),
{
    assert(e@.children =~= nodes_view(e.children@));
}

} // verus!
