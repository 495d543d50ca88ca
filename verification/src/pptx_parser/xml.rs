//! The XML of a PPTX part, as the analysis reads it: the document's nodes in
//! document order (the document node first), each with its local tag name,
//! its attributes and the position of its parent.

use vstd::prelude::*;

use crate::text::str_eq;

verus! {

/// An attribute: namespace URI, local name, value.
#[derive(Debug, Clone)]
pub struct XmlAttribute {
    pub namespace: Option<String>,
    pub name: String,
    pub value: String,
}

/// A node of a parsed XML document.
#[derive(Debug, Clone)]
pub struct XmlNode {
    /// Local tag name; empty for nodes that are not elements.
    pub name: String,
    pub is_element: bool,
    /// Position of the parent node in the document's node list.
    pub parent: Option<usize>,
    pub attributes: Vec<XmlAttribute>,
}

/// An attribute as a value.
pub ghost struct XmlAttributeView {
    pub namespace: Option<Seq<char>>,
    pub name: Seq<char>,
    pub value: Seq<char>,
}

/// A node as a value.
pub ghost struct XmlNodeView {
    pub name: Seq<char>,
    pub is_element: bool,
    pub parent: Option<int>,
    pub attributes: Seq<XmlAttributeView>,
}

/// An optional string as an optional character sequence.
pub open spec fn opt_view(o: Option<String>) -> Option<Seq<char>> {
    match o {
        Some(s) => Some(s@),
        None => None,
    }
}

impl View for XmlAttribute {
    type V = XmlAttributeView;

    open spec fn view(&self) -> XmlAttributeView {
        XmlAttributeView { namespace: opt_view(self.namespace), name: self.name@, value: self.value@ }
    }
}

impl View for XmlNode {
    type V = XmlNodeView;

    open spec fn view(&self) -> XmlNodeView {
        XmlNodeView {
            name: self.name@,
            is_element: self.is_element,
            parent: match self.parent {
                Some(p) => Some(p as int),
                None => None,
            },
            attributes: self.attributes@.map_values(|a: XmlAttribute| a@),
        }
    }
}

/// The nodes of a document as values.
pub open spec fn nodes_view(v: Seq<XmlNode>) -> Seq<XmlNodeView> {
    v.map_values(|n: XmlNode| n@)
}

/// What `roxmltree::Document::parse` makes of `text`: the document's nodes
/// in document order as values, or the text of the parse error.
pub uninterp spec fn xml_document(text: Seq<char>) -> Result<Seq<XmlNodeView>, Seq<char>>;

/// `roxmltree::Document::parse`, with the document turned into its node list
/// (`descendants()` of the document node, each node's parent given by its
/// `NodeId`, which is its position in that list). The result, node list or
/// error text, is a function of the text alone, named `xml_document`.
#[verifier::external_body]
pub(crate) fn parse_xml(text: &str) -> (r: Result<Vec<XmlNode>, String>)
    ensures
        match r {
            Ok(v) => xml_document(text@) == Ok::<Seq<XmlNodeView>, Seq<char>>(nodes_view(v@)),
            Err(e) => xml_document(text@) == Err::<Seq<XmlNodeView>, Seq<char>>(e@),
        },
{
    match roxmltree::Document::parse(text) {
        Ok(doc) => Ok(doc.descendants().map(|n| XmlNode {
            name: n.tag_name().name().to_string(),
            is_element: n.is_element(),
            parent: n.parent().map(|p| p.id().get_usize()),
            attributes: n.attributes().map(|a| XmlAttribute { namespace: a.namespace().map(|s| s.to_string()), name: a.name().to_string(), value: a.value().to_string() }).collect(),
        }).collect()),
        Err(e) => Err(e.to_string()),
    }
}


/// `Node::attribute(name)` for a plain name: the value of the first
/// attribute whose local name is `name`, whatever its namespace.
pub open spec fn attribute_value(attrs: Seq<XmlAttributeView>, name: Seq<char>) -> Option<Seq<char>>
    decreases attrs.len(),
{
    if attrs.len() == 0 {
        None
    } else if attrs[0].name == name {
        Some(attrs[0].value)
    } else {
        attribute_value(attrs.drop_first(), name)
    }
}

/// `Node::attribute((ns, name))`: the value of the first attribute in
/// namespace `ns` with local name `name`.
pub open spec fn attribute_value_ns(attrs: Seq<XmlAttributeView>, ns: Seq<char>, name: Seq<char>) -> Option<
    Seq<char>,
>
    decreases attrs.len(),
{
    if attrs.len() == 0 {
        None
    } else if attrs[0].namespace == Some(ns) && attrs[0].name == name {
        Some(attrs[0].value)
    } else {
        attribute_value_ns(attrs.drop_first(), ns, name)
    }
}

/// The value of the attribute of `node` with local name `name`.
pub fn attribute(node: &XmlNode, name: &str) -> (r: Option<String>)
    ensures
        opt_view(r) == attribute_value(node@.attributes, name@),
{
    let ghost attrs = node@.attributes;
    assert(attrs.skip(0) =~= attrs);
    let mut i: usize = 0;
    while i < node.attributes.len()
        invariant
            i <= node.attributes.len(),
            attrs == node.attributes@.map_values(|a: XmlAttribute| a@),
            attribute_value(attrs, name@) == attribute_value(attrs.skip(i as int), name@),
        decreases node.attributes.len() - i,
    {
        assert(attrs.skip(i as int)[0] == node.attributes@[i as int]@);
        if str_eq(node.attributes[i].name.as_str(), name) {
            return Some(node.attributes[i].value.clone());
        }
        assert(attrs.skip(i as int).drop_first() =~= attrs.skip(i + 1));
        i = i + 1;
    }
    None
}

/// The value of the attribute of `node` in namespace `ns` with local name
/// `name`.
pub fn attribute_ns(node: &XmlNode, ns: &str, name: &str) -> (r: Option<String>)
    ensures
        opt_view(r) == attribute_value_ns(node@.attributes, ns@, name@),
{
    let ghost attrs = node@.attributes;
    assert(attrs.skip(0) =~= attrs);
    let mut i: usize = 0;
    while i < node.attributes.len()
        invariant
            i <= node.attributes.len(),
            attrs == node.attributes@.map_values(|a: XmlAttribute| a@),
            attribute_value_ns(attrs, ns@, name@) == attribute_value_ns(attrs.skip(i as int), ns@, name@),
        decreases node.attributes.len() - i,
    {
        let a = &node.attributes[i];
        assert(attrs.skip(i as int)[0] == a@);
        let same_ns = match &a.namespace {
            Some(x) => str_eq(x.as_str(), ns),
            None => false,
        };
        if same_ns && str_eq(a.name.as_str(), name) {
            return Some(a.value.clone());
        }
        assert(attrs.skip(i as int).drop_first() =~= attrs.skip(i + 1));
        i = i + 1;
    }
    None
}

} // verus!
