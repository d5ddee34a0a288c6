//! Reading XML text into the library's tree, through the `sxd_document` parser.
use vstd::prelude::*;

use crate::dom::{XmlAttribute, XmlDocument, XmlElement, XmlName, XmlNamespace, XmlNode};
use sxd_document::dom::Element as DomElement;

verus! {

#[verifier::external_type_specification]
#[verifier::external_body]
pub struct ExSxdParseError(sxd_document::parser::Error);

#[verifier::external_type_specification]
#[verifier::external_body]
pub struct ExSxdRoot<'d>(sxd_document::dom::Root<'d>);

#[verifier::external_type_specification]
#[verifier::external_body]
pub struct ExSxdElement<'d>(DomElement<'d>);

#[verifier::external_type_specification]
#[verifier::external_body]
pub struct ExSxdQName<'s>(sxd_document::QName<'s>);

/// Text that is not well-formed XML.
#[derive(Debug, PartialEq, Eq)]
pub struct XmlSyntaxError;

/// Relies on sxd_document::parser::parse to build the DOM of `text`, which is
/// then copied node for node into the library's tree. Nothing is assumed of
/// the tree it yields.
#[verifier::external_body]
fn parse_with_sxd(text: &str) -> (r: Result<XmlDocument, sxd_document::parser::Error>) {
    match sxd_document::parser::parse(text) {
        Ok(package) => Ok(document_from_sxd(package.as_document().root())),
        Err(e) => Err(e),
    }
}

/// Copies the element children of an sxd_document root (comments and
/// processing instructions are left out). Relies on Root::children.
#[verifier::external_body]
fn document_from_sxd<'d>(root: sxd_document::dom::Root<'d>) -> (r: XmlDocument) {
    let children = root.children().into_iter().filter_map(|c| c.element());
    XmlDocument { children: children.map(element_from_sxd).collect() }
}

/// Copies an sxd_document name. Relies on QName::namespace_uri and
/// QName::local_part.
#[verifier::external_body]
fn name_from_sxd<'d>(q: sxd_document::QName<'d>) -> (r: XmlName) {
    XmlName {
        namespace_uri: q.namespace_uri().map(String::from),
        local_part: q.local_part().to_string(),
    }
}

/// Copies an sxd_document element: its name, attributes, the namespaces in
/// scope on it, the default namespace in scope and its children. Relies on
/// Element::name, Element::attributes, Attribute::name, Attribute::value and
/// Element::recursive_default_namespace_uri.
#[verifier::external_body]
fn element_from_sxd<'d>(e: DomElement<'d>) -> (r: XmlElement) {
    let attributes = e.attributes().into_iter().map(
        |a| XmlAttribute { name: name_from_sxd(a.name()), value: a.value().to_string() },
    );
    XmlElement {
        name: name_from_sxd(e.name()),
        attributes: attributes.collect(),
        namespaces: namespaces_from_sxd(e),
        default_namespace: e.recursive_default_namespace_uri().map(String::from),
        children: children_from_sxd(e),
    }
}

/// Copies the prefixes in scope on an sxd_document element. Relies on
/// Element::namespaces_in_scope, Namespace::prefix and Namespace::uri.
#[verifier::external_body]
fn namespaces_from_sxd<'d>(e: DomElement<'d>) -> (r: Vec<XmlNamespace>) {
    let namespaces = e.namespaces_in_scope().into_iter();
    namespaces.map(|n| XmlNamespace { prefix: n.prefix().to_string(), uri: n.uri().to_string() }).collect()
}

/// Copies the element and text children of an sxd_document element (comments
/// and processing instructions are left out). Relies on Element::children and
/// Text::text.
#[verifier::external_body]
fn children_from_sxd<'d>(e: DomElement<'d>) -> (r: Vec<XmlNode>) {
    let children = e.children().into_iter().filter_map(|c| match c {
        sxd_document::dom::ChildOfElement::Element(c) => Some(XmlNode::Element(element_from_sxd(c))),
        sxd_document::dom::ChildOfElement::Text(t) => Some(XmlNode::Text(t.text().to_string())),
        _ => None,
    });
    children.collect()
}

/// Parses XML text into a document tree.
pub fn parse_document(text: &str) -> (r: Result<XmlDocument, XmlSyntaxError>) {
    match parse_with_sxd(text) {
        Ok(doc) => Ok(doc),
        Err(_) => Err(XmlSyntaxError),
    }
}

} // verus!
