//! Extractors for the attributes that many schema constructs share: `id`,
//! booleans with a default, and attributes from other namespaces.
use vstd::prelude::*;

use crate::dom::{
    attr_value, attr_views, attribute, opt_str, AttrView, XmlAttribute, XmlElement, XmlNode,
    XSD_NS_URI,
};
use crate::text::{str_eq, string_views};

verus! {

/// A document-scoped identifier (the `id` attribute).
#[derive(Debug, PartialEq, Eq)]
pub struct Id {
    pub id: String,
}

pub open spec fn opt_id(o: Option<Id>) -> Option<Seq<char>> {
    match o {
        Some(i) => Some(i.id@),
        None => None,
    }
}

/// Reads the `id` attribute.
pub fn parse_id(element: &XmlElement) -> (r: Option<Id>)
    ensures
        opt_id(r) == attr_value(*element, "id"@),
{
    match attribute(element, "id") {
        Some(v) => Some(Id { id: v.clone() }),
        None => None,
    }
}

/// The value a boolean attribute takes: exactly `"true"` or `"false"`, and
/// `default` when it is absent or holds anything else.
pub open spec fn boolean_value(v: Option<Seq<char>>, default: bool) -> bool {
    match v {
        Some(s) => if s == "true"@ {
            true
        } else if s == "false"@ {
            false
        } else {
            default
        },
        None => default,
    }
}

/// Reads an `xs:boolean` attribute, falling back to `default`.
pub fn parse_boolean_attribute(element: &XmlElement, name: &str, default: bool) -> (r: bool)
    ensures
        r == boolean_value(attr_value(*element, name@), default),
{
    match attribute(element, name) {
        Some(v) => if str_eq(v.as_str(), "true") {
            true
        } else if str_eq(v.as_str(), "false") {
            false
        } else {
            default
        },
        None => default,
    }
}

/// Whether an attribute belongs to a namespace other than XSD's.
pub open spec fn is_foreign(a: XmlAttribute) -> bool {
    match opt_str(a.name.namespace_uri) {
        Some(ns) => ns != XSD_NS_URI@,
        None => false,
    }
}

/// The attributes of `attrs` whose namespace is present and is not XSD's, in order.
pub open spec fn foreign_attrs(attrs: Seq<XmlAttribute>) -> Seq<AttrView>
    decreases attrs.len(),
{
    if attrs.len() == 0 {
        Seq::empty()
    } else {
        let init = foreign_attrs(attrs.drop_last());
        if is_foreign(attrs.last()) {
            init.push(attrs.last()@)
        } else {
            init
        }
    }
}

/// Copies the attributes of `element` that carry a namespace other than XSD's.
pub fn parse_additional_attributes(element: &XmlElement) -> (r: Vec<XmlAttribute>)
    ensures
        attr_views(r@) == foreign_attrs(element.attributes@),
{
    let mut out: Vec<XmlAttribute> = Vec::new();
    let mut i: usize = 0;
    while i < element.attributes.len()
        invariant
            i <= element.attributes.len(),
            attr_views(out@) == foreign_attrs(element.attributes@.take(i as int)),
        decreases element.attributes.len() - i,
    {
        let a = &element.attributes[i];
        assert(element.attributes@.take(i + 1).drop_last() =~= element.attributes@.take(i as int));
        let foreign = match &a.name.namespace_uri {
            Some(ns) => !str_eq(ns.as_str(), XSD_NS_URI),
            None => false,
        };
        if foreign {
            let ghost before = out@;
            out.push(a.copy());
            assert(attr_views(out@) =~= attr_views(before).push(a@));
        } else {
            assert(attr_views(out@) =~= foreign_attrs(element.attributes@.take(i + 1)));
        }
        i += 1;
    }
    assert(element.attributes@.take(i as int) =~= element.attributes@);
    out
}

/// The text children among `nodes`, in order.
pub open spec fn text_children(nodes: Seq<XmlNode>) -> Seq<Seq<char>>
    decreases nodes.len(),
{
    if nodes.len() == 0 {
        Seq::empty()
    } else {
        let init = text_children(nodes.drop_last());
        match nodes.last() {
            XmlNode::Text(t) => init.push(t@),
            XmlNode::Element(_) => init,
        }
    }
}

/// Copies the text children of `element`, in order.
pub fn parse_text_content(element: &XmlElement) -> (r: Vec<String>)
    ensures
        string_views(r@) == text_children(element.children@),
{
    let mut out: Vec<String> = Vec::new();
    let mut i: usize = 0;
    while i < element.children.len()
        invariant
            i <= element.children.len(),
            string_views(out@) == text_children(element.children@.take(i as int)),
        decreases element.children.len() - i,
    {
        assert(element.children@.take(i + 1).drop_last() =~= element.children@.take(i as int));
        match &element.children[i] {
            XmlNode::Text(t) => {
                let ghost before = out@;
                out.push(t.clone());
                assert(string_views(out@) =~= string_views(before).push(t@));
            },
            XmlNode::Element(_) => {
                assert(string_views(out@) =~= text_children(element.children@.take(i + 1)));
            },
        }
        i += 1;
    }
    assert(element.children@.take(i as int) =~= element.children@);
    out
}

} // verus!
