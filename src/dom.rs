//! A plain XML tree: the document model that the schema parser reads, and the
//! extractors that look up names, attributes and children in it.
use vstd::prelude::*;

use crate::text::str_eq;

verus! {

/// The namespace of XML Schema's own vocabulary.
pub const XSD_NS_URI: &'static str = "http://www.w3.org/2001/XMLSchema";

/// The namespace bound to the `xml` prefix (`xml:lang`).
pub const XML_NS_URI: &'static str = "http://www.w3.org/XML/1998/namespace";

/// A namespace-qualified name.
#[derive(Debug)]
pub struct XmlName {
    pub namespace_uri: Option<String>,
    pub local_part: String,
}

/// An attribute of an element.
#[derive(Debug, PartialEq, Eq)]
pub struct XmlAttribute {
    pub name: XmlName,
    pub value: String,
}

/// A prefix bound to a namespace URI.
#[derive(Debug)]
pub struct XmlNamespace {
    pub prefix: String,
    pub uri: String,
}

/// A child of an element.
#[derive(Debug)]
pub enum XmlNode {
    Element(XmlElement),
    Text(String),
}

/// An element: its name, attributes, the namespace prefixes in scope on it,
/// the default namespace in scope, and its ordered children.
#[derive(Debug)]
pub struct XmlElement {
    pub name: XmlName,
    pub attributes: Vec<XmlAttribute>,
    pub namespaces: Vec<XmlNamespace>,
    pub default_namespace: Option<String>,
    pub children: Vec<XmlNode>,
}

/// A document: the elements directly under its root, in order.
#[derive(Debug)]
pub struct XmlDocument {
    pub children: Vec<XmlElement>,
}

impl PartialEq for XmlName {
    fn eq(&self, o: &XmlName) -> (r: bool) {
        let same_ns = match (&self.namespace_uri, &o.namespace_uri) {
            (Some(a), Some(b)) => str_eq(a.as_str(), b.as_str()),
            (None, None) => true,
            _ => false,
        };
        same_ns && str_eq(self.local_part.as_str(), o.local_part.as_str())
    }
}

impl vstd::std_specs::cmp::PartialEqSpecImpl for XmlName {
    open spec fn obeys_eq_spec() -> bool {
        true
    }

    open spec fn eq_spec(&self, o: &XmlName) -> bool {
        opt_str(self.namespace_uri) == opt_str(o.namespace_uri) && self.local_part@
            == o.local_part@
    }
}

impl Eq for XmlName {
}

/// What an attribute is, as values: namespace, local name, value.
pub type AttrView = (Option<Seq<char>>, Seq<char>, Seq<char>);

pub open spec fn opt_str(o: Option<String>) -> Option<Seq<char>> {
    match o {
        Some(s) => Some(s@),
        None => None,
    }
}

impl View for XmlAttribute {
    type V = AttrView;

    open spec fn view(&self) -> AttrView {
        (opt_str(self.name.namespace_uri), self.name.local_part@, self.value@)
    }
}

pub open spec fn attr_views(v: Seq<XmlAttribute>) -> Seq<AttrView> {
    v.map_values(|a: XmlAttribute| a@)
}

fn copy_opt_string(s: &Option<String>) -> (r: Option<String>)
    ensures
        opt_str(r) == opt_str(*s),
{
    match s {
        Some(v) => Some(v.clone()),
        None => None,
    }
}

impl XmlAttribute {
    /// A copy of this attribute.
    pub fn copy(&self) -> (r: XmlAttribute)
        ensures
            r@ == self@,
    {
        XmlAttribute {
            name: XmlName {
                namespace_uri: copy_opt_string(&self.name.namespace_uri),
                local_part: self.name.local_part.clone(),
            },
            value: self.value.clone(),
        }
    }
}

/// Whether `e` is the XSD element with local name `local`.
pub open spec fn is_xsd(e: XmlElement, local: Seq<char>) -> bool {
    opt_str(e.name.namespace_uri) == Some(XSD_NS_URI@) && e.name.local_part@ == local
}

/// True iff the element is in the XSD namespace and its local name is
/// `element_name` exactly.
pub fn is_of_element(element: &XmlElement, element_name: &str) -> (r: bool)
    ensures
        r == is_xsd(*element, element_name@),
{
    match &element.name.namespace_uri {
        Some(ns) => str_eq(ns.as_str(), XSD_NS_URI) && str_eq(
            element.name.local_part.as_str(),
            element_name,
        ),
        None => false,
    }
}

/// Whether `a` is the attribute named `local` in namespace `ns`.
pub open spec fn attr_named(a: XmlAttribute, ns: Option<Seq<char>>, local: Seq<char>) -> bool {
    opt_str(a.name.namespace_uri) == ns && a.name.local_part@ == local
}

/// `i` is the first attribute of `attrs` with that name.
pub open spec fn first_attr(
    attrs: Seq<XmlAttribute>,
    ns: Option<Seq<char>>,
    local: Seq<char>,
    i: int,
) -> bool {
    &&& 0 <= i < attrs.len()
    &&& attr_named(attrs[i], ns, local)
    &&& forall|j: int| 0 <= j < i ==> !attr_named(#[trigger] attrs[j], ns, local)
}

/// The value of the attribute named `local` in namespace `ns` (the first
/// one, should there be several).
pub open spec fn attr_value_ns(e: XmlElement, ns: Option<Seq<char>>, local: Seq<char>) -> Option<
    Seq<char>,
> {
    if exists|i: int| first_attr(e.attributes@, ns, local, i) {
        let i = choose|i: int| first_attr(e.attributes@, ns, local, i);
        Some(e.attributes@[i].value@)
    } else {
        None
    }
}

/// The value of the unqualified attribute `local`.
pub open spec fn attr_value(e: XmlElement, local: Seq<char>) -> Option<Seq<char>> {
    attr_value_ns(e, None, local)
}

/// Looks up an attribute by namespace and local name.
pub fn attribute_ns<'a>(element: &'a XmlElement, ns: Option<&str>, name: &str) -> (r: Option<
    &'a String,
>)
    ensures
        match r {
            Some(v) => attr_value_ns(*element, opt_ref_str(ns), name@) == Some(v@),
            None => attr_value_ns(*element, opt_ref_str(ns), name@) is None,
        },
{
    let ghost want = opt_ref_str(ns);
    let mut i: usize = 0;
    while i < element.attributes.len()
        invariant
            i <= element.attributes.len(),
            want == opt_ref_str(ns),
            forall|j: int| 0 <= j < i ==> !attr_named(#[trigger] element.attributes@[j], want, name@),
        decreases element.attributes.len() - i,
    {
        let a = &element.attributes[i];
        let same_ns = match (&a.name.namespace_uri, ns) {
            (Some(x), Some(y)) => str_eq(x.as_str(), y),
            (None, None) => true,
            _ => false,
        };
        if same_ns && str_eq(a.name.local_part.as_str(), name) {
            assert(first_attr(element.attributes@, want, name@, i as int));
            proof {
                let k = choose|k: int| first_attr(element.attributes@, want, name@, k);
                assert(k == i) by {
                    if k < i {
                        assert(!attr_named(element.attributes@[k], want, name@));
                    }
                    if k > i {
                        assert(!attr_named(element.attributes@[i as int], want, name@));
                    }
                }
            }
            return Some(&a.value);
        }
        i += 1;
    }
    None
}

pub open spec fn opt_ref_str(o: Option<&str>) -> Option<Seq<char>> {
    match o {
        Some(s) => Some(s@),
        None => None,
    }
}

/// Looks up the unqualified attribute `name`.
pub fn attribute<'a>(element: &'a XmlElement, name: &str) -> (r: Option<&'a String>)
    ensures
        match r {
            Some(v) => attr_value(*element, name@) == Some(v@),
            None => attr_value(*element, name@) is None,
        },
{
    attribute_ns(element, None, name)
}

/// The element held by a child node, if it is one.
pub fn extract_element(node: &XmlNode) -> (r: Option<&XmlElement>)
    ensures
        match *node {
            XmlNode::Element(e) => r == Some(&e),
            XmlNode::Text(_) => r is None,
        },
{
    match node {
        XmlNode::Element(e) => Some(e),
        XmlNode::Text(_) => None,
    }
}

/// The XSD elements named `local` among `nodes`, in order.
pub open spec fn xsd_children(nodes: Seq<XmlNode>, local: Seq<char>) -> Seq<XmlElement>
    decreases nodes.len(),
{
    if nodes.len() == 0 {
        Seq::empty()
    } else {
        let init = xsd_children(nodes.drop_last(), local);
        match nodes.last() {
            XmlNode::Element(c) => if is_xsd(c, local) {
                init.push(c)
            } else {
                init
            },
            XmlNode::Text(_) => init,
        }
    }
}

/// The first XSD child element named `local`, if any.
pub open spec fn first_xsd_child(e: XmlElement, local: Seq<char>) -> Option<XmlElement> {
    let sel = xsd_children(e.children@, local);
    if sel.len() > 0 {
        Some(sel[0])
    } else {
        None
    }
}

proof fn lemma_xsd_children_prefix(nodes: Seq<XmlNode>, local: Seq<char>, i: int)
    requires
        0 <= i < nodes.len(),
    ensures
        xsd_children(nodes.take(i + 1), local) == match nodes[i] {
            XmlNode::Element(c) => if is_xsd(c, local) {
                xsd_children(nodes.take(i), local).push(c)
            } else {
                xsd_children(nodes.take(i), local)
            },
            XmlNode::Text(_) => xsd_children(nodes.take(i), local),
        },
{
    assert(nodes.take(i + 1).drop_last() =~= nodes.take(i));
}

/// All XSD child elements of `element` named `local`, in document order.
pub fn parse_children<'a>(element: &'a XmlElement, local: &str) -> (r: Vec<&'a XmlElement>)
    ensures
        r@.len() == xsd_children(element.children@, local@).len(),
        forall|i: int|
            0 <= i < r@.len() ==> *r@[i] == #[trigger] xsd_children(element.children@, local@)[i],
{
    let mut out: Vec<&'a XmlElement> = Vec::new();
    let mut i: usize = 0;
    while i < element.children.len()
        invariant
            i <= element.children.len(),
            out@.len() == xsd_children(element.children@.take(i as int), local@).len(),
            forall|j: int|
                0 <= j < out@.len() ==> *out@[j] == #[trigger] xsd_children(
                    element.children@.take(i as int),
                    local@,
                )[j],
        decreases element.children.len() - i,
    {
        proof {
            lemma_xsd_children_prefix(element.children@, local@, i as int);
        }
        match &element.children[i] {
            XmlNode::Element(c) => {
                if is_of_element(c, local) {
                    out.push(c);
                }
            },
            XmlNode::Text(_) => {},
        }
        i += 1;
    }
    assert(element.children@.take(i as int) =~= element.children@);
    out
}

/// The first XSD child element of `element` named `local`, if any.
pub fn parse_child<'a>(element: &'a XmlElement, local: &str) -> (r: Option<&'a XmlElement>)
    ensures
        match r {
            Some(c) => first_xsd_child(*element, local@) == Some(*c),
            None => first_xsd_child(*element, local@) is None,
        },
{
    let all = parse_children(element, local);
    if all.len() > 0 {
        Some(all[0])
    } else {
        None
    }
}

} // verus!
