//! Partitioning the top-level children of a schema (or of a document root) by
//! the kind of construct they declare.
use vstd::prelude::*;

use crate::dom::{is_xsd, opt_str, XmlDocument, XmlElement, XmlNode, XSD_NS_URI};
use crate::schema::is_schema;
use crate::text::str_eq;

verus! {

/// The kinds of top-level construct a schema document is made of.
#[derive(Debug, PartialEq, Eq, Hash, Clone, Copy, Structural)]
pub enum SchemaElement {
    Schema,
    Element,
    SimpleType,
    ComplexType,
    Annotation,
    Include,
    Import,
    Redefine,
    Group,
    AttributeGroup,
    Notation,
    Attribute,
}

/// The kind of construct `e` is, when it is an XSD element of a known kind.
pub open spec fn group_of(e: XmlElement) -> Option<SchemaElement> {
    if opt_str(e.name.namespace_uri) != Some(XSD_NS_URI@) {
        None
    } else {
        let l = e.name.local_part@;
        if l == "schema"@ {
            Some(SchemaElement::Schema)
        } else if l == "element"@ {
            Some(SchemaElement::Element)
        } else if l == "simpleType"@ {
            Some(SchemaElement::SimpleType)
        } else if l == "complexType"@ {
            Some(SchemaElement::ComplexType)
        } else if l == "annotation"@ {
            Some(SchemaElement::Annotation)
        } else if l == "include"@ {
            Some(SchemaElement::Include)
        } else if l == "import"@ {
            Some(SchemaElement::Import)
        } else if l == "redefine"@ {
            Some(SchemaElement::Redefine)
        } else if l == "group"@ {
            Some(SchemaElement::Group)
        } else if l == "attributeGroup"@ {
            Some(SchemaElement::AttributeGroup)
        } else if l == "notation"@ {
            Some(SchemaElement::Notation)
        } else if l == "attribute"@ {
            Some(SchemaElement::Attribute)
        } else {
            None
        }
    }
}

/// Classifies an element by the kind of construct it declares.
pub fn find_schema_group(element: &XmlElement) -> (r: Option<SchemaElement>)
    ensures
        r == group_of(*element),
{
    let in_xsd = match &element.name.namespace_uri {
        Some(ns) => str_eq(ns.as_str(), XSD_NS_URI),
        None => false,
    };
    if !in_xsd {
        return None;
    }
    let l = element.name.local_part.as_str();
    if str_eq(l, "schema") {
        Some(SchemaElement::Schema)
    } else if str_eq(l, "element") {
        Some(SchemaElement::Element)
    } else if str_eq(l, "simpleType") {
        Some(SchemaElement::SimpleType)
    } else if str_eq(l, "complexType") {
        Some(SchemaElement::ComplexType)
    } else if str_eq(l, "annotation") {
        Some(SchemaElement::Annotation)
    } else if str_eq(l, "include") {
        Some(SchemaElement::Include)
    } else if str_eq(l, "import") {
        Some(SchemaElement::Import)
    } else if str_eq(l, "redefine") {
        Some(SchemaElement::Redefine)
    } else if str_eq(l, "group") {
        Some(SchemaElement::Group)
    } else if str_eq(l, "attributeGroup") {
        Some(SchemaElement::AttributeGroup)
    } else if str_eq(l, "notation") {
        Some(SchemaElement::Notation)
    } else if str_eq(l, "attribute") {
        Some(SchemaElement::Attribute)
    } else {
        None
    }
}

/// The elements among `els`, in order.
pub open spec fn deref_all(v: Seq<&XmlElement>) -> Seq<XmlElement> {
    v.map_values(|e: &XmlElement| *e)
}

/// The element children among `nodes`, in order.
pub open spec fn child_elements(nodes: Seq<XmlNode>) -> Seq<XmlElement>
    decreases nodes.len(),
{
    if nodes.len() == 0 {
        Seq::empty()
    } else {
        match nodes.last() {
            XmlNode::Element(c) => child_elements(nodes.drop_last()).push(c),
            XmlNode::Text(_) => child_elements(nodes.drop_last()),
        }
    }
}

/// The kinds met among `els`, each once, in order of first appearance.
pub open spec fn group_keys(els: Seq<XmlElement>) -> Seq<SchemaElement>
    decreases els.len(),
{
    if els.len() == 0 {
        Seq::empty()
    } else {
        let init = group_keys(els.drop_last());
        match group_of(els.last()) {
            Some(k) => if init.contains(k) {
                init
            } else {
                init.push(k)
            },
            None => init,
        }
    }
}

/// The elements of `els` of kind `k`, in order.
pub open spec fn group_members(els: Seq<XmlElement>, k: SchemaElement) -> Seq<XmlElement>
    decreases els.len(),
{
    if els.len() == 0 {
        Seq::empty()
    } else {
        let init = group_members(els.drop_last(), k);
        if group_of(els.last()) == Some(k) {
            init.push(els.last())
        } else {
            init
        }
    }
}

/// Whether `groups` partitions `els` by kind: one group per kind met, in order
/// of first appearance, each holding the elements of its kind in order.
pub open spec fn is_grouping(groups: Seq<(SchemaElement, Vec<&XmlElement>)>, els: Seq<XmlElement>) -> bool {
    &&& groups.len() == group_keys(els).len()
    &&& forall|g: int|
        0 <= g < groups.len() ==> (#[trigger] groups[g]).0 == group_keys(els)[g] && deref_all(
            groups[g].1@,
        ) == group_members(els, groups[g].0)
}

/// The element children of `element`, by reference, in order.
pub fn element_children<'a>(element: &'a XmlElement) -> (r: Vec<&'a XmlElement>)
    ensures
        deref_all(r@) == child_elements(element.children@),
{
    let mut out: Vec<&'a XmlElement> = Vec::new();
    let mut i: usize = 0;
    while i < element.children.len()
        invariant
            i <= element.children.len(),
            deref_all(out@) == child_elements(element.children@.take(i as int)),
        decreases element.children.len() - i,
    {
        assert(element.children@.take(i + 1).drop_last() =~= element.children@.take(i as int));
        match &element.children[i] {
            XmlNode::Element(c) => {
                let ghost before = out@;
                out.push(c);
                assert(deref_all(out@) =~= deref_all(before).push(*c));
            },
            XmlNode::Text(_) => {},
        }
        i += 1;
    }
    assert(element.children@.take(i as int) =~= element.children@);
    out
}

fn members_of_kind<'a>(els: &Vec<&'a XmlElement>, k: SchemaElement) -> (r: Vec<&'a XmlElement>)
    ensures
        deref_all(r@) == group_members(deref_all(els@), k),
{
    let ghost all = deref_all(els@);
    let mut out: Vec<&'a XmlElement> = Vec::new();
    let mut i: usize = 0;
    while i < els.len()
        invariant
            i <= els.len(),
            all == deref_all(els@),
            deref_all(out@) == group_members(all.take(i as int), k),
        decreases els.len() - i,
    {
        assert(all.take(i + 1).drop_last() =~= all.take(i as int));
        assert(all[i as int] == *els@[i as int]);
        if find_schema_group(els[i]) == Some(k) {
            let ghost before = out@;
            out.push(els[i]);
            assert(deref_all(out@) =~= deref_all(before).push(*els@[i as int]));
        }
        i += 1;
    }
    assert(all.take(i as int) =~= all);
    out
}

fn distinct_kinds(els: &Vec<&XmlElement>) -> (r: Vec<SchemaElement>)
    ensures
        r@ == group_keys(deref_all(els@)),
{
    let ghost all = deref_all(els@);
    let mut keys: Vec<SchemaElement> = Vec::new();
    let mut i: usize = 0;
    while i < els.len()
        invariant
            i <= els.len(),
            all == deref_all(els@),
            keys@ == group_keys(all.take(i as int)),
        decreases els.len() - i,
    {
        assert(all.take(i + 1).drop_last() =~= all.take(i as int));
        assert(all[i as int] == *els@[i as int]);
        match find_schema_group(els[i]) {
            Some(k) => {
                let mut seen = false;
                let mut j: usize = 0;
                while j < keys.len()
                    invariant
                        j <= keys.len(),
                        seen == (exists|m: int| 0 <= m < j && keys@[m] == k),
                    decreases keys.len() - j,
                {
                    if keys[j] == k {
                        seen = true;
                    }
                    j += 1;
                }
                if !seen {
                    keys.push(k);
                }
            },
            None => {},
        }
        i += 1;
    }
    assert(all.take(i as int) =~= all);
    keys
}

fn group_elements<'a>(els: &Vec<&'a XmlElement>) -> (r: Vec<(SchemaElement, Vec<&'a XmlElement>)>)
    ensures
        is_grouping(r@, deref_all(els@)),
{
    let keys = distinct_kinds(els);
    let mut groups: Vec<(SchemaElement, Vec<&'a XmlElement>)> = Vec::new();
    let mut g: usize = 0;
    while g < keys.len()
        invariant
            g <= keys.len(),
            keys@ == group_keys(deref_all(els@)),
            groups@.len() == g,
            forall|h: int|
                0 <= h < g ==> (#[trigger] groups@[h]).0 == keys@[h] && deref_all(groups@[h].1@)
                    == group_members(deref_all(els@), groups@[h].0),
        decreases keys.len() - g,
    {
        let k = keys[g];
        groups.push((k, members_of_kind(els, k)));
        g += 1;
    }
    groups
}

/// Groups the element children of `element` by kind of construct: one group
/// per kind met, in order of first appearance, each in document order.
pub fn group_children<'a>(element: &'a XmlElement) -> (r: Vec<(SchemaElement, Vec<&'a XmlElement>)>)
    ensures
        is_grouping(r@, child_elements(element.children@)),
{
    let els = element_children(element);
    group_elements(&els)
}

/// Groups the elements directly under the document root by kind of construct.
pub fn group_root_children<'a>(document: &'a XmlDocument) -> (r: Vec<(SchemaElement, Vec<&'a XmlElement>)>)
    ensures
        is_grouping(r@, document.children@),
{
    let mut els: Vec<&'a XmlElement> = Vec::new();
    let mut i: usize = 0;
    while i < document.children.len()
        invariant
            i <= document.children.len(),
            deref_all(els@) == document.children@.take(i as int),
        decreases document.children.len() - i,
    {
        let ghost before = els@;
        els.push(&document.children[i]);
        assert(deref_all(els@) =~= deref_all(before).push(document.children@[i as int]));
        assert(document.children@.take(i + 1) =~= document.children@.take(i as int).push(document.children@[i as int]));
        i += 1;
    }
    assert(document.children@.take(i as int) =~= document.children@);
    group_elements(&els)
}

/// The element children of every `<schema>` element directly under the root.
pub open spec fn schema_children(roots: Seq<XmlElement>) -> Seq<XmlElement>
    decreases roots.len(),
{
    if roots.len() == 0 {
        Seq::empty()
    } else if is_xsd(roots.last(), "schema"@) {
        schema_children(roots.drop_last()) + child_elements(roots.last().children@)
    } else {
        schema_children(roots.drop_last())
    }
}

/// The element children of every `<schema>` element directly under the
/// document root, in document order.
pub fn find_schema_children<'a>(document: &'a XmlDocument) -> (r: Vec<&'a XmlElement>)
    ensures
        deref_all(r@) == schema_children(document.children@),
{
    let mut out: Vec<&'a XmlElement> = Vec::new();
    let mut i: usize = 0;
    while i < document.children.len()
        invariant
            i <= document.children.len(),
            deref_all(out@) == schema_children(document.children@.take(i as int)),
        decreases document.children.len() - i,
    {
        assert(document.children@.take(i + 1).drop_last() =~= document.children@.take(i as int));
        let root = &document.children[i];
        if is_schema(root) {
            let kids = element_children(root);
            let ghost before = deref_all(out@);
            let mut k: usize = 0;
            while k < kids.len()
                invariant
                    k <= kids.len(),
                    deref_all(out@) == before + deref_all(kids@).take(k as int),
                decreases kids.len() - k,
            {
                let ghost prev = out@;
                out.push(kids[k]);
                assert(deref_all(out@) =~= deref_all(prev).push(*kids@[k as int]));
                assert(deref_all(kids@).take(k + 1) =~= deref_all(kids@).take(k as int).push(*kids@[k as int]));
                k += 1;
            }
            assert(deref_all(kids@).take(k as int) =~= deref_all(kids@));
        }
        i += 1;
    }
    assert(document.children@.take(i as int) =~= document.children@);
    out
}

} // verus!
