//! Top-level element declarations.
use vstd::prelude::*;

use crate::builtins::{resolve_type_name, type_ref, AnySimpleType, AnySimpleTypeView};
use crate::dom::{attr_value, attribute, is_of_element, parse_children, xsd_children, XmlElement};
use crate::error::{
    all_ok, lemma_all_ok_err_stays, lemma_all_ok_step, lemma_all_ok_whole, missing_attribute,
    res_view, SchemaError, SchemaErrorView,
};

verus! {

/// A top-level `<element>` declaration: its name, and its `type` as written
/// and as resolved (absent when the type is given inline).
#[derive(Debug, PartialEq, Eq)]
pub struct Element {
    pub name: String,
    pub element_type: Option<String>,
    pub type_reference: Option<AnySimpleType>,
}

pub struct ElementView {
    pub name: Seq<char>,
    pub element_type: Option<Seq<char>>,
    pub type_reference: Option<AnySimpleTypeView>,
}

impl View for Element {
    type V = ElementView;

    open spec fn view(&self) -> ElementView {
        ElementView {
            name: self.name@,
            element_type: match self.element_type {
                Some(t) => Some(t@),
                None => None,
            },
            type_reference: match self.type_reference {
                Some(t) => Some(t@),
                None => None,
            },
        }
    }
}

/// What an `<element>` declaration reads as; `name` is required.
pub open spec fn element_of(e: XmlElement) -> Result<ElementView, SchemaErrorView> {
    match attr_value(e, "name"@) {
        None => Err(
            SchemaErrorView::MissingAttribute { element: e.name.local_part@, attribute: "name"@ },
        ),
        Some(name) => Ok(
            ElementView {
                name,
                element_type: attr_value(e, "type"@),
                type_reference: match attr_value(e, "type"@) {
                    Some(t) => Some(type_ref(e, t)),
                    None => None,
                },
            },
        ),
    }
}

/// The element declarations among the children of `e`, or the first error.
pub open spec fn elements_of(e: XmlElement) -> Result<Seq<ElementView>, SchemaErrorView> {
    all_ok(xsd_children(e.children@, "element"@).map_values(|d: XmlElement| element_of(d)))
}

/// Whether `element` is an XSD `<element>`.
pub fn is_element(element: &XmlElement) -> (r: bool)
    ensures
        r == crate::dom::is_xsd(*element, "element"@),
{
    is_of_element(element, "element")
}

/// Reads an `<element>` declaration.
pub fn parse_element(element: &XmlElement) -> (r: Result<Element, SchemaError>)
    ensures
        res_view(r) == element_of(*element),
{
    let name = match attribute(element, "name") {
        Some(n) => n,
        None => {
            return Err(missing_attribute(&element.name.local_part, "name"));
        },
    };
    let (element_type, type_reference) = match attribute(element, "type") {
        Some(t) => (Some(t.clone()), Some(resolve_type_name(element, t.as_str()))),
        None => (None, None),
    };
    Ok(Element { name: name.clone(), element_type, type_reference })
}

/// Reads every `<element>` declared among the children of `element` (a
/// `<schema>`), in document order; the first one that fails gives the error.
pub fn parse_elements(element: &XmlElement) -> (r: Result<Vec<Element>, SchemaError>)
    ensures
        match r {
            Ok(es) => elements_of(*element) == Ok::<Seq<ElementView>, SchemaErrorView>(
                es@.map_values(|x: Element| x@),
            ),
            Err(e) => elements_of(*element) == Err::<Seq<ElementView>, SchemaErrorView>(e@),
        },
{
    let found = parse_children(element, "element");
    let ghost specs = xsd_children(element.children@, "element"@).map_values(
        |d: XmlElement| element_of(d),
    );
    let mut out: Vec<Element> = Vec::new();
    assert(specs.take(0) =~= Seq::<Result<ElementView, SchemaErrorView>>::empty());
    assert(out@.map_values(|x: Element| x@) =~= Seq::<ElementView>::empty());
    let mut i: usize = 0;
    while i < found.len()
        invariant
            i <= found.len(),
            specs == xsd_children(element.children@, "element"@).map_values(
                |d: XmlElement| element_of(d),
            ),
            found@.len() == specs.len(),
            forall|j: int| 0 <= j < found@.len() ==> specs[j] == element_of(*#[trigger] found@[j]),
            all_ok(specs.take(i as int)) == Ok::<Seq<ElementView>, SchemaErrorView>(
                out@.map_values(|x: Element| x@),
            ),
        decreases found.len() - i,
    {
        proof {
            lemma_all_ok_step(specs, i as int);
        }
        match parse_element(found[i]) {
            Ok(d) => {
                let ghost before = out@;
                out.push(d);
                assert(out@.map_values(|x: Element| x@) =~= before.map_values(|x: Element| x@).push(
                    d@,
                ));
            },
            Err(e) => {
                proof {
                    lemma_all_ok_err_stays(specs, i as int + 1, specs.len() as int);
                    lemma_all_ok_whole(specs);
                }
                return Err(e);
            },
        }
        i += 1;
    }
    proof {
        lemma_all_ok_whole(specs);
    }
    Ok(out)
}

} // verus!
