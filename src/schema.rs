//! The schema assembler: finds the `<schema>` element of a document and reads
//! its top-level children into a `Schema`.
use vstd::prelude::*;

use crate::annotations::{
    annotation_of, opt_language, parse_annotations, Annotation, AnnotationView, Language,
};
use crate::attributes::{foreign_attrs, opt_id, parse_additional_attributes, parse_id, Id};
use crate::dom::{
    attr_value, attr_value_ns, attr_views, attribute, attribute_ns, is_of_element, is_xsd,
    opt_str, parse_children, xsd_children, AttrView, XmlAttribute, XmlDocument, XmlElement,
    XML_NS_URI,
};
use crate::elements::{elements_of, parse_elements, Element, ElementView};
use crate::error::{SchemaError, SchemaErrorView};
use crate::modes::{modes_result, parse_modes, BlockDefault, FinalDefault};
use crate::text::{str_eq, string_views};
use crate::types::{parse_types, types_of, TopLevelType, TopLevelTypeView};
use crate::versions::{parse_version, version_of, SchemaVersion};

verus! {

/// Whether local declarations are qualified by the target namespace.
#[derive(Debug, PartialEq, Eq, Clone, Copy, Structural)]
pub enum FormChoice {
    Qualified,
    Unqualified,
}

/// A parsed schema document.
#[derive(Debug, PartialEq, Eq)]
pub struct Schema {
    pub version: SchemaVersion,
    pub target_namespace: Option<String>,
    pub final_default: Vec<FinalDefault>,
    pub block_default: Vec<BlockDefault>,
    pub attribute_form_default: FormChoice,
    pub element_form_default: FormChoice,
    pub id: Option<Id>,
    pub elements: Vec<Element>,
    pub types: Vec<TopLevelType>,
    pub annotations: Vec<Annotation>,
    /// `schemaLocation` of each `<include>`.
    pub includes: Vec<String>,
    /// `namespace` of each `<import>`.
    pub imports: Vec<String>,
    /// `schemaLocation` of each `<redefine>`.
    pub redefines: Vec<String>,
    /// `name` of each top-level `<group>`.
    pub groups: Vec<String>,
    /// `name` of each top-level `<attributeGroup>`.
    pub attribute_groups: Vec<String>,
    /// `name` of each `<notation>`.
    pub notations: Vec<String>,
    pub language: Option<Language>,
    pub additional_attributes: Vec<XmlAttribute>,
}

pub struct SchemaView {
    pub version: SchemaVersion,
    pub target_namespace: Option<Seq<char>>,
    pub final_default: Seq<FinalDefault>,
    pub block_default: Seq<BlockDefault>,
    pub attribute_form_default: FormChoice,
    pub element_form_default: FormChoice,
    pub id: Option<Seq<char>>,
    pub elements: Seq<ElementView>,
    pub types: Seq<TopLevelTypeView>,
    pub annotations: Seq<AnnotationView>,
    pub includes: Seq<Seq<char>>,
    pub imports: Seq<Seq<char>>,
    pub redefines: Seq<Seq<char>>,
    pub groups: Seq<Seq<char>>,
    pub attribute_groups: Seq<Seq<char>>,
    pub notations: Seq<Seq<char>>,
    pub language: Option<Seq<char>>,
    pub additional_attributes: Seq<AttrView>,
}

impl View for Schema {
    type V = SchemaView;

    open spec fn view(&self) -> SchemaView {
        SchemaView {
            version: self.version,
            target_namespace: opt_str(self.target_namespace),
            final_default: self.final_default@,
            block_default: self.block_default@,
            attribute_form_default: self.attribute_form_default,
            element_form_default: self.element_form_default,
            id: opt_id(self.id),
            elements: self.elements@.map_values(|e: Element| e@),
            types: self.types@.map_values(|t: TopLevelType| t@),
            annotations: self.annotations@.map_values(|a: Annotation| a@),
            includes: string_views(self.includes@),
            imports: string_views(self.imports@),
            redefines: string_views(self.redefines@),
            groups: string_views(self.groups@),
            attribute_groups: string_views(self.attribute_groups@),
            notations: string_views(self.notations@),
            language: opt_language(self.language),
            additional_attributes: attr_views(self.additional_attributes@),
        }
    }
}

/// The form named by the attribute `attr` of `e`: unqualified when absent.
pub open spec fn form_of(e: XmlElement, attr: Seq<char>) -> Result<FormChoice, SchemaErrorView> {
    match attr_value(e, attr) {
        None => Ok(FormChoice::Unqualified),
        Some(v) => if v == "qualified"@ {
            Ok(FormChoice::Qualified)
        } else if v == "unqualified"@ {
            Ok(FormChoice::Unqualified)
        } else {
            Err(SchemaErrorView::UnknownFacet { element: e.name.local_part@, token: v })
        },
    }
}

/// The values of attribute `attr` on the elements of `els` that have it, in order.
pub open spec fn attr_values(els: Seq<XmlElement>, attr: Seq<char>) -> Seq<Seq<char>>
    decreases els.len(),
{
    if els.len() == 0 {
        Seq::empty()
    } else {
        let init = attr_values(els.drop_last(), attr);
        match attr_value(els.last(), attr) {
            Some(v) => init.push(v),
            None => init,
        }
    }
}

/// The placeholder references of kind `local` among the children of `e`.
pub open spec fn references_of(e: XmlElement, local: Seq<char>, attr: Seq<char>) -> Seq<Seq<char>> {
    attr_values(xsd_children(e.children@, local), attr)
}

/// What a `<schema>` element reads as. Its `version` is read first, then the
/// derivation and form defaults, then the element and type declarations; the
/// first failure gives the error.
pub open spec fn schema_of(e: XmlElement) -> Result<SchemaView, SchemaErrorView> {
    match version_of(e) {
        Err(err) => Err(err),
        Ok(version) => match modes_result::<FinalDefault>(e, "finalDefault"@) {
            Err(err) => Err(err),
            Ok(final_default) => match modes_result::<BlockDefault>(e, "blockDefault"@) {
                Err(err) => Err(err),
                Ok(block_default) => match form_of(e, "attributeFormDefault"@) {
                    Err(err) => Err(err),
                    Ok(attribute_form_default) => match form_of(e, "elementFormDefault"@) {
                        Err(err) => Err(err),
                        Ok(element_form_default) => match elements_of(e) {
                            Err(err) => Err(err),
                            Ok(elements) => match types_of(e) {
                                Err(err) => Err(err),
                                Ok(types) => Ok(
                                    SchemaView {
                                        version,
                                        target_namespace: attr_value(e, "targetNamespace"@),
                                        final_default,
                                        block_default,
                                        attribute_form_default,
                                        element_form_default,
                                        id: attr_value(e, "id"@),
                                        elements,
                                        types,
                                        annotations: xsd_children(
                                            e.children@,
                                            "annotation"@,
                                        ).map_values(|a: XmlElement| annotation_of(a)),
                                        includes: references_of(e, "include"@, "schemaLocation"@),
                                        imports: references_of(e, "import"@, "namespace"@),
                                        redefines: references_of(
                                            e,
                                            "redefine"@,
                                            "schemaLocation"@,
                                        ),
                                        groups: references_of(e, "group"@, "name"@),
                                        attribute_groups: references_of(
                                            e,
                                            "attributeGroup"@,
                                            "name"@,
                                        ),
                                        notations: references_of(e, "notation"@, "name"@),
                                        language: attr_value_ns(e, Some(XML_NS_URI@), "lang"@),
                                        additional_attributes: foreign_attrs(e.attributes@),
                                    },
                                ),
                            },
                        },
                    },
                },
            },
        },
    }
}

/// The XSD `schema` elements among the root's children, in order.
pub open spec fn schema_roots(roots: Seq<XmlElement>) -> Seq<XmlElement>
    decreases roots.len(),
{
    if roots.len() == 0 {
        Seq::empty()
    } else {
        let init = schema_roots(roots.drop_last());
        if is_xsd(roots.last(), "schema"@) {
            init.push(roots.last())
        } else {
            init
        }
    }
}

/// The one `<schema>` element directly under the document root.
pub open spec fn root_schema_of(doc: XmlDocument) -> Result<XmlElement, SchemaErrorView> {
    let found = schema_roots(doc.children@);
    if found.len() == 0 {
        Err(SchemaErrorView::NoSchemaRootFound)
    } else if found.len() > 1 {
        Err(SchemaErrorView::MultipleSchemaRoots)
    } else {
        Ok(found[0])
    }
}

/// What a document reads as: the schema of its one `<schema>` root.
pub open spec fn document_schema(doc: XmlDocument) -> Result<SchemaView, SchemaErrorView> {
    match root_schema_of(doc) {
        Err(err) => Err(err),
        Ok(root) => schema_of(root),
    }
}

/// Whether `element` is the XSD `<schema>` element.
pub fn is_schema(element: &XmlElement) -> (r: bool)
    ensures
        r == is_xsd(*element, "schema"@),
{
    is_of_element(element, "schema")
}

/// Finds the one `<schema>` element directly under the document root.
pub fn find_root_schema(document: &XmlDocument) -> (r: Result<&XmlElement, SchemaError>)
    ensures
        match r {
            Ok(e) => root_schema_of(*document) == Ok::<XmlElement, SchemaErrorView>(*e),
            Err(err) => root_schema_of(*document) == Err::<XmlElement, SchemaErrorView>(err@),
        },
{
    let mut found: Option<&XmlElement> = None;
    let mut i: usize = 0;
    while i < document.children.len()
        invariant
            i <= document.children.len(),
            schema_roots(document.children@.take(i as int)).len() <= 1,
            match found {
                Some(e) => schema_roots(document.children@.take(i as int)) == seq![*e],
                None => schema_roots(document.children@.take(i as int)).len() == 0,
            },
        decreases document.children.len() - i,
    {
        assert(document.children@.take(i + 1).drop_last() =~= document.children@.take(i as int));
        let c = &document.children[i];
        if is_schema(c) {
            if found.is_some() {
                proof {
                    lemma_schema_roots_grow(document.children@, i as int + 1);
                }
                return Err(SchemaError::MultipleSchemaRoots);
            }
            found = Some(c);
            assert(schema_roots(document.children@.take(i + 1)) =~= seq![*c]);
        }
        i += 1;
    }
    assert(document.children@.take(i as int) =~= document.children@);
    match found {
        Some(e) => Ok(e),
        None => Err(SchemaError::NoSchemaRootFound),
    }
}

proof fn lemma_schema_roots_grow(roots: Seq<XmlElement>, n: int)
    requires
        0 <= n <= roots.len(),
    ensures
        schema_roots(roots.take(n)).len() <= schema_roots(roots).len(),
    decreases roots.len() - n,
{
    if n < roots.len() {
        lemma_schema_roots_grow(roots, n + 1);
        assert(roots.take(n + 1).drop_last() =~= roots.take(n));
    } else {
        assert(roots.take(n) =~= roots);
    }
}

fn parse_form(element: &XmlElement, attr: &str) -> (r: Result<FormChoice, SchemaError>)
    ensures
        match r {
            Ok(f) => form_of(*element, attr@) == Ok::<FormChoice, SchemaErrorView>(f),
            Err(e) => form_of(*element, attr@) == Err::<FormChoice, SchemaErrorView>(e@),
        },
{
    match attribute(element, attr) {
        None => Ok(FormChoice::Unqualified),
        Some(v) => if str_eq(v.as_str(), "qualified") {
            Ok(FormChoice::Qualified)
        } else if str_eq(v.as_str(), "unqualified") {
            Ok(FormChoice::Unqualified)
        } else {
            Err(
                SchemaError::UnknownFacet {
                    element: element.name.local_part.clone(),
                    token: v.clone(),
                },
            )
        },
    }
}

/// The values of `attr` on the `local` children of `element` that have it.
pub fn parse_references(element: &XmlElement, local: &str, attr: &str) -> (r: Vec<String>)
    ensures
        string_views(r@) == references_of(*element, local@, attr@),
{
    let found = parse_children(element, local);
    let ghost sel = xsd_children(element.children@, local@);
    let mut out: Vec<String> = Vec::new();
    let mut i: usize = 0;
    while i < found.len()
        invariant
            i <= found.len(),
            sel == xsd_children(element.children@, local@),
            found@.len() == sel.len(),
            forall|j: int| 0 <= j < found@.len() ==> *found@[j] == #[trigger] sel[j],
            string_views(out@) == attr_values(sel.take(i as int), attr@),
        decreases found.len() - i,
    {
        assert(sel.take(i + 1).drop_last() =~= sel.take(i as int));
        match attribute(found[i], attr) {
            Some(v) => {
                let ghost before = out@;
                out.push(v.clone());
                assert(string_views(out@) =~= string_views(before).push(v@));
            },
            None => {},
        }
        i += 1;
    }
    assert(sel.take(i as int) =~= sel);
    out
}

/// The `<schema>` root of a document, with the annotations placed directly in it.
#[derive(Debug, PartialEq, Eq)]
pub struct SchemaRoot {
    pub annotations: Vec<Annotation>,
}

/// Finds the one `<schema>` root of a document and reads its annotations.
pub fn parse_schema(document: &XmlDocument) -> (r: Result<SchemaRoot, SchemaError>)
    ensures
        match root_schema_of(*document) {
            Err(e) => r matches Err(err) && err@ == e,
            Ok(root) => r matches Ok(s) && s.annotations@.map_values(|a: Annotation| a@)
                == xsd_children(root.children@, "annotation"@).map_values(
                |a: XmlElement| annotation_of(a),
            ),
        },
{
    match find_root_schema(document) {
        Ok(root) => Ok(SchemaRoot { annotations: parse_annotations(root) }),
        Err(e) => Err(e),
    }
}

impl Schema {
    /// Reads a `<schema>` element and its top-level children.
    pub fn from_element(element: &XmlElement) -> (r: Result<Schema, SchemaError>)
        ensures
            match r {
                Ok(s) => schema_of(*element) == Ok::<SchemaView, SchemaErrorView>(s@),
                Err(e) => schema_of(*element) == Err::<SchemaView, SchemaErrorView>(e@),
            },
    {
        let version = match parse_version(element) {
            Ok(v) => v,
            Err(e) => {
                return Err(e);
            },
        };
        let final_default = match parse_modes::<FinalDefault>(element, "finalDefault") {
            Ok(m) => m,
            Err(e) => {
                return Err(e);
            },
        };
        let block_default = match parse_modes::<BlockDefault>(element, "blockDefault") {
            Ok(m) => m,
            Err(e) => {
                return Err(e);
            },
        };
        let attribute_form_default = match parse_form(element, "attributeFormDefault") {
            Ok(f) => f,
            Err(e) => {
                return Err(e);
            },
        };
        let element_form_default = match parse_form(element, "elementFormDefault") {
            Ok(f) => f,
            Err(e) => {
                return Err(e);
            },
        };
        let elements = match parse_elements(element) {
            Ok(es) => es,
            Err(e) => {
                return Err(e);
            },
        };
        let types = match parse_types(element) {
            Ok(ts) => ts,
            Err(e) => {
                return Err(e);
            },
        };
        let target_namespace = match attribute(element, "targetNamespace") {
            Some(v) => Some(v.clone()),
            None => None,
        };
        let language = match attribute_ns(element, Some(XML_NS_URI), "lang") {
            Some(v) => Some(Language { iso_code: v.clone() }),
            None => None,
        };
        let s = Schema {
            version,
            target_namespace,
            final_default,
            block_default,
            attribute_form_default,
            element_form_default,
            id: parse_id(element),
            elements,
            types,
            annotations: parse_annotations(element),
            includes: parse_references(element, "include", "schemaLocation"),
            imports: parse_references(element, "import", "namespace"),
            redefines: parse_references(element, "redefine", "schemaLocation"),
            groups: parse_references(element, "group", "name"),
            attribute_groups: parse_references(element, "attributeGroup", "name"),
            notations: parse_references(element, "notation", "name"),
            language,
            additional_attributes: parse_additional_attributes(element),
        };
        Ok(s)
    }

    /// Reads a schema document: its root must hold exactly one `<schema>`.
    pub fn from_document(document: &XmlDocument) -> (r: Result<Schema, SchemaError>)
        ensures
            match r {
                Ok(s) => document_schema(*document) == Ok::<SchemaView, SchemaErrorView>(s@),
                Err(e) => document_schema(*document) == Err::<SchemaView, SchemaErrorView>(e@),
            },
    {
        match find_root_schema(document) {
            Ok(root) => Schema::from_element(root),
            Err(e) => Err(e),
        }
    }
}

} // verus!
