//! Annotations (`<annotation>` with its `<appinfo>` and `<documentation>`
//! blocks) attached to schema constructs.
use vstd::prelude::*;

use crate::attributes::{
    foreign_attrs, opt_id, parse_additional_attributes, parse_id, parse_text_content,
    text_children, Id,
};
use crate::text::string_views;
use crate::dom::{
    attr_value, attr_value_ns, attr_views, attribute, attribute_ns, first_xsd_child, parse_child, parse_children, xsd_children, AttrView, XmlAttribute, XmlElement, XML_NS_URI,
};

verus! {

/// A URI reference (`xs:anyURI`).
#[derive(Debug, PartialEq, Eq)]
pub struct AnyUri {
    pub uri: String,
}

/// A language tag (`xml:lang`).
#[derive(Debug, PartialEq, Eq)]
pub struct Language {
    pub iso_code: String,
}

/// An `<appinfo>` block: its source, other-namespace attributes and text.
#[derive(Debug, PartialEq, Eq)]
pub struct AppInfo {
    pub source: Option<AnyUri>,
    pub additional_attributes: Vec<XmlAttribute>,
    pub content: Vec<String>,
}

/// A `<documentation>` block: its source, language, other-namespace
/// attributes and text.
#[derive(Debug, PartialEq, Eq)]
pub struct Documentation {
    pub source: Option<AnyUri>,
    pub language: Option<Language>,
    pub additional_attributes: Vec<XmlAttribute>,
    pub content: Vec<String>,
}

/// An `<annotation>`.
#[derive(Debug, PartialEq, Eq)]
pub struct Annotation {
    pub id: Option<Id>,
    pub additional_attributes: Vec<XmlAttribute>,
    pub app_info: Vec<AppInfo>,
    pub documentation: Vec<Documentation>,
}

pub struct AppInfoView {
    pub source: Option<Seq<char>>,
    pub additional_attributes: Seq<AttrView>,
    pub content: Seq<Seq<char>>,
}

pub struct DocumentationView {
    pub source: Option<Seq<char>>,
    pub language: Option<Seq<char>>,
    pub additional_attributes: Seq<AttrView>,
    pub content: Seq<Seq<char>>,
}

pub struct AnnotationView {
    pub id: Option<Seq<char>>,
    pub additional_attributes: Seq<AttrView>,
    pub app_info: Seq<AppInfoView>,
    pub documentation: Seq<DocumentationView>,
}

pub open spec fn opt_uri(o: Option<AnyUri>) -> Option<Seq<char>> {
    match o {
        Some(u) => Some(u.uri@),
        None => None,
    }
}

pub open spec fn opt_language(o: Option<Language>) -> Option<Seq<char>> {
    match o {
        Some(l) => Some(l.iso_code@),
        None => None,
    }
}

impl View for AppInfo {
    type V = AppInfoView;

    open spec fn view(&self) -> AppInfoView {
        AppInfoView {
            source: opt_uri(self.source),
            additional_attributes: attr_views(self.additional_attributes@),
            content: string_views(self.content@),
        }
    }
}

impl View for Documentation {
    type V = DocumentationView;

    open spec fn view(&self) -> DocumentationView {
        DocumentationView {
            source: opt_uri(self.source),
            language: opt_language(self.language),
            additional_attributes: attr_views(self.additional_attributes@),
            content: string_views(self.content@),
        }
    }
}

impl View for Annotation {
    type V = AnnotationView;

    open spec fn view(&self) -> AnnotationView {
        AnnotationView {
            id: opt_id(self.id),
            additional_attributes: attr_views(self.additional_attributes@),
            app_info: self.app_info@.map_values(|a: AppInfo| a@),
            documentation: self.documentation@.map_values(|d: Documentation| d@),
        }
    }
}

pub open spec fn opt_annotation(o: Option<Annotation>) -> Option<AnnotationView> {
    match o {
        Some(a) => Some(a@),
        None => None,
    }
}

/// What an `<appinfo>` element holds.
pub open spec fn appinfo_of(e: XmlElement) -> AppInfoView {
    AppInfoView {
        source: attr_value(e, "source"@),
        additional_attributes: foreign_attrs(e.attributes@),
        content: text_children(e.children@),
    }
}

/// What a `<documentation>` element holds.
pub open spec fn documentation_of(e: XmlElement) -> DocumentationView {
    DocumentationView {
        source: attr_value(e, "source"@),
        language: attr_value_ns(e, Some(XML_NS_URI@), "lang"@),
        additional_attributes: foreign_attrs(e.attributes@),
        content: text_children(e.children@),
    }
}

/// What an `<annotation>` element holds.
pub open spec fn annotation_of(e: XmlElement) -> AnnotationView {
    AnnotationView {
        id: attr_value(e, "id"@),
        additional_attributes: foreign_attrs(e.attributes@),
        app_info: xsd_children(e.children@, "appinfo"@).map_values(|a: XmlElement| appinfo_of(a)),
        documentation: xsd_children(e.children@, "documentation"@).map_values(
            |d: XmlElement| documentation_of(d),
        ),
    }
}

/// The annotation attached to `e`: its first `<annotation>` child, if any.
pub open spec fn annotation_attached(e: XmlElement) -> Option<AnnotationView> {
    match first_xsd_child(e, "annotation"@) {
        Some(a) => Some(annotation_of(a)),
        None => None,
    }
}

fn parse_source(element: &XmlElement) -> (r: Option<AnyUri>)
    ensures
        opt_uri(r) == attr_value(*element, "source"@),
{
    match attribute(element, "source") {
        Some(v) => Some(AnyUri { uri: v.clone() }),
        None => None,
    }
}

fn parse_appinfo(element: &XmlElement) -> (r: AppInfo)
    ensures
        r@ == appinfo_of(*element),
{
    AppInfo {
        source: parse_source(element),
        additional_attributes: parse_additional_attributes(element),
        content: parse_text_content(element),
    }
}

fn parse_documentation(element: &XmlElement) -> (r: Documentation)
    ensures
        r@ == documentation_of(*element),
{
    let language = match attribute_ns(element, Some(XML_NS_URI), "lang") {
        Some(v) => Some(Language { iso_code: v.clone() }),
        None => None,
    };
    Documentation {
        source: parse_source(element),
        language,
        additional_attributes: parse_additional_attributes(element),
        content: parse_text_content(element),
    }
}

/// Reads an `<annotation>` element in full.
pub fn parse_annotation_element(element: &XmlElement) -> (r: Annotation)
    ensures
        r@ == annotation_of(*element),
{
    let infos = parse_children(element, "appinfo");
    let mut app_info: Vec<AppInfo> = Vec::new();
    let mut i: usize = 0;
    while i < infos.len()
        invariant
            i <= infos.len(),
            infos@.len() == xsd_children(element.children@, "appinfo"@).len(),
            forall|j: int|
                0 <= j < infos@.len() ==> *infos@[j] == #[trigger] xsd_children(
                    element.children@,
                    "appinfo"@,
                )[j],
            app_info@.len() == i,
            forall|j: int|
                0 <= j < i ==> (#[trigger] app_info@[j])@ == appinfo_of(
                    xsd_children(element.children@, "appinfo"@)[j],
                ),
        decreases infos.len() - i,
    {
        app_info.push(parse_appinfo(infos[i]));
        i += 1;
    }
    let docs = parse_children(element, "documentation");
    let mut documentation: Vec<Documentation> = Vec::new();
    let mut i: usize = 0;
    while i < docs.len()
        invariant
            i <= docs.len(),
            docs@.len() == xsd_children(element.children@, "documentation"@).len(),
            forall|j: int|
                0 <= j < docs@.len() ==> *docs@[j] == #[trigger] xsd_children(
                    element.children@,
                    "documentation"@,
                )[j],
            documentation@.len() == i,
            forall|j: int|
                0 <= j < i ==> (#[trigger] documentation@[j])@ == documentation_of(
                    xsd_children(element.children@, "documentation"@)[j],
                ),
        decreases docs.len() - i,
    {
        documentation.push(parse_documentation(docs[i]));
        i += 1;
    }
    let r = Annotation {
        id: parse_id(element),
        additional_attributes: parse_additional_attributes(element),
        app_info,
        documentation,
    };
    assert(r@.app_info =~= annotation_of(*element).app_info);
    assert(r@.documentation =~= annotation_of(*element).documentation);
    r
}

/// The annotation attached to `element`: its first `<annotation>` child.
pub fn parse_annotation(element: &XmlElement) -> (r: Option<Annotation>)
    ensures
        opt_annotation(r) == annotation_attached(*element),
{
    match parse_child(element, "annotation") {
        Some(a) => Some(parse_annotation_element(a)),
        None => None,
    }
}

/// All `<annotation>` children of `element`, in order.
pub fn parse_annotations(element: &XmlElement) -> (r: Vec<Annotation>)
    ensures
        r@.map_values(|a: Annotation| a@) == xsd_children(element.children@, "annotation"@).map_values(
            |a: XmlElement| annotation_of(a),
        ),
{
    let found = parse_children(element, "annotation");
    let mut out: Vec<Annotation> = Vec::new();
    let mut i: usize = 0;
    while i < found.len()
        invariant
            i <= found.len(),
            found@.len() == xsd_children(element.children@, "annotation"@).len(),
            forall|j: int|
                0 <= j < found@.len() ==> *found@[j] == #[trigger] xsd_children(
                    element.children@,
                    "annotation"@,
                )[j],
            out@.len() == i,
            forall|j: int|
                0 <= j < i ==> (#[trigger] out@[j])@ == annotation_of(
                    xsd_children(element.children@, "annotation"@)[j],
                ),
        decreases found.len() - i,
    {
        out.push(parse_annotation_element(found[i]));
        i += 1;
    }
    assert(out@.map_values(|a: Annotation| a@) =~= xsd_children(
        element.children@,
        "annotation"@,
    ).map_values(|a: XmlElement| annotation_of(a)));
    out
}

} // verus!
