//! User-defined simple and complex types, and the type parser that reads them
//! from `<simpleType>` and `<complexType>` elements.
use vstd::prelude::*;

use crate::annotations::{
    annotation_attached, opt_annotation, parse_annotation, Annotation, AnnotationView,
};
use crate::attributes::{
    boolean_value, foreign_attrs, opt_id, parse_additional_attributes, parse_boolean_attribute,
    parse_id, Id,
};
use crate::builtins::{resolve_type_name, type_ref, AnySimpleType, AnySimpleTypeView};
use crate::dom::{
    attr_value, attr_views, attribute, is_of_element, is_xsd, AttrView, XmlAttribute,
    XmlElement, XmlNode, };
use crate::error::{
    all_ok, lemma_all_ok_err_stays, lemma_all_ok_step, lemma_all_ok_whole, missing_attribute,
    res_view, SchemaError, SchemaErrorView,
};
use crate::facets::{
    facet_children, facet_elements, facet_of, parse_facet, RestrictionRule, RestrictionRuleView,
};
use crate::modes::{modes_result, parse_modes, ComplexBlock, ComplexFinal, SimpleFinal};
use crate::text::{split_tokens, string_views, tokens};

verus! {

/// `<restriction>`: a base type narrowed by facets.
#[derive(Debug, PartialEq, Eq)]
pub struct Restriction {
    pub id: Option<Id>,
    pub additional_attributes: Vec<XmlAttribute>,
    pub annotation: Option<Annotation>,
    pub restriction_type: AnySimpleType,
    pub rules: Vec<RestrictionRule>,
}

/// `<union>`: the union of the member types' value spaces.
#[derive(Debug, PartialEq, Eq)]
pub struct Union {
    pub id: Option<Id>,
    pub additional_attributes: Vec<XmlAttribute>,
    pub annotation: Option<Annotation>,
    pub member_types: Vec<AnySimpleType>,
}

/// `<list>`: whitespace-separated lists of the item type.
#[derive(Debug, PartialEq, Eq)]
pub struct List {
    pub id: Option<Id>,
    pub additional_attributes: Vec<XmlAttribute>,
    pub annotation: Option<Annotation>,
    pub item_type: AnySimpleType,
}

/// What a simple type is derived by: exactly one of these.
#[derive(Debug, PartialEq, Eq)]
pub enum SimpleTypeContent {
    Restriction(Restriction),
    List(List),
    Union(Union),
}

/// A named `<simpleType>`.
#[derive(Debug, PartialEq, Eq)]
pub struct SimpleType {
    pub id: Option<Id>,
    pub name: String,
    pub content: Box<SimpleTypeContent>,
    pub annotation: Option<Annotation>,
    pub final_modes: Vec<SimpleFinal>,
    pub additional_attributes: Vec<XmlAttribute>,
}

/// The kind of content model a complex type declares; what the model holds
/// is not read.
#[derive(Debug, PartialEq, Eq, Clone, Copy, Structural)]
pub enum ContentModel {
    SimpleContent,
    ComplexContent,
    Group,
    All,
    Choice,
    Sequence,
}

/// A named `<complexType>`, with the kind of its content model.
#[derive(Debug, PartialEq, Eq)]
pub struct ComplexType {
    pub name: String,
    pub id: Option<Id>,
    pub is_mixed: bool,
    pub annotation: Option<Annotation>,
    pub is_abstract: bool,
    pub block_modes: Vec<ComplexBlock>,
    pub final_modes: Vec<ComplexFinal>,
    pub additional_attributes: Vec<XmlAttribute>,
    pub content_model: Option<ContentModel>,
}

/// A type declared at the top level of a schema.
#[derive(Debug, PartialEq, Eq)]
pub enum TopLevelType {
    SimpleType(SimpleType),
    ComplexType(ComplexType),
}

pub struct RestrictionView {
    pub id: Option<Seq<char>>,
    pub additional_attributes: Seq<AttrView>,
    pub annotation: Option<AnnotationView>,
    pub restriction_type: AnySimpleTypeView,
    pub rules: Seq<RestrictionRuleView>,
}

pub struct UnionView {
    pub id: Option<Seq<char>>,
    pub additional_attributes: Seq<AttrView>,
    pub annotation: Option<AnnotationView>,
    pub member_types: Seq<AnySimpleTypeView>,
}

pub struct ListView {
    pub id: Option<Seq<char>>,
    pub additional_attributes: Seq<AttrView>,
    pub annotation: Option<AnnotationView>,
    pub item_type: AnySimpleTypeView,
}

pub enum SimpleTypeContentView {
    Restriction(RestrictionView),
    List(ListView),
    Union(UnionView),
}

pub struct SimpleTypeView {
    pub id: Option<Seq<char>>,
    pub name: Seq<char>,
    pub content: SimpleTypeContentView,
    pub annotation: Option<AnnotationView>,
    pub final_modes: Seq<SimpleFinal>,
    pub additional_attributes: Seq<AttrView>,
}

pub struct ComplexTypeView {
    pub name: Seq<char>,
    pub id: Option<Seq<char>>,
    pub is_mixed: bool,
    pub annotation: Option<AnnotationView>,
    pub is_abstract: bool,
    pub block_modes: Seq<ComplexBlock>,
    pub final_modes: Seq<ComplexFinal>,
    pub additional_attributes: Seq<AttrView>,
    pub content_model: Option<ContentModel>,
}

pub enum TopLevelTypeView {
    SimpleType(SimpleTypeView),
    ComplexType(ComplexTypeView),
}

impl View for Restriction {
    type V = RestrictionView;

    open spec fn view(&self) -> RestrictionView {
        RestrictionView {
            id: opt_id(self.id),
            additional_attributes: attr_views(self.additional_attributes@),
            annotation: opt_annotation(self.annotation),
            restriction_type: self.restriction_type@,
            rules: self.rules@.map_values(|r: RestrictionRule| r@),
        }
    }
}

impl View for Union {
    type V = UnionView;

    open spec fn view(&self) -> UnionView {
        UnionView {
            id: opt_id(self.id),
            additional_attributes: attr_views(self.additional_attributes@),
            annotation: opt_annotation(self.annotation),
            member_types: self.member_types@.map_values(|t: AnySimpleType| t@),
        }
    }
}

impl View for List {
    type V = ListView;

    open spec fn view(&self) -> ListView {
        ListView {
            id: opt_id(self.id),
            additional_attributes: attr_views(self.additional_attributes@),
            annotation: opt_annotation(self.annotation),
            item_type: self.item_type@,
        }
    }
}

impl View for SimpleTypeContent {
    type V = SimpleTypeContentView;

    open spec fn view(&self) -> SimpleTypeContentView {
        match self {
            SimpleTypeContent::Restriction(r) => SimpleTypeContentView::Restriction(r@),
            SimpleTypeContent::List(l) => SimpleTypeContentView::List(l@),
            SimpleTypeContent::Union(u) => SimpleTypeContentView::Union(u@),
        }
    }
}

impl View for SimpleType {
    type V = SimpleTypeView;

    open spec fn view(&self) -> SimpleTypeView {
        SimpleTypeView {
            id: opt_id(self.id),
            name: self.name@,
            content: (*self.content)@,
            annotation: opt_annotation(self.annotation),
            final_modes: self.final_modes@,
            additional_attributes: attr_views(self.additional_attributes@),
        }
    }
}

impl View for ComplexType {
    type V = ComplexTypeView;

    open spec fn view(&self) -> ComplexTypeView {
        ComplexTypeView {
            name: self.name@,
            id: opt_id(self.id),
            is_mixed: self.is_mixed,
            annotation: opt_annotation(self.annotation),
            is_abstract: self.is_abstract,
            block_modes: self.block_modes@,
            final_modes: self.final_modes@,
            additional_attributes: attr_views(self.additional_attributes@),
            content_model: self.content_model,
        }
    }
}

impl View for TopLevelType {
    type V = TopLevelTypeView;

    open spec fn view(&self) -> TopLevelTypeView {
        match self {
            TopLevelType::SimpleType(s) => TopLevelTypeView::SimpleType(s@),
            TopLevelType::ComplexType(c) => TopLevelTypeView::ComplexType(c@),
        }
    }
}

/// The facets of a `<restriction>`, in document order, or the first error.
pub open spec fn rules_of(r: XmlElement) -> Result<Seq<RestrictionRuleView>, SchemaErrorView> {
    all_ok(facet_children(r.children@).map_values(|f: XmlElement| facet_of(f)))
}

/// What a `<restriction>` element reads as; `base` is required.
pub open spec fn restriction_of(r: XmlElement) -> Result<RestrictionView, SchemaErrorView> {
    match attr_value(r, "base"@) {
        None => Err(
            SchemaErrorView::MissingAttribute { element: r.name.local_part@, attribute: "base"@ },
        ),
        Some(b) => match rules_of(r) {
            Err(e) => Err(e),
            Ok(rules) => Ok(
                RestrictionView {
                    id: attr_value(r, "id"@),
                    additional_attributes: foreign_attrs(r.attributes@),
                    annotation: annotation_attached(r),
                    restriction_type: type_ref(r, b),
                    rules,
                },
            ),
        },
    }
}

/// What a `<list>` element reads as; `itemType` is required.
pub open spec fn list_of(l: XmlElement) -> Result<ListView, SchemaErrorView> {
    match attr_value(l, "itemType"@) {
        None => Err(
            SchemaErrorView::MissingAttribute {
                element: l.name.local_part@,
                attribute: "itemType"@,
            },
        ),
        Some(t) => Ok(
            ListView {
                id: attr_value(l, "id"@),
                additional_attributes: foreign_attrs(l.attributes@),
                annotation: annotation_attached(l),
                item_type: type_ref(l, t),
            },
        ),
    }
}

/// The member types named by a `<union>`'s `memberTypes` list.
pub open spec fn members_of(u: XmlElement) -> Seq<AnySimpleTypeView> {
    match attr_value(u, "memberTypes"@) {
        None => Seq::empty(),
        Some(v) => tokens(v).map_values(|t: Seq<char>| type_ref(u, t)),
    }
}

/// What a `<union>` element reads as.
pub open spec fn union_of(u: XmlElement) -> UnionView {
    UnionView {
        id: attr_value(u, "id"@),
        additional_attributes: foreign_attrs(u.attributes@),
        annotation: annotation_attached(u),
        member_types: members_of(u),
    }
}

/// Whether `e` is one of the XSD elements that give a simple type's content.
pub open spec fn is_content(e: XmlElement) -> bool {
    is_xsd(e, "restriction"@) || is_xsd(e, "list"@) || is_xsd(e, "union"@)
}

/// The content elements among `nodes`, in document order.
pub open spec fn content_children(nodes: Seq<XmlNode>) -> Seq<XmlElement>
    decreases nodes.len(),
{
    if nodes.len() == 0 {
        Seq::empty()
    } else {
        let init = content_children(nodes.drop_last());
        match nodes.last() {
            XmlNode::Element(c) => if is_content(c) {
                init.push(c)
            } else {
                init
            },
            XmlNode::Text(_) => init,
        }
    }
}

/// What the content element `c` reads as.
pub open spec fn content_of(c: XmlElement) -> Result<SimpleTypeContentView, SchemaErrorView> {
    if is_xsd(c, "restriction"@) {
        match restriction_of(c) {
            Ok(r) => Ok(SimpleTypeContentView::Restriction(r)),
            Err(e) => Err(e),
        }
    } else if is_xsd(c, "list"@) {
        match list_of(c) {
            Ok(l) => Ok(SimpleTypeContentView::List(l)),
            Err(e) => Err(e),
        }
    } else {
        Ok(SimpleTypeContentView::Union(union_of(c)))
    }
}

/// What a `<simpleType>` element reads as: `name` is required, then its
/// `final` list is read, then it must hold exactly one content element.
pub open spec fn simple_type_of(e: XmlElement) -> Result<SimpleTypeView, SchemaErrorView> {
    match attr_value(e, "name"@) {
        None => Err(
            SchemaErrorView::MissingAttribute { element: e.name.local_part@, attribute: "name"@ },
        ),
        Some(name) => match modes_result::<SimpleFinal>(e, "final"@) {
            Err(err) => Err(err),
            Ok(final_modes) => {
                let cs = content_children(e.children@);
                if cs.len() != 1 {
                    Err(SchemaErrorView::MalformedSimpleType { name })
                } else {
                    match content_of(cs[0]) {
                        Err(err) => Err(err),
                        Ok(content) => Ok(
                            SimpleTypeView {
                                id: attr_value(e, "id"@),
                                name,
                                content,
                                annotation: annotation_attached(e),
                                final_modes,
                                additional_attributes: foreign_attrs(e.attributes@),
                            },
                        ),
                    }
                }
            },
        },
    }
}

/// The content model that `e` declares, if it declares one.
pub open spec fn model_kind(e: XmlElement) -> Option<ContentModel> {
    if is_xsd(e, "simpleContent"@) {
        Some(ContentModel::SimpleContent)
    } else if is_xsd(e, "complexContent"@) {
        Some(ContentModel::ComplexContent)
    } else if is_xsd(e, "group"@) {
        Some(ContentModel::Group)
    } else if is_xsd(e, "all"@) {
        Some(ContentModel::All)
    } else if is_xsd(e, "choice"@) {
        Some(ContentModel::Choice)
    } else if is_xsd(e, "sequence"@) {
        Some(ContentModel::Sequence)
    } else {
        None
    }
}

/// The content-model elements among `nodes`, in document order.
pub open spec fn model_children(nodes: Seq<XmlNode>) -> Seq<XmlElement>
    decreases nodes.len(),
{
    if nodes.len() == 0 {
        Seq::empty()
    } else {
        let init = model_children(nodes.drop_last());
        match nodes.last() {
            XmlNode::Element(c) => if model_kind(c) is Some {
                init.push(c)
            } else {
                init
            },
            XmlNode::Text(_) => init,
        }
    }
}

/// What a `<complexType>` element reads as: `name` is required, then its
/// `block` and `final` lists are read, then it may hold at most one content
/// model; `mixed` and `abstract` default to false.
pub open spec fn complex_type_of(e: XmlElement) -> Result<ComplexTypeView, SchemaErrorView> {
    match attr_value(e, "name"@) {
        None => Err(
            SchemaErrorView::MissingAttribute { element: e.name.local_part@, attribute: "name"@ },
        ),
        Some(name) => match modes_result::<ComplexBlock>(e, "block"@) {
            Err(err) => Err(err),
            Ok(block_modes) => match modes_result::<ComplexFinal>(e, "final"@) {
                Err(err) => Err(err),
                Ok(final_modes) => if model_children(e.children@).len() > 1 {
                    Err(SchemaErrorView::MalformedComplexType { name })
                } else {
                    Ok(
                        ComplexTypeView {
                            name,
                            id: attr_value(e, "id"@),
                            is_mixed: boolean_value(attr_value(e, "mixed"@), false),
                            annotation: annotation_attached(e),
                            is_abstract: boolean_value(attr_value(e, "abstract"@), false),
                            block_modes,
                            final_modes,
                            additional_attributes: foreign_attrs(e.attributes@),
                            content_model: if model_children(e.children@).len() == 1 {
                                model_kind(model_children(e.children@)[0])
                            } else {
                                None
                            },
                        },
                    )
                },
            },
        },
    }
}

/// What a type element reads as: a simple type for `<simpleType>`, a complex
/// type otherwise.
pub open spec fn type_of(e: XmlElement) -> Result<TopLevelTypeView, SchemaErrorView> {
    if is_xsd(e, "simpleType"@) {
        match simple_type_of(e) {
            Ok(s) => Ok(TopLevelTypeView::SimpleType(s)),
            Err(err) => Err(err),
        }
    } else {
        match complex_type_of(e) {
            Ok(c) => Ok(TopLevelTypeView::ComplexType(c)),
            Err(err) => Err(err),
        }
    }
}

/// The content elements among the children of a `<simpleType>`.
pub fn content_elements<'a>(element: &'a XmlElement) -> (r: Vec<&'a XmlElement>)
    ensures
        r@.len() == content_children(element.children@).len(),
        forall|i: int| 0 <= i < r@.len() ==> *r@[i] == #[trigger] content_children(element.children@)[i],
{
    let mut out: Vec<&'a XmlElement> = Vec::new();
    let mut i: usize = 0;
    while i < element.children.len()
        invariant
            i <= element.children.len(),
            out@.len() == content_children(element.children@.take(i as int)).len(),
            forall|j: int|
                0 <= j < out@.len() ==> *out@[j] == #[trigger] content_children(
                    element.children@.take(i as int),
                )[j],
        decreases element.children.len() - i,
    {
        assert(element.children@.take(i + 1).drop_last() =~= element.children@.take(i as int));
        match &element.children[i] {
            XmlNode::Element(c) => {
                if (is_of_element(c, "restriction") || is_of_element(c, "list") || is_of_element(c, "union")) {
                    out.push(c);
                }
            },
            XmlNode::Text(_) => {},
        }
        i += 1;
    }
    assert(element.children@.take(i as int) =~= element.children@);
    out
}

/// The content-model elements among the children of a `<complexType>`.
pub fn model_elements<'a>(element: &'a XmlElement) -> (r: Vec<&'a XmlElement>)
    ensures
        r@.len() == model_children(element.children@).len(),
        forall|i: int| 0 <= i < r@.len() ==> *r@[i] == #[trigger] model_children(element.children@)[i],
{
    let mut out: Vec<&'a XmlElement> = Vec::new();
    let mut i: usize = 0;
    while i < element.children.len()
        invariant
            i <= element.children.len(),
            out@.len() == model_children(element.children@.take(i as int)).len(),
            forall|j: int|
                0 <= j < out@.len() ==> *out@[j] == #[trigger] model_children(
                    element.children@.take(i as int),
                )[j],
        decreases element.children.len() - i,
    {
        assert(element.children@.take(i + 1).drop_last() =~= element.children@.take(i as int));
        match &element.children[i] {
            XmlNode::Element(c) => {
                if content_model_of(c).is_some() {
                    out.push(c);
                }
            },
            XmlNode::Text(_) => {},
        }
        i += 1;
    }
    assert(element.children@.take(i as int) =~= element.children@);
    out
}

fn parse_rules(element: &XmlElement) -> (r: Result<Vec<RestrictionRule>, SchemaError>)
    ensures
        match r {
            Ok(rules) => rules_of(*element) == Ok::<Seq<RestrictionRuleView>, SchemaErrorView>(
                rules@.map_values(|x: RestrictionRule| x@),
            ),
            Err(e) => rules_of(*element) == Err::<Seq<RestrictionRuleView>, SchemaErrorView>(e@),
        },
{
    let found = facet_elements(element);
    let ghost specs = facet_children(element.children@).map_values(|f: XmlElement| facet_of(f));
    let mut rules: Vec<RestrictionRule> = Vec::new();
    assert(specs.take(0) =~= Seq::<Result<RestrictionRuleView, SchemaErrorView>>::empty());
    assert(rules@.map_values(|x: RestrictionRule| x@) =~= Seq::<RestrictionRuleView>::empty());
    let mut i: usize = 0;
    while i < found.len()
        invariant
            i <= found.len(),
            specs == facet_children(element.children@).map_values(|f: XmlElement| facet_of(f)),
            found@.len() == specs.len(),
            forall|j: int| 0 <= j < found@.len() ==> specs[j] == facet_of(*#[trigger] found@[j]),
            all_ok(specs.take(i as int)) == Ok::<Seq<RestrictionRuleView>, SchemaErrorView>(
                rules@.map_values(|x: RestrictionRule| x@),
            ),
        decreases found.len() - i,
    {
        proof {
            lemma_all_ok_step(specs, i as int);
        }
        match parse_facet(found[i]) {
            Ok(rule) => {
                let ghost before = rules@;
                rules.push(rule);
                assert(rules@.map_values(|x: RestrictionRule| x@) =~= before.map_values(
                    |x: RestrictionRule| x@,
                ).push(rule@));
            },
            Err(e) => {
                proof {
                    lemma_all_ok_err_stays(specs, i as int + 1, specs.len() as int);
                    lemma_all_ok_whole(specs);
                }
                return Err(e);
            },
        }
        i += 1;
    }
    proof {
        lemma_all_ok_whole(specs);
    }
    Ok(rules)
}

/// Reads a `<restriction>` element.
pub fn parse_restriction(element: &XmlElement) -> (r: Result<Restriction, SchemaError>)
    ensures
        res_view(r) == restriction_of(*element),
{
    let base = match attribute(element, "base") {
        Some(b) => b,
        None => {
            return Err(missing_attribute(&element.name.local_part, "base"));
        },
    };
    let rules = match parse_rules(element) {
        Ok(rules) => rules,
        Err(e) => {
            return Err(e);
        },
    };
    Ok(
        Restriction {
            id: parse_id(element),
            additional_attributes: parse_additional_attributes(element),
            annotation: parse_annotation(element),
            restriction_type: resolve_type_name(element, base.as_str()),
            rules,
        },
    )
}

/// Reads a `<list>` element.
pub fn parse_list(element: &XmlElement) -> (r: Result<List, SchemaError>)
    ensures
        res_view(r) == list_of(*element),
{
    let item = match attribute(element, "itemType") {
        Some(t) => t,
        None => {
            return Err(missing_attribute(&element.name.local_part, "itemType"));
        },
    };
    Ok(
        List {
            id: parse_id(element),
            additional_attributes: parse_additional_attributes(element),
            annotation: parse_annotation(element),
            item_type: resolve_type_name(element, item.as_str()),
        },
    )
}

/// Reads a `<union>` element.
pub fn parse_union(element: &XmlElement) -> (r: Union)
    ensures
        r@ == union_of(*element),
{
    let mut member_types: Vec<AnySimpleType> = Vec::new();
    match attribute(element, "memberTypes") {
        Some(v) => {
            let names = split_tokens(v.as_str());
            let ghost tv = tokens(v@);
            let mut i: usize = 0;
            while i < names.len()
                invariant
                    i <= names.len(),
                    string_views(names@) == tv,
                    member_types@.len() == i,
                    forall|j: int|
                        0 <= j < i ==> (#[trigger] member_types@[j])@ == type_ref(*element, tv[j]),
                decreases names.len() - i,
            {
                assert(names@[i as int]@ == tv[i as int]);
                member_types.push(resolve_type_name(element, names[i].as_str()));
                i += 1;
            }
            assert(member_types@.map_values(|t: AnySimpleType| t@) =~= members_of(*element));
        },
        None => {
            assert(member_types@.map_values(|t: AnySimpleType| t@) =~= members_of(*element));
        },
    }
    Union {
        id: parse_id(element),
        additional_attributes: parse_additional_attributes(element),
        annotation: parse_annotation(element),
        member_types,
    }
}

fn parse_content(element: &XmlElement) -> (r: Result<SimpleTypeContent, SchemaError>)
    ensures
        res_view(r) == content_of(*element),
{
    if is_of_element(element, "restriction") {
        match parse_restriction(element) {
            Ok(x) => Ok(SimpleTypeContent::Restriction(x)),
            Err(e) => Err(e),
        }
    } else if is_of_element(element, "list") {
        match parse_list(element) {
            Ok(x) => Ok(SimpleTypeContent::List(x)),
            Err(e) => Err(e),
        }
    } else {
        Ok(SimpleTypeContent::Union(parse_union(element)))
    }
}

/// Reads a named `<simpleType>` element.
pub fn parse_simple_type(element: &XmlElement) -> (r: Result<SimpleType, SchemaError>)
    ensures
        res_view(r) == simple_type_of(*element),
{
    let name = match attribute(element, "name") {
        Some(n) => n,
        None => {
            return Err(missing_attribute(&element.name.local_part, "name"));
        },
    };
    let final_modes = match parse_modes::<SimpleFinal>(element, "final") {
        Ok(m) => m,
        Err(e) => {
            return Err(e);
        },
    };
    let contents = content_elements(element);
    if contents.len() != 1 {
        return Err(SchemaError::MalformedSimpleType { name: name.clone() });
    }
    let content = match parse_content(contents[0]) {
        Ok(c) => c,
        Err(e) => {
            return Err(e);
        },
    };
    Ok(
        SimpleType {
            id: parse_id(element),
            name: name.clone(),
            content: Box::new(content),
            annotation: parse_annotation(element),
            final_modes,
            additional_attributes: parse_additional_attributes(element),
        },
    )
}

/// Reads a named `<complexType>` element.
pub fn parse_complex_type(element: &XmlElement) -> (r: Result<ComplexType, SchemaError>)
    ensures
        res_view(r) == complex_type_of(*element),
{
    let name = match attribute(element, "name") {
        Some(n) => n,
        None => {
            return Err(missing_attribute(&element.name.local_part, "name"));
        },
    };
    let block_modes = match parse_modes::<ComplexBlock>(element, "block") {
        Ok(m) => m,
        Err(e) => {
            return Err(e);
        },
    };
    let final_modes = match parse_modes::<ComplexFinal>(element, "final") {
        Ok(m) => m,
        Err(e) => {
            return Err(e);
        },
    };
    let models = model_elements(element);
    if models.len() > 1 {
        return Err(SchemaError::MalformedComplexType { name: name.clone() });
    }
    let content_model = if models.len() == 1 {
        content_model_of(models[0])
    } else {
        None
    };
    Ok(
        ComplexType {
            name: name.clone(),
            id: parse_id(element),
            is_mixed: parse_boolean_attribute(element, "mixed", false),
            annotation: parse_annotation(element),
            is_abstract: parse_boolean_attribute(element, "abstract", false),
            block_modes,
            final_modes,
            additional_attributes: parse_additional_attributes(element),
            content_model,
        },
    )
}

/// The content model that `element` declares, if it declares one.
pub fn content_model_of(element: &XmlElement) -> (r: Option<ContentModel>)
    ensures
        r == model_kind(*element),
{
    if is_of_element(element, "simpleContent") {
        Some(ContentModel::SimpleContent)
    } else if is_of_element(element, "complexContent") {
        Some(ContentModel::ComplexContent)
    } else if is_of_element(element, "group") {
        Some(ContentModel::Group)
    } else if is_of_element(element, "all") {
        Some(ContentModel::All)
    } else if is_of_element(element, "choice") {
        Some(ContentModel::Choice)
    } else if is_of_element(element, "sequence") {
        Some(ContentModel::Sequence)
    } else {
        None
    }
}

/// Reads a `<simpleType>` or, for any other element, a `<complexType>`.
pub fn parse_type(element: &XmlElement) -> (r: Result<TopLevelType, SchemaError>)
    ensures
        res_view(r) == type_of(*element),
{
    if is_of_element(element, "simpleType") {
        match parse_simple_type(element) {
            Ok(s) => Ok(TopLevelType::SimpleType(s)),
            Err(e) => Err(e),
        }
    } else {
        match parse_complex_type(element) {
            Ok(c) => Ok(TopLevelType::ComplexType(c)),
            Err(e) => Err(e),
        }
    }
}


/// Whether `e` declares a type: an XSD `simpleType` or `complexType`.
pub open spec fn is_type_decl(e: XmlElement) -> bool {
    is_xsd(e, "simpleType"@) || is_xsd(e, "complexType"@)
}

/// The type declarations among `nodes`, in document order.
pub open spec fn type_children(nodes: Seq<XmlNode>) -> Seq<XmlElement>
    decreases nodes.len(),
{
    if nodes.len() == 0 {
        Seq::empty()
    } else {
        let init = type_children(nodes.drop_last());
        match nodes.last() {
            XmlNode::Element(c) => if is_type_decl(c) {
                init.push(c)
            } else {
                init
            },
            XmlNode::Text(_) => init,
        }
    }
}

/// The types declared among the children of `e`, in document order, or the
/// first error.
pub open spec fn types_of(e: XmlElement) -> Result<Seq<TopLevelTypeView>, SchemaErrorView> {
    all_ok(type_children(e.children@).map_values(|t: XmlElement| type_of(t)))
}

/// Whether `element` declares a type.
pub fn is_type(element: &XmlElement) -> (r: bool)
    ensures
        r == is_type_decl(*element),
{
    is_of_element(element, "simpleType") || is_of_element(element, "complexType")
}

/// The type declarations among the children of `element`, in document order.
pub fn type_elements<'a>(element: &'a XmlElement) -> (r: Vec<&'a XmlElement>)
    ensures
        r@.len() == type_children(element.children@).len(),
        forall|i: int| 0 <= i < r@.len() ==> *r@[i] == #[trigger] type_children(element.children@)[i],
{
    let mut out: Vec<&'a XmlElement> = Vec::new();
    let mut i: usize = 0;
    while i < element.children.len()
        invariant
            i <= element.children.len(),
            out@.len() == type_children(element.children@.take(i as int)).len(),
            forall|j: int|
                0 <= j < out@.len() ==> *out@[j] == #[trigger] type_children(
                    element.children@.take(i as int),
                )[j],
        decreases element.children.len() - i,
    {
        assert(element.children@.take(i + 1).drop_last() =~= element.children@.take(i as int));
        match &element.children[i] {
            XmlNode::Element(c) => {
                if is_type(c) {
                    out.push(c);
                }
            },
            XmlNode::Text(_) => {},
        }
        i += 1;
    }
    assert(element.children@.take(i as int) =~= element.children@);
    out
}

/// Reads every type declared among the children of `element` (a `<schema>`),
/// in document order; the first one that fails gives the error.
pub fn parse_types(element: &XmlElement) -> (r: Result<Vec<TopLevelType>, SchemaError>)
    ensures
        match r {
            Ok(ts) => types_of(*element) == Ok::<Seq<TopLevelTypeView>, SchemaErrorView>(
                ts@.map_values(|t: TopLevelType| t@),
            ),
            Err(e) => types_of(*element) == Err::<Seq<TopLevelTypeView>, SchemaErrorView>(e@),
        },
{
    let found = type_elements(element);
    let ghost specs = type_children(element.children@).map_values(|t: XmlElement| type_of(t));
    let mut out: Vec<TopLevelType> = Vec::new();
    assert(specs.take(0) =~= Seq::<Result<TopLevelTypeView, SchemaErrorView>>::empty());
    assert(out@.map_values(|x: TopLevelType| x@) =~= Seq::<TopLevelTypeView>::empty());
    let mut i: usize = 0;
    while i < found.len()
        invariant
            i <= found.len(),
            specs == type_children(element.children@).map_values(|t: XmlElement| type_of(t)),
            found@.len() == specs.len(),
            forall|j: int| 0 <= j < found@.len() ==> specs[j] == type_of(*#[trigger] found@[j]),
            all_ok(specs.take(i as int)) == Ok::<Seq<TopLevelTypeView>, SchemaErrorView>(
                out@.map_values(|x: TopLevelType| x@),
            ),
        decreases found.len() - i,
    {
        proof {
            lemma_all_ok_step(specs, i as int);
        }
        match parse_type(found[i]) {
            Ok(t) => {
                let ghost before = out@;
                out.push(t);
                assert(out@.map_values(|x: TopLevelType| x@) =~= before.map_values(
                    |x: TopLevelType| x@,
                ).push(t@));
            },
            Err(e) => {
                proof {
                    lemma_all_ok_err_stays(specs, i as int + 1, specs.len() as int);
                    lemma_all_ok_whole(specs);
                }
                return Err(e);
            },
        }
        i += 1;
    }
    proof {
        lemma_all_ok_whole(specs);
    }
    Ok(out)
}

} // verus!
