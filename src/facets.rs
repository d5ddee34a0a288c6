//! Constraining facets: the rules a `<restriction>` places on its base type.
use vstd::prelude::*;

use crate::annotations::{annotation_attached, opt_annotation, parse_annotation, Annotation, AnnotationView};
use crate::attributes::{boolean_value, foreign_attrs, opt_id, parse_additional_attributes, parse_boolean_attribute, parse_id, Id};
use crate::dom::{attr_value, attr_views, attribute, AttrView, XmlAttribute, XmlElement, XmlNode, XSD_NS_URI, opt_str};
use crate::error::{missing_attribute, res_view, SchemaError, SchemaErrorView};
use crate::text::{digits_value, is_decimal, parse_count, str_eq};

verus! {

/// A bound on an ordered value space (`minInclusive` and the like): the
/// bound's lexical form.
#[derive(Debug, PartialEq, Eq)]
pub struct ValueFacet {
    pub id: Option<Id>,
    pub additional_attributes: Vec<XmlAttribute>,
    pub value: String,
    pub fixed: bool,
    pub annotation: Option<Annotation>,
}

/// A facet whose value is a non-negative integer (`length`, `totalDigits`
/// and the like).
#[derive(Debug, PartialEq, Eq)]
pub struct CountFacet {
    pub id: Option<Id>,
    pub additional_attributes: Vec<XmlAttribute>,
    pub value: usize,
    pub fixed: bool,
    pub annotation: Option<Annotation>,
}

/// A facet whose value is taken as written (`pattern`, `enumeration`).
#[derive(Debug, PartialEq, Eq)]
pub struct LexicalFacet {
    pub id: Option<Id>,
    pub additional_attributes: Vec<XmlAttribute>,
    pub value: String,
    pub annotation: Option<Annotation>,
}

pub type MinExclusive = ValueFacet;
pub type MinInclusive = ValueFacet;
pub type MaxExclusive = ValueFacet;
pub type MaxInclusive = ValueFacet;
pub type TotalDigits = CountFacet;
pub type FractionDigits = CountFacet;
pub type Length = CountFacet;
pub type MinLength = CountFacet;
pub type MaxLength = CountFacet;
pub type Enumeration = LexicalFacet;
pub type Pattern = LexicalFacet;

/// How whitespace in a value is normalised.
#[derive(Debug, PartialEq, Eq, Clone, Copy)]
pub enum WhiteSpaceValue {
    Collapse,
    Preserve,
    Replace,
}

/// The `whiteSpace` facet.
#[derive(Debug, PartialEq, Eq)]
pub struct WhiteSpace {
    pub id: Option<Id>,
    pub additional_attributes: Vec<XmlAttribute>,
    pub value: WhiteSpaceValue,
    pub fixed: bool,
    pub annotation: Option<Annotation>,
}

/// One facet of a restriction.
#[derive(Debug, PartialEq, Eq)]
pub enum RestrictionRule {
    MinExclusive(MinExclusive),
    MinInclusive(MinInclusive),
    MaxExclusive(MaxExclusive),
    MaxInclusive(MaxInclusive),
    TotalDigits(TotalDigits),
    FractionDigits(FractionDigits),
    Length(Length),
    MinLength(MinLength),
    MaxLength(MaxLength),
    Enumeration(Enumeration),
    WhiteSpace(WhiteSpace),
    Pattern(Pattern),
}

pub struct ValueFacetView {
    pub id: Option<Seq<char>>,
    pub additional_attributes: Seq<AttrView>,
    pub value: Seq<char>,
    pub fixed: bool,
    pub annotation: Option<AnnotationView>,
}

pub struct CountFacetView {
    pub id: Option<Seq<char>>,
    pub additional_attributes: Seq<AttrView>,
    pub value: usize,
    pub fixed: bool,
    pub annotation: Option<AnnotationView>,
}

pub struct LexicalFacetView {
    pub id: Option<Seq<char>>,
    pub additional_attributes: Seq<AttrView>,
    pub value: Seq<char>,
    pub annotation: Option<AnnotationView>,
}

pub struct WhiteSpaceView {
    pub id: Option<Seq<char>>,
    pub additional_attributes: Seq<AttrView>,
    pub value: WhiteSpaceValue,
    pub fixed: bool,
    pub annotation: Option<AnnotationView>,
}

pub enum RestrictionRuleView {
    MinExclusive(ValueFacetView),
    MinInclusive(ValueFacetView),
    MaxExclusive(ValueFacetView),
    MaxInclusive(ValueFacetView),
    TotalDigits(CountFacetView),
    FractionDigits(CountFacetView),
    Length(CountFacetView),
    MinLength(CountFacetView),
    MaxLength(CountFacetView),
    Enumeration(LexicalFacetView),
    WhiteSpace(WhiteSpaceView),
    Pattern(LexicalFacetView),
}

impl View for ValueFacet {
    type V = ValueFacetView;

    open spec fn view(&self) -> ValueFacetView {
        ValueFacetView {
            id: opt_id(self.id),
            additional_attributes: attr_views(self.additional_attributes@),
            value: self.value@,
            fixed: self.fixed,
            annotation: opt_annotation(self.annotation),
        }
    }
}

impl View for CountFacet {
    type V = CountFacetView;

    open spec fn view(&self) -> CountFacetView {
        CountFacetView {
            id: opt_id(self.id),
            additional_attributes: attr_views(self.additional_attributes@),
            value: self.value,
            fixed: self.fixed,
            annotation: opt_annotation(self.annotation),
        }
    }
}

impl View for LexicalFacet {
    type V = LexicalFacetView;

    open spec fn view(&self) -> LexicalFacetView {
        LexicalFacetView {
            id: opt_id(self.id),
            additional_attributes: attr_views(self.additional_attributes@),
            value: self.value@,
            annotation: opt_annotation(self.annotation),
        }
    }
}

impl View for WhiteSpace {
    type V = WhiteSpaceView;

    open spec fn view(&self) -> WhiteSpaceView {
        WhiteSpaceView {
            id: opt_id(self.id),
            additional_attributes: attr_views(self.additional_attributes@),
            value: self.value,
            fixed: self.fixed,
            annotation: opt_annotation(self.annotation),
        }
    }
}

impl View for RestrictionRule {
    type V = RestrictionRuleView;

    open spec fn view(&self) -> RestrictionRuleView {
        match self {
            RestrictionRule::MinExclusive(f) => RestrictionRuleView::MinExclusive(f@),
            RestrictionRule::MinInclusive(f) => RestrictionRuleView::MinInclusive(f@),
            RestrictionRule::MaxExclusive(f) => RestrictionRuleView::MaxExclusive(f@),
            RestrictionRule::MaxInclusive(f) => RestrictionRuleView::MaxInclusive(f@),
            RestrictionRule::TotalDigits(f) => RestrictionRuleView::TotalDigits(f@),
            RestrictionRule::FractionDigits(f) => RestrictionRuleView::FractionDigits(f@),
            RestrictionRule::Length(f) => RestrictionRuleView::Length(f@),
            RestrictionRule::MinLength(f) => RestrictionRuleView::MinLength(f@),
            RestrictionRule::MaxLength(f) => RestrictionRuleView::MaxLength(f@),
            RestrictionRule::Enumeration(f) => RestrictionRuleView::Enumeration(f@),
            RestrictionRule::WhiteSpace(f) => RestrictionRuleView::WhiteSpace(f@),
            RestrictionRule::Pattern(f) => RestrictionRuleView::Pattern(f@),
        }
    }
}

/// Whether `local` names a constraining facet.
pub open spec fn is_facet_name(local: Seq<char>) -> bool {
    local == "minExclusive"@ || local == "minInclusive"@ || local == "maxExclusive"@ || local == "maxInclusive"@ || local == "totalDigits"@ || local == "fractionDigits"@ || local == "length"@ || local == "minLength"@ || local == "maxLength"@ || local == "enumeration"@ || local == "pattern"@ || local == "whiteSpace"@
}

/// Whether `e` is a facet element of the XSD namespace.
pub open spec fn is_facet(e: XmlElement) -> bool {
    opt_str(e.name.namespace_uri) == Some(XSD_NS_URI@) && is_facet_name(e.name.local_part@)
}

/// The facet elements among `nodes`, in document order.
pub open spec fn facet_children(nodes: Seq<XmlNode>) -> Seq<XmlElement>
    decreases nodes.len(),
{
    if nodes.len() == 0 {
        Seq::empty()
    } else {
        let init = facet_children(nodes.drop_last());
        match nodes.last() {
            XmlNode::Element(c) => if is_facet(c) {
                init.push(c)
            } else {
                init
            },
            XmlNode::Text(_) => init,
        }
    }
}

pub open spec fn value_facet_of(e: XmlElement, v: Seq<char>) -> ValueFacetView {
    ValueFacetView {
        id: attr_value(e, "id"@),
        additional_attributes: foreign_attrs(e.attributes@),
        value: v,
        fixed: boolean_value(attr_value(e, "fixed"@), false),
        annotation: annotation_attached(e),
    }
}

/// The facet, when `v` is a non-negative integer that fits in `usize`.
pub open spec fn count_facet_of(e: XmlElement, v: Seq<char>) -> Option<CountFacetView> {
    if is_decimal(v) && digits_value(v) <= usize::MAX {
        Some(
            CountFacetView {
                id: attr_value(e, "id"@),
                additional_attributes: foreign_attrs(e.attributes@),
                value: digits_value(v) as usize,
                fixed: boolean_value(attr_value(e, "fixed"@), false),
                annotation: annotation_attached(e),
            },
        )
    } else {
        None
    }
}

pub open spec fn lexical_facet_of(e: XmlElement, v: Seq<char>) -> LexicalFacetView {
    LexicalFacetView {
        id: attr_value(e, "id"@),
        additional_attributes: foreign_attrs(e.attributes@),
        value: v,
        annotation: annotation_attached(e),
    }
}

pub open spec fn whitespace_word(v: Seq<char>) -> Option<WhiteSpaceValue> {
    if v == "collapse"@ {
        Some(WhiteSpaceValue::Collapse)
    } else if v == "preserve"@ {
        Some(WhiteSpaceValue::Preserve)
    } else if v == "replace"@ {
        Some(WhiteSpaceValue::Replace)
    } else {
        None
    }
}

pub open spec fn white_space_of(e: XmlElement, w: WhiteSpaceValue) -> WhiteSpaceView {
    WhiteSpaceView {
        id: attr_value(e, "id"@),
        additional_attributes: foreign_attrs(e.attributes@),
        value: w,
        fixed: boolean_value(attr_value(e, "fixed"@), false),
        annotation: annotation_attached(e),
    }
}

/// What a facet element reads as: its `value` is required; a count that is
/// not a non-negative integer, or a `whiteSpace` word outside its vocabulary,
/// is an `UnknownFacet` error.
pub open spec fn facet_of(e: XmlElement) -> Result<RestrictionRuleView, SchemaErrorView> {
    match attr_value(e, "value"@) {
        None => Err(SchemaErrorView::MissingAttribute { element: e.name.local_part@, attribute: "value"@ }),
        Some(v) => {
            let local = e.name.local_part@;
            if local == "minExclusive"@ {
            Ok(RestrictionRuleView::MinExclusive(value_facet_of(e, v)))
        } else if local == "minInclusive"@ {
            Ok(RestrictionRuleView::MinInclusive(value_facet_of(e, v)))
        } else if local == "maxExclusive"@ {
            Ok(RestrictionRuleView::MaxExclusive(value_facet_of(e, v)))
        } else if local == "maxInclusive"@ {
            Ok(RestrictionRuleView::MaxInclusive(value_facet_of(e, v)))
        } else if local == "totalDigits"@ {
            match count_facet_of(e, v) {
                Some(f) => Ok(RestrictionRuleView::TotalDigits(f)),
                None => Err(SchemaErrorView::UnknownFacet { element: local, token: v }),
            }
        } else if local == "fractionDigits"@ {
            match count_facet_of(e, v) {
                Some(f) => Ok(RestrictionRuleView::FractionDigits(f)),
                None => Err(SchemaErrorView::UnknownFacet { element: local, token: v }),
            }
        } else if local == "length"@ {
            match count_facet_of(e, v) {
                Some(f) => Ok(RestrictionRuleView::Length(f)),
                None => Err(SchemaErrorView::UnknownFacet { element: local, token: v }),
            }
        } else if local == "minLength"@ {
            match count_facet_of(e, v) {
                Some(f) => Ok(RestrictionRuleView::MinLength(f)),
                None => Err(SchemaErrorView::UnknownFacet { element: local, token: v }),
            }
        } else if local == "maxLength"@ {
            match count_facet_of(e, v) {
                Some(f) => Ok(RestrictionRuleView::MaxLength(f)),
                None => Err(SchemaErrorView::UnknownFacet { element: local, token: v }),
            }
        } else if local == "whiteSpace"@ {
            match whitespace_word(v) {
                Some(w) => Ok(RestrictionRuleView::WhiteSpace(white_space_of(e, w))),
                None => Err(SchemaErrorView::UnknownFacet { element: local, token: v }),
            }
        } else if local == "enumeration"@ {
            Ok(RestrictionRuleView::Enumeration(lexical_facet_of(e, v)))
        } else {
            Ok(RestrictionRuleView::Pattern(lexical_facet_of(e, v)))
        }
        },
    }
}

fn parse_value_facet(element: &XmlElement, value: &String) -> (r: ValueFacet)
    ensures
        r@ == value_facet_of(*element, value@),
{
    ValueFacet {
        id: parse_id(element),
        additional_attributes: parse_additional_attributes(element),
        value: value.clone(),
        fixed: parse_boolean_attribute(element, "fixed", false),
        annotation: parse_annotation(element),
    }
}

fn parse_count_facet(element: &XmlElement, value: &String) -> (r: Option<CountFacet>)
    ensures
        match r {
            Some(f) => count_facet_of(*element, value@) == Some(f@),
            None => count_facet_of(*element, value@) is None,
        },
{
    match parse_count(value.as_str()) {
        Some(n) => Some(
            CountFacet {
                id: parse_id(element),
                additional_attributes: parse_additional_attributes(element),
                value: n,
                fixed: parse_boolean_attribute(element, "fixed", false),
                annotation: parse_annotation(element),
            },
        ),
        None => None,
    }
}

fn parse_lexical_facet(element: &XmlElement, value: &String) -> (r: LexicalFacet)
    ensures
        r@ == lexical_facet_of(*element, value@),
{
    LexicalFacet {
        id: parse_id(element),
        additional_attributes: parse_additional_attributes(element),
        value: value.clone(),
        annotation: parse_annotation(element),
    }
}

fn whitespace_from_word(v: &str) -> (r: Option<WhiteSpaceValue>)
    ensures
        r == whitespace_word(v@),
{
    if str_eq(v, "collapse") {
        Some(WhiteSpaceValue::Collapse)
    } else if str_eq(v, "preserve") {
        Some(WhiteSpaceValue::Preserve)
    } else if str_eq(v, "replace") {
        Some(WhiteSpaceValue::Replace)
    } else {
        None
    }
}

fn parse_white_space(element: &XmlElement, w: WhiteSpaceValue) -> (r: WhiteSpace)
    ensures
        r@ == white_space_of(*element, w),
{
    WhiteSpace {
        id: parse_id(element),
        additional_attributes: parse_additional_attributes(element),
        value: w,
        fixed: parse_boolean_attribute(element, "fixed", false),
        annotation: parse_annotation(element),
    }
}

fn unknown_token(element: &XmlElement, value: &String) -> (r: SchemaError)
    ensures
        r@ == (SchemaErrorView::UnknownFacet { element: element.name.local_part@, token: value@ }),
{
    SchemaError::UnknownFacet { element: element.name.local_part.clone(), token: value.clone() }
}

/// Whether `element` is a facet element of the XSD namespace.
pub fn is_facet_element(element: &XmlElement) -> (r: bool)
    ensures
        r == is_facet(*element),
{
    let in_xsd = match &element.name.namespace_uri {
        Some(ns) => str_eq(ns.as_str(), XSD_NS_URI),
        None => false,
    };
    let local = element.name.local_part.as_str();
    in_xsd && (str_eq(local, "minExclusive") || str_eq(local, "minInclusive") || str_eq(local, "maxExclusive") || str_eq(local, "maxInclusive") || str_eq(local, "totalDigits") || str_eq(local, "fractionDigits") || str_eq(local, "length") || str_eq(local, "minLength") || str_eq(local, "maxLength") || str_eq(local, "enumeration") || str_eq(local, "pattern") || str_eq(local, "whiteSpace"))
}

/// Reads one facet element.
pub fn parse_facet(element: &XmlElement) -> (r: Result<RestrictionRule, SchemaError>)
    ensures
        res_view(r) == facet_of(*element),
{
    let value = match attribute(element, "value") {
        Some(v) => v,
        None => {
            return Err(missing_attribute(&element.name.local_part, "value"));
        },
    };
    let local = element.name.local_part.as_str();
    if str_eq(local, "minExclusive") {
        Ok(RestrictionRule::MinExclusive(parse_value_facet(element, value)))
    } else if str_eq(local, "minInclusive") {
        Ok(RestrictionRule::MinInclusive(parse_value_facet(element, value)))
    } else if str_eq(local, "maxExclusive") {
        Ok(RestrictionRule::MaxExclusive(parse_value_facet(element, value)))
    } else if str_eq(local, "maxInclusive") {
        Ok(RestrictionRule::MaxInclusive(parse_value_facet(element, value)))
    } else if str_eq(local, "totalDigits") {
        match parse_count_facet(element, value) {
            Some(f) => Ok(RestrictionRule::TotalDigits(f)),
            None => Err(unknown_token(element, value)),
        }
    } else if str_eq(local, "fractionDigits") {
        match parse_count_facet(element, value) {
            Some(f) => Ok(RestrictionRule::FractionDigits(f)),
            None => Err(unknown_token(element, value)),
        }
    } else if str_eq(local, "length") {
        match parse_count_facet(element, value) {
            Some(f) => Ok(RestrictionRule::Length(f)),
            None => Err(unknown_token(element, value)),
        }
    } else if str_eq(local, "minLength") {
        match parse_count_facet(element, value) {
            Some(f) => Ok(RestrictionRule::MinLength(f)),
            None => Err(unknown_token(element, value)),
        }
    } else if str_eq(local, "maxLength") {
        match parse_count_facet(element, value) {
            Some(f) => Ok(RestrictionRule::MaxLength(f)),
            None => Err(unknown_token(element, value)),
        }
    } else if str_eq(local, "whiteSpace") {
        match whitespace_from_word(value.as_str()) {
            Some(w) => Ok(RestrictionRule::WhiteSpace(parse_white_space(element, w))),
            None => Err(unknown_token(element, value)),
        }
    } else if str_eq(local, "enumeration") {
        Ok(RestrictionRule::Enumeration(parse_lexical_facet(element, value)))
    } else {
        Ok(RestrictionRule::Pattern(parse_lexical_facet(element, value)))
    }
}

/// The facet elements among the children of `element`, in document order.
pub fn facet_elements<'a>(element: &'a XmlElement) -> (r: Vec<&'a XmlElement>)
    ensures
        r@.len() == facet_children(element.children@).len(),
        forall|i: int| 0 <= i < r@.len() ==> *r@[i] == #[trigger] facet_children(element.children@)[i],
{
    let mut out: Vec<&'a XmlElement> = Vec::new();
    let mut i: usize = 0;
    while i < element.children.len()
        invariant
            i <= element.children.len(),
            out@.len() == facet_children(element.children@.take(i as int)).len(),
            forall|j: int|
                0 <= j < out@.len() ==> *out@[j] == #[trigger] facet_children(
                    element.children@.take(i as int),
                )[j],
        decreases element.children.len() - i,
    {
        assert(element.children@.take(i + 1).drop_last() =~= element.children@.take(i as int));
        match &element.children[i] {
            XmlNode::Element(c) => {
                if is_facet_element(c) {
                    out.push(c);
                }
            },
            XmlNode::Text(_) => {},
        }
        i += 1;
    }
    assert(element.children@.take(i as int) =~= element.children@);
    out
}

} // verus!
