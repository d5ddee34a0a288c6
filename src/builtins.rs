//! The built-in datatypes of XML Schema, and the resolution of a type's
//! qualified name to a built-in or to a reference to a named type.
use vstd::prelude::*;

use crate::dom::{opt_str, XmlElement, XmlNamespace, XSD_NS_URI};
use crate::text::str_eq;

verus! {

/// The built-in simple types, referenced as `xs:string` and so on. They hold
/// no value: their definitions are part of XML Schema itself.
#[derive(Debug, PartialEq, Eq, Clone, Copy)]
pub enum BuiltIn {
    String,
    NormalizedString,
    Token,
    Language,
    Name,
    NcName,
    Id,
    IdRef,
    IdRefs,
    Entity,
    Entities,
    NmToken,
    NmTokens,
    Boolean,
    Decimal,
    Integer,
    NonPositiveInteger,
    NegativeInteger,
    NonNegativeInteger,
    PositiveInteger,
    Long,
    UnsignedLong,
    Int,
    UnsignedInt,
    Short,
    UnsignedShort,
    Byte,
    UnsignedByte,
    Float,
    Double,
    Duration,
    DateTime,
    Time,
    Date,
    GYearMonth,
    GYear,
    GMonthDay,
    GDay,
    GMonth,
    HexBinary,
    Base64Binary,
    AnyUri,
    QName,
    Notation,
}

/// The built-in type whose name in the XSD namespace is `name`.
pub open spec fn builtin_named(name: Seq<char>) -> Option<BuiltIn> {
    if name == "string"@ {
        Some(BuiltIn::String)
    } else if name == "normalizedString"@ {
        Some(BuiltIn::NormalizedString)
    } else if name == "token"@ {
        Some(BuiltIn::Token)
    } else if name == "language"@ {
        Some(BuiltIn::Language)
    } else if name == "Name"@ {
        Some(BuiltIn::Name)
    } else if name == "NCName"@ {
        Some(BuiltIn::NcName)
    } else if name == "ID"@ {
        Some(BuiltIn::Id)
    } else if name == "IDREF"@ {
        Some(BuiltIn::IdRef)
    } else if name == "IDREFS"@ {
        Some(BuiltIn::IdRefs)
    } else if name == "ENTITY"@ {
        Some(BuiltIn::Entity)
    } else if name == "ENTITIES"@ {
        Some(BuiltIn::Entities)
    } else if name == "NMTOKEN"@ {
        Some(BuiltIn::NmToken)
    } else if name == "NMTOKENS"@ {
        Some(BuiltIn::NmTokens)
    } else if name == "boolean"@ {
        Some(BuiltIn::Boolean)
    } else if name == "decimal"@ {
        Some(BuiltIn::Decimal)
    } else if name == "integer"@ {
        Some(BuiltIn::Integer)
    } else if name == "nonPositiveInteger"@ {
        Some(BuiltIn::NonPositiveInteger)
    } else if name == "negativeInteger"@ {
        Some(BuiltIn::NegativeInteger)
    } else if name == "nonNegativeInteger"@ {
        Some(BuiltIn::NonNegativeInteger)
    } else if name == "positiveInteger"@ {
        Some(BuiltIn::PositiveInteger)
    } else if name == "long"@ {
        Some(BuiltIn::Long)
    } else if name == "unsignedLong"@ {
        Some(BuiltIn::UnsignedLong)
    } else if name == "int"@ {
        Some(BuiltIn::Int)
    } else if name == "unsignedInt"@ {
        Some(BuiltIn::UnsignedInt)
    } else if name == "short"@ {
        Some(BuiltIn::Short)
    } else if name == "unsignedShort"@ {
        Some(BuiltIn::UnsignedShort)
    } else if name == "byte"@ {
        Some(BuiltIn::Byte)
    } else if name == "unsignedByte"@ {
        Some(BuiltIn::UnsignedByte)
    } else if name == "float"@ {
        Some(BuiltIn::Float)
    } else if name == "double"@ {
        Some(BuiltIn::Double)
    } else if name == "duration"@ {
        Some(BuiltIn::Duration)
    } else if name == "dateTime"@ {
        Some(BuiltIn::DateTime)
    } else if name == "time"@ {
        Some(BuiltIn::Time)
    } else if name == "date"@ {
        Some(BuiltIn::Date)
    } else if name == "gYearMonth"@ {
        Some(BuiltIn::GYearMonth)
    } else if name == "gYear"@ {
        Some(BuiltIn::GYear)
    } else if name == "gMonthDay"@ {
        Some(BuiltIn::GMonthDay)
    } else if name == "gDay"@ {
        Some(BuiltIn::GDay)
    } else if name == "gMonth"@ {
        Some(BuiltIn::GMonth)
    } else if name == "hexBinary"@ {
        Some(BuiltIn::HexBinary)
    } else if name == "base64Binary"@ {
        Some(BuiltIn::Base64Binary)
    } else if name == "anyURI"@ {
        Some(BuiltIn::AnyUri)
    } else if name == "QName"@ {
        Some(BuiltIn::QName)
    } else if name == "NOTATION"@ {
        Some(BuiltIn::Notation)
    } else {
        None
    }
}

/// Looks up the built-in type with the given local name.
pub fn builtin_from_name(name: &str) -> (r: Option<BuiltIn>)
    ensures
        r == builtin_named(name@),
{
    if str_eq(name, "string") {
        Some(BuiltIn::String)
    } else if str_eq(name, "normalizedString") {
        Some(BuiltIn::NormalizedString)
    } else if str_eq(name, "token") {
        Some(BuiltIn::Token)
    } else if str_eq(name, "language") {
        Some(BuiltIn::Language)
    } else if str_eq(name, "Name") {
        Some(BuiltIn::Name)
    } else if str_eq(name, "NCName") {
        Some(BuiltIn::NcName)
    } else if str_eq(name, "ID") {
        Some(BuiltIn::Id)
    } else if str_eq(name, "IDREF") {
        Some(BuiltIn::IdRef)
    } else if str_eq(name, "IDREFS") {
        Some(BuiltIn::IdRefs)
    } else if str_eq(name, "ENTITY") {
        Some(BuiltIn::Entity)
    } else if str_eq(name, "ENTITIES") {
        Some(BuiltIn::Entities)
    } else if str_eq(name, "NMTOKEN") {
        Some(BuiltIn::NmToken)
    } else if str_eq(name, "NMTOKENS") {
        Some(BuiltIn::NmTokens)
    } else if str_eq(name, "boolean") {
        Some(BuiltIn::Boolean)
    } else if str_eq(name, "decimal") {
        Some(BuiltIn::Decimal)
    } else if str_eq(name, "integer") {
        Some(BuiltIn::Integer)
    } else if str_eq(name, "nonPositiveInteger") {
        Some(BuiltIn::NonPositiveInteger)
    } else if str_eq(name, "negativeInteger") {
        Some(BuiltIn::NegativeInteger)
    } else if str_eq(name, "nonNegativeInteger") {
        Some(BuiltIn::NonNegativeInteger)
    } else if str_eq(name, "positiveInteger") {
        Some(BuiltIn::PositiveInteger)
    } else if str_eq(name, "long") {
        Some(BuiltIn::Long)
    } else if str_eq(name, "unsignedLong") {
        Some(BuiltIn::UnsignedLong)
    } else if str_eq(name, "int") {
        Some(BuiltIn::Int)
    } else if str_eq(name, "unsignedInt") {
        Some(BuiltIn::UnsignedInt)
    } else if str_eq(name, "short") {
        Some(BuiltIn::Short)
    } else if str_eq(name, "unsignedShort") {
        Some(BuiltIn::UnsignedShort)
    } else if str_eq(name, "byte") {
        Some(BuiltIn::Byte)
    } else if str_eq(name, "unsignedByte") {
        Some(BuiltIn::UnsignedByte)
    } else if str_eq(name, "float") {
        Some(BuiltIn::Float)
    } else if str_eq(name, "double") {
        Some(BuiltIn::Double)
    } else if str_eq(name, "duration") {
        Some(BuiltIn::Duration)
    } else if str_eq(name, "dateTime") {
        Some(BuiltIn::DateTime)
    } else if str_eq(name, "time") {
        Some(BuiltIn::Time)
    } else if str_eq(name, "date") {
        Some(BuiltIn::Date)
    } else if str_eq(name, "gYearMonth") {
        Some(BuiltIn::GYearMonth)
    } else if str_eq(name, "gYear") {
        Some(BuiltIn::GYear)
    } else if str_eq(name, "gMonthDay") {
        Some(BuiltIn::GMonthDay)
    } else if str_eq(name, "gDay") {
        Some(BuiltIn::GDay)
    } else if str_eq(name, "gMonth") {
        Some(BuiltIn::GMonth)
    } else if str_eq(name, "hexBinary") {
        Some(BuiltIn::HexBinary)
    } else if str_eq(name, "base64Binary") {
        Some(BuiltIn::Base64Binary)
    } else if str_eq(name, "anyURI") {
        Some(BuiltIn::AnyUri)
    } else if str_eq(name, "QName") {
        Some(BuiltIn::QName)
    } else if str_eq(name, "NOTATION") {
        Some(BuiltIn::Notation)
    } else {
        None
    }
}

/// A simple type as a restriction base or an item or member type: a built-in,
/// or a reference by qualified name to a type declared elsewhere.
#[derive(Debug, PartialEq, Eq)]
pub enum AnySimpleType {
    BuiltIn(BuiltIn),
    Reference(String),
}

pub enum AnySimpleTypeView {
    BuiltIn(BuiltIn),
    Reference(Seq<char>),
}

impl View for AnySimpleType {
    type V = AnySimpleTypeView;

    open spec fn view(&self) -> AnySimpleTypeView {
        match self {
            AnySimpleType::BuiltIn(b) => AnySimpleTypeView::BuiltIn(*b),
            AnySimpleType::Reference(n) => AnySimpleTypeView::Reference(n@),
        }
    }
}

/// `i` is the position of the first colon of `s`.
pub open spec fn first_colon(s: Seq<char>, i: int) -> bool {
    &&& 0 <= i < s.len()
    &&& s[i] == ':'
    &&& forall|j: int| 0 <= j < i ==> s[j] != ':'
}

/// The prefix of a qualified name, if it has one, and its local part.
pub open spec fn qname_parts(s: Seq<char>) -> (Option<Seq<char>>, Seq<char>) {
    if exists|i: int| first_colon(s, i) {
        let i = choose|i: int| first_colon(s, i);
        (Some(s.take(i)), s.skip(i + 1))
    } else {
        (None, s)
    }
}

/// `i` is the first binding of `prefix` among `ns`.
pub open spec fn first_binding(ns: Seq<XmlNamespace>, prefix: Seq<char>, i: int) -> bool {
    &&& 0 <= i < ns.len()
    &&& ns[i].prefix@ == prefix
    &&& forall|j: int| 0 <= j < i ==> (#[trigger] ns[j]).prefix@ != prefix
}

/// The namespace that `prefix` is bound to on `e`.
pub open spec fn prefix_namespace(e: XmlElement, prefix: Seq<char>) -> Option<Seq<char>> {
    if exists|i: int| first_binding(e.namespaces@, prefix, i) {
        let i = choose|i: int| first_binding(e.namespaces@, prefix, i);
        Some(e.namespaces@[i].uri@)
    } else {
        None
    }
}

/// The namespace of a qualified name used in an attribute of `e`: its
/// prefix's binding, or the default namespace when it has no prefix.
pub open spec fn qname_namespace(e: XmlElement, s: Seq<char>) -> Option<Seq<char>> {
    match qname_parts(s).0 {
        Some(p) => prefix_namespace(e, p),
        None => opt_str(e.default_namespace),
    }
}

/// What the qualified name `s`, written in an attribute of `e`, refers to.
pub open spec fn type_ref(e: XmlElement, s: Seq<char>) -> AnySimpleTypeView {
    if qname_namespace(e, s) == Some(XSD_NS_URI@) && builtin_named(qname_parts(s).1) is Some {
        AnySimpleTypeView::BuiltIn(builtin_named(qname_parts(s).1)->0)
    } else {
        AnySimpleTypeView::Reference(s)
    }
}

fn split_qname(s: &str) -> (r: (Option<&str>, &str))
    ensures
        qname_parts(s@) == (match r.0 {
            Some(p) => Some(p@),
            None => None::<Seq<char>>,
        }, r.1@),
{
    let n = s.unicode_len();
    let mut i: usize = 0;
    while i < n
        invariant
            n == s@.len(),
            i <= n,
            forall|j: int| 0 <= j < i ==> s@[j] != ':',
        decreases n - i,
    {
        if s.get_char(i) == ':' {
            proof {
                assert(first_colon(s@, i as int));
                let k = choose|k: int| first_colon(s@, k);
                assert(k == i) by {
                    if k < i {
                        assert(s@[k] != ':');
                    }
                    if k > i {
                        assert(s@[i as int] == ':');
                    }
                }
            }
            return (Some(s.substring_char(0, i)), s.substring_char(i + 1, n));
        }
        i += 1;
    }
    (None, s)
}

fn namespace_of_prefix<'a>(element: &'a XmlElement, prefix: &str) -> (r: Option<&'a String>)
    ensures
        match r {
            Some(u) => prefix_namespace(*element, prefix@) == Some(u@),
            None => prefix_namespace(*element, prefix@) is None,
        },
{
    let mut i: usize = 0;
    while i < element.namespaces.len()
        invariant
            i <= element.namespaces.len(),
            forall|j: int| 0 <= j < i ==> (#[trigger] element.namespaces@[j]).prefix@ != prefix@,
        decreases element.namespaces.len() - i,
    {
        if str_eq(element.namespaces[i].prefix.as_str(), prefix) {
            proof {
                assert(first_binding(element.namespaces@, prefix@, i as int));
                let k = choose|k: int| first_binding(element.namespaces@, prefix@, k);
                assert(k == i) by {
                    if k < i {
                        assert(element.namespaces@[k].prefix@ != prefix@);
                    }
                    if k > i {
                        assert(element.namespaces@[i as int].prefix@ == prefix@);
                    }
                }
            }
            return Some(&element.namespaces[i].uri);
        }
        i += 1;
    }
    None
}

/// The local part of a qualified name.
pub fn local_part_of(name: &str) -> (r: &str)
    ensures
        r@ == qname_parts(name@).1,
{
    split_qname(name).1
}

/// Resolves the qualified name `name`, written in an attribute of `context`:
/// a built-in when it names one in the XSD namespace, else a reference.
pub fn resolve_type_name(context: &XmlElement, name: &str) -> (r: AnySimpleType)
    ensures
        r@ == type_ref(*context, name@),
{
    let (prefix, local) = split_qname(name);
    let ns: Option<&String> = match prefix {
        Some(p) => namespace_of_prefix(context, p),
        None => match &context.default_namespace {
            Some(d) => Some(d),
            None => None,
        },
    };
    let in_xsd = match ns {
        Some(u) => str_eq(u.as_str(), XSD_NS_URI),
        None => false,
    };
    if in_xsd {
        match builtin_from_name(local) {
            Some(b) => {
                return AnySimpleType::BuiltIn(b);
            },
            None => {},
        }
    }
    AnySimpleType::Reference(name.to_owned())
}

} // verus!
