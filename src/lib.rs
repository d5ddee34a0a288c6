//! Parsing of XML Schema (XSD) documents into a typed model, and structural
//! validation of schema documents against a meta-schema.
//!
//! XML text is read into a plain tree (`dom`) by `xml::parse_document`; the
//! schema assembler (`schema::Schema::from_document`) reads that tree; the
//! version validator (`validate::validate_schema`) checks a schema document
//! against the meta-schema of the version it declares.

pub mod annotations;
pub mod attributes;
pub mod builtins;
pub mod dom;
pub mod elements;
pub mod error;
pub mod facets;
pub mod groups;
pub mod laws;
pub mod modes;
pub mod resolve;
pub mod schema;
pub mod text;
pub mod types;
pub mod validate;
pub mod versions;
pub mod xml;

pub use annotations::{AnyUri, AppInfo, Annotation, Documentation, Language};
pub use attributes::Id;
pub use builtins::{AnySimpleType, BuiltIn};
pub use dom::{XmlAttribute, XmlDocument, XmlElement, XmlName, XmlNamespace, XmlNode};
pub use elements::Element;
pub use error::SchemaError;
pub use facets::{
    CountFacet, Enumeration, FractionDigits, Length, LexicalFacet, MaxExclusive, MaxInclusive,
    MaxLength, MinExclusive, MinInclusive, MinLength, Pattern, RestrictionRule, TotalDigits,
    ValueFacet, WhiteSpace, WhiteSpaceValue,
};
pub use groups::SchemaElement;
pub use modes::{BlockDefault, ComplexBlock, ComplexFinal, FinalDefault, SimpleFinal};
pub use schema::{parse_schema, FormChoice, Schema, SchemaRoot};
pub use types::{ComplexType, ContentModel, List, Restriction, SimpleType, SimpleTypeContent, TopLevelType, Union};
pub use validate::MetaSchemaDocuments;
pub use versions::SchemaVersion;
pub use xml::{parse_document, XmlSyntaxError};
