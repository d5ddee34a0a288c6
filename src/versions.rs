//! The XML Schema version a schema document is written against.
use vstd::prelude::*;

use crate::dom::{attr_value, attribute, XmlElement};
use crate::error::{SchemaError, SchemaErrorView};
use crate::text::str_eq;

verus! {

/// A supported version of XML Schema.
#[derive(PartialEq, Eq, Debug, Copy, Clone, Structural)]
pub enum SchemaVersion {
    Xsd10,
    Xsd11,
}

/// The version a `<schema>` element declares: 1.0 when it names none.
pub open spec fn version_of(e: XmlElement) -> Result<SchemaVersion, SchemaErrorView> {
    match attr_value(e, "version"@) {
        None => Ok(SchemaVersion::Xsd10),
        Some(v) => if v == "1.0"@ {
            Ok(SchemaVersion::Xsd10)
        } else if v == "1.1"@ {
            Ok(SchemaVersion::Xsd11)
        } else {
            Err(SchemaErrorView::UnsupportedSchemaVersion)
        },
    }
}

/// Reads the `version` attribute of a `<schema>` element.
pub fn parse_version(element: &XmlElement) -> (r: Result<SchemaVersion, SchemaError>)
    ensures
        match r {
            Ok(v) => version_of(*element) == Ok::<SchemaVersion, SchemaErrorView>(v),
            Err(e) => version_of(*element) == Err::<SchemaVersion, SchemaErrorView>(e@),
        },
{
    match attribute(element, "version") {
        None => Ok(SchemaVersion::Xsd10),
        Some(v) => if str_eq(v.as_str(), "1.0") {
            Ok(SchemaVersion::Xsd10)
        } else if str_eq(v.as_str(), "1.1") {
            Ok(SchemaVersion::Xsd11)
        } else {
            Err(SchemaError::UnsupportedSchemaVersion)
        },
    }
}

} // verus!
