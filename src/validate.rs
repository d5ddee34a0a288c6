//! Structural validation of a document against a meta-schema, and the version
//! validator that checks a schema document against the meta-schema of the
//! XML Schema version it declares.
use vstd::prelude::*;

use crate::dom::{opt_str, XmlDocument, XmlElement, XmlNode, XSD_NS_URI};
use crate::elements::ElementView;
use crate::error::{SchemaError, SchemaErrorView};
use crate::schema::{document_schema, Schema, SchemaView};
use crate::text::str_eq;
use crate::versions::SchemaVersion;

verus! {

/// The names a meta-schema declares as top-level elements.
pub open spec fn declared_names(meta: SchemaView) -> Seq<Seq<char>> {
    meta.elements.map_values(|e: ElementView| e.name)
}

/// Whether `e` is an element of the XSD namespace whose name `names` lacks.
pub open spec fn is_undeclared(names: Seq<Seq<char>>, e: XmlElement) -> bool {
    opt_str(e.name.namespace_uri) == Some(XSD_NS_URI@) && !names.contains(e.name.local_part@)
}

/// The name of the first undeclared XSD element in `e` and its descendants,
/// in document order.
pub open spec fn undeclared_in(names: Seq<Seq<char>>, e: XmlElement) -> Option<Seq<char>>
    decreases e,
{
    if is_undeclared(names, e) {
        Some(e.name.local_part@)
    } else {
        undeclared_among(names, e.children@, e.children@.len() as int)
    }
}

/// The first undeclared XSD element within the first `n` of `nodes`.
pub open spec fn undeclared_among(names: Seq<Seq<char>>, nodes: Seq<XmlNode>, n: int) -> Option<
    Seq<char>,
>
    decreases nodes, n,
{
    if n <= 0 || n > nodes.len() {
        None
    } else {
        match undeclared_among(names, nodes, n - 1) {
            Some(x) => Some(x),
            None => match nodes[n - 1] {
                XmlNode::Element(c) => undeclared_in(names, c),
                XmlNode::Text(_) => None,
            },
        }
    }
}

/// The first undeclared XSD element within the first `n` root elements.
pub open spec fn undeclared_in_roots(names: Seq<Seq<char>>, roots: Seq<XmlElement>, n: int) -> Option<
    Seq<char>,
>
    decreases n,
{
    if n <= 0 || n > roots.len() {
        None
    } else {
        match undeclared_in_roots(names, roots, n - 1) {
            Some(x) => Some(x),
            None => undeclared_in(names, roots[n - 1]),
        }
    }
}

/// The verdict of validating `doc` against the meta-schema `meta`: every
/// element of the XSD namespace must be declared by it; the first one that is
/// not, in document order, is reported.
pub open spec fn validation_of(meta: SchemaView, doc: XmlDocument) -> Result<(), SchemaErrorView> {
    match undeclared_in_roots(declared_names(meta), doc.children@, doc.children@.len() as int) {
        Some(name) => Err(SchemaErrorView::StructuralValidationFailure { element: name }),
        None => Ok(()),
    }
}

/// The canonical meta-schema documents, one per supported version.
pub struct MetaSchemaDocuments {
    pub xsd10: XmlDocument,
    pub xsd11: XmlDocument,
}

/// The meta-schema document for `version`.
pub open spec fn meta_document(metas: MetaSchemaDocuments, version: SchemaVersion) -> XmlDocument {
    match version {
        SchemaVersion::Xsd10 => metas.xsd10,
        SchemaVersion::Xsd11 => metas.xsd11,
    }
}

/// The verdict of the version validator on `schema`, read from `doc`: the
/// meta-schema of its version must parse, and `doc` must validate against it.
pub open spec fn version_validation_of(
    schema: SchemaView,
    doc: XmlDocument,
    metas: MetaSchemaDocuments,
) -> Result<(), SchemaErrorView> {
    match document_schema(meta_document(metas, schema.version)) {
        Err(e) => Err(e),
        Ok(meta) => validation_of(meta, doc),
    }
}

impl Schema {
    /// Whether this schema declares a top-level element named `local`.
    pub fn declares(&self, local: &str) -> (r: bool)
        ensures
            r == declared_names(self@).contains(local@),
    {
        let mut i: usize = 0;
        while i < self.elements.len()
            invariant
                i <= self.elements.len(),
                forall|j: int| 0 <= j < i ==> declared_names(self@)[j] != local@,
            decreases self.elements.len() - i,
        {
            if str_eq(self.elements[i].name.as_str(), local) {
                assert(declared_names(self@)[i as int] == local@);
                return true;
            }
            i += 1;
        }
        false
    }

    /// The first element of `element`'s subtree, in document order, that is
    /// in the XSD namespace and that this schema does not declare.
    pub fn first_undeclared(&self, element: &XmlElement) -> (r: Option<String>)
        ensures
            opt_str(r) == undeclared_in(declared_names(self@), *element),
        decreases element,
    {
        let in_xsd = match &element.name.namespace_uri {
            Some(ns) => str_eq(ns.as_str(), XSD_NS_URI),
            None => false,
        };
        if in_xsd && !self.declares(element.name.local_part.as_str()) {
            return Some(element.name.local_part.clone());
        }
        let ghost names = declared_names(self@);
        let mut i: usize = 0;
        while i < element.children.len()
            invariant
                i <= element.children.len(),
                names == declared_names(self@),
                !is_undeclared(names, *element),
                undeclared_among(names, element.children@, i as int) is None,
            decreases element.children.len() - i,
        {
            match &element.children[i] {
                XmlNode::Element(c) => {
                    let found = self.first_undeclared(c);
                    if found.is_some() {
                        proof {
                            lemma_undeclared_stays(names, element.children@, i as int + 1);
                        }
                        return found;
                    }
                },
                XmlNode::Text(_) => {},
            }
            i += 1;
        }
        None
    }

    /// Validates `document` against this schema taken as a meta-schema: each
    /// element of the XSD namespace must be one that it declares.
    pub fn validate(&self, document: &XmlDocument) -> (r: Result<(), SchemaError>)
        ensures
            match r {
                Ok(()) => validation_of(self@, *document) == Ok::<(), SchemaErrorView>(()),
                Err(e) => validation_of(self@, *document) == Err::<(), SchemaErrorView>(e@),
            },
    {
        let ghost names = declared_names(self@);
        let mut i: usize = 0;
        while i < document.children.len()
            invariant
                i <= document.children.len(),
                names == declared_names(self@),
                undeclared_in_roots(names, document.children@, i as int) is None,
            decreases document.children.len() - i,
        {
            match self.first_undeclared(&document.children[i]) {
                Some(name) => {
                    proof {
                        lemma_undeclared_roots_stays(names, document.children@, i as int + 1);
                    }
                    return Err(SchemaError::StructuralValidationFailure { element: name });
                },
                None => {},
            }
            i += 1;
        }
        Ok(())
    }
}

proof fn lemma_undeclared_stays(names: Seq<Seq<char>>, nodes: Seq<XmlNode>, n: int)
    requires
        0 <= n <= nodes.len(),
        undeclared_among(names, nodes, n) is Some,
    ensures
        undeclared_among(names, nodes, nodes.len() as int) == undeclared_among(names, nodes, n),
    decreases nodes.len() - n,
{
    if n < nodes.len() {
        lemma_undeclared_stays(names, nodes, n + 1);
    }
}

proof fn lemma_undeclared_roots_stays(names: Seq<Seq<char>>, roots: Seq<XmlElement>, n: int)
    requires
        0 <= n <= roots.len(),
        undeclared_in_roots(names, roots, n) is Some,
    ensures
        undeclared_in_roots(names, roots, roots.len() as int) == undeclared_in_roots(names, roots, n),
    decreases roots.len() - n,
{
    if n < roots.len() {
        lemma_undeclared_roots_stays(names, roots, n + 1);
    }
}

/// Parses the meta-schema of `version` with the same assembler as any schema.
pub fn create_schema_spec(metas: &MetaSchemaDocuments, version: SchemaVersion) -> (r: Result<
    Schema,
    SchemaError,
>)
    ensures
        match r {
            Ok(s) => document_schema(meta_document(*metas, version)) == Ok::<
                SchemaView,
                SchemaErrorView,
            >(s@),
            Err(e) => document_schema(meta_document(*metas, version)) == Err::<
                SchemaView,
                SchemaErrorView,
            >(e@),
        },
{
    match version {
        SchemaVersion::Xsd10 => Schema::from_document(&metas.xsd10),
        SchemaVersion::Xsd11 => Schema::from_document(&metas.xsd11),
    }
}

/// Checks `schema`, read from `schema_document`, against the meta-schema of
/// the version it declares, and hands it back when it conforms.
pub fn validate_schema(
    schema: Schema,
    schema_document: &XmlDocument,
    metas: &MetaSchemaDocuments,
) -> (r: Result<Schema, SchemaError>)
    ensures
        match r {
            Ok(s) => s@ == schema@ && version_validation_of(schema@, *schema_document, *metas)
                == Ok::<(), SchemaErrorView>(()),
            Err(e) => version_validation_of(schema@, *schema_document, *metas) == Err::<
                (),
                SchemaErrorView,
            >(e@),
        },
{
    let meta = match create_schema_spec(metas, schema.version) {
        Ok(m) => m,
        Err(e) => {
            return Err(e);
        },
    };
    match meta.validate(schema_document) {
        Ok(()) => Ok(schema),
        Err(e) => Err(e),
    }
}

impl Schema {
    /// Reads a schema document and checks it against the meta-schema of the
    /// version it declares; no schema comes back unless both succeed.
    pub fn from_validated_document(document: &XmlDocument, metas: &MetaSchemaDocuments) -> (r:
        Result<Schema, SchemaError>)
        ensures
            match document_schema(*document) {
                Err(e) => r matches Err(err) && err@ == e,
                Ok(s) => match version_validation_of(s, *document, *metas) {
                    Err(e) => r matches Err(err) && err@ == e,
                    Ok(()) => r matches Ok(v) && v@ == s,
                },
            },
    {
        match Schema::from_document(document) {
            Ok(s) => validate_schema(s, document, metas),
            Err(e) => Err(e),
        }
    }
}

} // verus!
