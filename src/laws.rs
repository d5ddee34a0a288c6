//! Properties that hold of the parser and the validators for every input.
use vstd::prelude::*;

use crate::dom::{attr_value, is_xsd, XmlDocument, XmlElement, XmlNode};
use crate::error::SchemaErrorView;
use crate::schema::{document_schema, root_schema_of, schema_roots, Schema, SchemaView};
use crate::types::{type_of, TopLevelTypeView};
use crate::validate::{
    declared_names, is_undeclared, meta_document, undeclared_among, undeclared_in,
    undeclared_in_roots, validation_of, version_validation_of, MetaSchemaDocuments,
};
use crate::versions::SchemaVersion;

verus! {

/// Parsing the same document twice yields equal schemas: the result of
/// `Schema::from_document` is a function of the document alone.
pub proof fn lemma_reparse_equal(doc: XmlDocument, a: Schema, b: Schema)
    requires
        document_schema(doc) == Ok::<SchemaView, SchemaErrorView>(a@),
        document_schema(doc) == Ok::<SchemaView, SchemaErrorView>(b@),
    ensures
        a@ == b@,
{
}

/// A document whose `<schema>` names a version other than "1.0" and "1.1"
/// fails with `UnsupportedSchemaVersion`, and yields no schema.
pub proof fn lemma_version_gate(doc: XmlDocument, root: XmlElement, v: Seq<char>)
    requires
        root_schema_of(doc) == Ok::<XmlElement, SchemaErrorView>(root),
        attr_value(root, "version"@) == Some(v),
        v != "1.0"@,
        v != "1.1"@,
    ensures
        document_schema(doc) == Err::<SchemaView, SchemaErrorView>(
            SchemaErrorView::UnsupportedSchemaVersion,
        ),
{
}

proof fn lemma_no_schema_roots(roots: Seq<XmlElement>)
    requires
        forall|i: int| 0 <= i < roots.len() ==> !is_xsd(#[trigger] roots[i], "schema"@),
    ensures
        schema_roots(roots).len() == 0,
    decreases roots.len(),
{
    if roots.len() > 0 {
        let init = roots.drop_last();
        assert forall|i: int| 0 <= i < init.len() implies !is_xsd(#[trigger] init[i], "schema"@) by {
            assert(init[i] == roots[i]);
        }
        lemma_no_schema_roots(init);
        assert(!is_xsd(roots[roots.len() - 1], "schema"@));
    }
}

/// A document with no `schema` element of the XSD namespace directly under
/// its root fails with `NoSchemaRootFound`.
pub proof fn lemma_missing_root(doc: XmlDocument)
    requires
        forall|i: int|
            0 <= i < doc.children@.len() ==> !is_xsd(#[trigger] doc.children@[i], "schema"@),
    ensures
        document_schema(doc) == Err::<SchemaView, SchemaErrorView>(
            SchemaErrorView::NoSchemaRootFound,
        ),
{
    lemma_no_schema_roots(doc.children@);
}

/// A `<complexType>` without a `mixed` attribute is not mixed (nor abstract
/// without an `abstract` attribute).
pub proof fn lemma_boolean_default(e: XmlElement)
    requires
        is_xsd(e, "complexType"@),
        attr_value(e, "name"@) is Some,
        attr_value(e, "mixed"@) is None,
        attr_value(e, "abstract"@) is None,
    ensures
        match type_of(e) {
            Ok(TopLevelTypeView::ComplexType(c)) => !c.is_mixed && !c.is_abstract,
            Ok(TopLevelTypeView::SimpleType(_)) => false,
            Err(_) => true,
        },
{
    reveal_strlit("complexType");
    reveal_strlit("simpleType");
    assert("complexType"@.len() != "simpleType"@.len());
}

/// Every element of the XSD namespace in `e`'s subtree has a name in `names`.
pub open spec fn conforms(names: Seq<Seq<char>>, e: XmlElement) -> bool
    decreases e,
{
    &&& !is_undeclared(names, e)
    &&& forall|i: int|
        0 <= i < e.children@.len() ==> match #[trigger] e.children@[i] {
            XmlNode::Element(c) => conforms(names, c),
            XmlNode::Text(_) => true,
        }
}

proof fn lemma_conforms_no_undeclared(names: Seq<Seq<char>>, e: XmlElement)
    requires
        conforms(names, e),
    ensures
        undeclared_in(names, e) is None,
    decreases e,
{
    lemma_conforming_nodes(names, e, e.children@, e.children@.len() as int);
}

proof fn lemma_conforming_nodes(names: Seq<Seq<char>>, e: XmlElement, nodes: Seq<XmlNode>, n: int)
    requires
        conforms(names, e),
        nodes == e.children@,
        0 <= n <= nodes.len(),
    ensures
        undeclared_among(names, nodes, n) is None,
    decreases e, n,
{
    if n > 0 {
        lemma_conforming_nodes(names, e, nodes, n - 1);
        match nodes[n - 1] {
            XmlNode::Element(c) => {
                assert(conforms(names, c));
                lemma_conforms_no_undeclared(names, c);
            },
            XmlNode::Text(_) => {},
        }
    }
}

proof fn lemma_conforming_roots(names: Seq<Seq<char>>, roots: Seq<XmlElement>, n: int)
    requires
        forall|i: int| 0 <= i < roots.len() ==> conforms(names, #[trigger] roots[i]),
        0 <= n <= roots.len(),
    ensures
        undeclared_in_roots(names, roots, n) is None,
    decreases n,
{
    if n > 0 {
        lemma_conforming_roots(names, roots, n - 1);
        lemma_conforms_no_undeclared(names, roots[n - 1]);
    }
}

/// A meta-schema document that declares, as top-level elements, every element
/// of the XSD namespace it uses, validates against itself: parsed, then
/// checked by the version validator against the schema of its own version.
pub proof fn lemma_self_validation(
    metas: MetaSchemaDocuments,
    version: SchemaVersion,
    meta: SchemaView,
)
    requires
        document_schema(meta_document(metas, version)) == Ok::<SchemaView, SchemaErrorView>(meta),
        meta.version == version,
        forall|i: int|
            0 <= i < meta_document(metas, version).children@.len() ==> conforms(
                declared_names(meta),
                #[trigger] meta_document(metas, version).children@[i],
            ),
    ensures
        validation_of(meta, meta_document(metas, version)) == Ok::<(), SchemaErrorView>(()),
        version_validation_of(meta, meta_document(metas, version), metas) == Ok::<
            (),
            SchemaErrorView,
        >(()),
{
    let doc = meta_document(metas, version);
    lemma_conforming_roots(declared_names(meta), doc.children@, doc.children@.len() as int);
}

} // verus!
