use xsd_schema::validate::validate_schema;
use xsd_schema::{
    parse_document, AnySimpleType, BuiltIn, MetaSchemaDocuments, Pattern, RestrictionRule, Schema,
    SchemaError, SchemaVersion, SimpleTypeContent, TopLevelType, XmlDocument, XmlElement,
    XmlName,
};

fn wrap(attrs: &str, body: &str) -> String {
    format!(
        "<xs:schema xmlns:xs=\"http://www.w3.org/2001/XMLSchema\"{}>{}</xs:schema>",
        attrs, body
    )
}

fn read(text: &str) -> Result<Schema, SchemaError> {
    let document = parse_document(text).expect("well-formed XML");
    Schema::from_document(&document)
}

const META: &str = r#"<xs:schema xmlns:xs="http://www.w3.org/2001/XMLSchema">
  <xs:element name="schema"/>
  <xs:element name="element" type="xs:string"/>
  <xs:element name="complexType"/>
  <xs:element name="sequence"/>
  <xs:complexType name="openAttrs"><xs:sequence/></xs:complexType>
</xs:schema>"#;

#[test]
fn reparse_gives_equal_schemas() {
    let text = wrap(
        " targetNamespace=\"urn:t\" blockDefault=\"#all\"",
        "<xs:element name=\"a\" type=\"T\"/><xs:complexType name=\"T\" mixed=\"true\"/>\
         <xs:simpleType name=\"S\"><xs:list itemType=\"xs:int\"/></xs:simpleType>",
    );
    let first = read(&text).unwrap();
    let second = read(&text).unwrap();
    assert_eq!(first, second);
}

#[test]
fn meta_schema_validates_against_itself() {
    let metas = MetaSchemaDocuments {
        xsd10: parse_document(META).unwrap(),
        xsd11: parse_document(META).unwrap(),
    };
    let document = parse_document(META).unwrap();
    let schema = Schema::from_document(&document).unwrap();
    let checked = validate_schema(schema, &document, &metas).unwrap();
    assert_eq!(4, checked.elements.len());
}

#[test]
fn undeclared_element_fails_structural_validation() {
    let metas = MetaSchemaDocuments {
        xsd10: parse_document(META).unwrap(),
        xsd11: parse_document(META).unwrap(),
    };
    let text = wrap("", "<xs:simpleType name=\"S\"><xs:union/></xs:simpleType>");
    let document = parse_document(&text).unwrap();
    let schema = Schema::from_document(&document).unwrap();
    assert_eq!(
        Err(SchemaError::StructuralValidationFailure { element: "simpleType".to_string() }),
        validate_schema(schema, &document, &metas)
    );
    assert_eq!(
        SchemaError::StructuralValidationFailure { element: "simpleType".to_string() },
        Schema::from_validated_document(&document, &metas).unwrap_err()
    );
}

#[test]
fn version_gate() {
    assert_eq!(Err(SchemaError::UnsupportedSchemaVersion), read(&wrap(" version=\"2.0\"", "")));
    assert_eq!(Err(SchemaError::UnsupportedSchemaVersion), read(&wrap(" version=\"1\"", "")));
    assert_eq!(SchemaVersion::Xsd10, read(&wrap(" version=\"1.0\"", "")).unwrap().version);
    assert_eq!(SchemaVersion::Xsd11, read(&wrap(" version=\"1.1\"", "")).unwrap().version);
    assert_eq!(SchemaVersion::Xsd10, read(&wrap("", "")).unwrap().version);
}

#[test]
fn facet_round_trip() {
    let text = wrap(
        "",
        r#"<xs:simpleType name="SKU"><xs:restriction base="xs:string"><xs:pattern value="\d{3}-[A-Z]{2}"/></xs:restriction></xs:simpleType>"#,
    );
    let schema = read(&text).unwrap();
    match &schema.types[0] {
        TopLevelType::SimpleType(s) => {
            assert_eq!("SKU", s.name);
            match &*s.content {
                SimpleTypeContent::Restriction(r) => {
                    assert_eq!(AnySimpleType::BuiltIn(BuiltIn::String), r.restriction_type);
                    assert_eq!(
                        vec![RestrictionRule::Pattern(Pattern {
                            id: None,
                            additional_attributes: vec![],
                            value: "\\d{3}-[A-Z]{2}".to_string(),
                            annotation: None,
                        })],
                        r.rules
                    );
                }
                other => panic!("unexpected content {:?}", other),
            }
        }
        other => panic!("unexpected type {:?}", other),
    }
}

#[test]
fn element_and_type_counts() {
    let text = wrap(
        "",
        "<xs:element name=\"purchaseOrder\" type=\"PurchaseOrderType\"/>\
         <xs:element name=\"comment\" type=\"xs:string\"/>\
         <xs:complexType name=\"PurchaseOrderType\"/><xs:complexType name=\"USAddress\"/>\
         <xs:complexType name=\"Items\"/>\
         <xs:simpleType name=\"SKU\"><xs:restriction base=\"xs:string\"/></xs:simpleType>",
    );
    let schema = read(&text).unwrap();
    assert_eq!(2, schema.elements.len());
    assert_eq!(4, schema.types.len());
    assert_eq!("purchaseOrder", schema.elements[0].name);
    assert_eq!(Some("PurchaseOrderType".to_string()), schema.elements[0].element_type);
    assert_eq!("comment", schema.elements[1].name);
    assert_eq!(Some("xs:string".to_string()), schema.elements[1].element_type);
}

#[test]
fn schema_not_directly_under_root_is_missing() {
    let text = format!("<wrapper>{}</wrapper>", wrap("", ""));
    assert_eq!(Err(SchemaError::NoSchemaRootFound), read(&text));
    let other_namespace = "<schema xmlns=\"urn:not-xsd\"/>";
    assert_eq!(Err(SchemaError::NoSchemaRootFound), read(other_namespace));
}

fn bare_schema_element() -> XmlElement {
    XmlElement {
        name: XmlName {
            namespace_uri: Some("http://www.w3.org/2001/XMLSchema".to_string()),
            local_part: "schema".to_string(),
        },
        attributes: vec![],
        namespaces: vec![],
        default_namespace: None,
        children: vec![],
    }
}

#[test]
fn two_schema_roots_are_rejected() {
    let document = XmlDocument { children: vec![bare_schema_element(), bare_schema_element()] };
    assert_eq!(Err(SchemaError::MultipleSchemaRoots), Schema::from_document(&document));
    let single = XmlDocument { children: vec![bare_schema_element()] };
    assert!(Schema::from_document(&single).is_ok());
}

#[test]
fn boolean_default() {
    let schema = read(&wrap("", "<xs:complexType name=\"X\"/>")).unwrap();
    match &schema.types[0] {
        TopLevelType::ComplexType(c) => {
            assert_eq!(false, c.is_mixed);
            assert_eq!(false, c.is_abstract);
        }
        other => panic!("unexpected type {:?}", other),
    }
}
