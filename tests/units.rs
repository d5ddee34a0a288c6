use xsd_schema::attributes::{parse_additional_attributes, parse_boolean_attribute, parse_id};
use xsd_schema::builtins::{builtin_from_name, resolve_type_name};
use xsd_schema::dom::{attribute, is_of_element, parse_child, parse_children};
use xsd_schema::groups::{find_schema_children, find_schema_group, group_children, group_root_children};
use xsd_schema::text::{parse_count, split_tokens, str_eq};
use xsd_schema::{
    parse_document, parse_schema, AnySimpleType, ContentModel, BlockDefault, BuiltIn, ComplexBlock, ComplexFinal, FinalDefault,
    FormChoice, RestrictionRule, Schema, SchemaElement, SchemaError, SimpleFinal,
    SimpleTypeContent, TopLevelType, WhiteSpaceValue, XmlNode,
};

fn wrap(attrs: &str, body: &str) -> String {
    format!(
        "<xs:schema xmlns:xs=\"http://www.w3.org/2001/XMLSchema\"{}>{}</xs:schema>",
        attrs, body
    )
}

fn read(text: &str) -> Result<Schema, SchemaError> {
    let document = parse_document(text).expect("well-formed XML");
    Schema::from_document(&document)
}

fn simple_content(schema: &Schema, i: usize) -> &SimpleTypeContent {
    match &schema.types[i] {
        TopLevelType::SimpleType(s) => &s.content,
        other => panic!("not a simple type: {:?}", other),
    }
}

fn restriction_rules(body: &str) -> Result<Vec<RestrictionRule>, SchemaError> {
    let text = wrap(
        "",
        &format!("<xs:simpleType name=\"T\"><xs:restriction base=\"xs:decimal\">{}</xs:restriction></xs:simpleType>", body),
    );
    let schema = read(&text)?;
    match schema.types.into_iter().next() {
        Some(TopLevelType::SimpleType(s)) => match *s.content {
            SimpleTypeContent::Restriction(r) => Ok(r.rules),
            other => panic!("not a restriction: {:?}", other),
        },
        other => panic!("not a simple type: {:?}", other),
    }
}

#[test]
fn xml_text_becomes_tree() {
    let document = parse_document(
        "<a xmlns=\"urn:d\" xmlns:p=\"urn:p\" p:x=\"1\" y=\"2\">hi<p:b/><!-- c --></a>",
    )
    .unwrap();
    assert_eq!(1, document.children.len());
    let root = &document.children[0];
    assert_eq!("a", root.name.local_part);
    assert_eq!(Some("urn:d".to_string()), root.name.namespace_uri);
    assert_eq!(Some("urn:d".to_string()), root.default_namespace);
    assert_eq!(2, root.attributes.len());
    assert_eq!(Some(&"2".to_string()), attribute(root, "y"));
    assert!(root.namespaces.iter().any(|n| n.prefix == "p" && n.uri == "urn:p"));
    assert_eq!(2, root.children.len());
    match &root.children[0] {
        XmlNode::Text(t) => assert_eq!("hi", t),
        other => panic!("unexpected {:?}", other),
    }
    match &root.children[1] {
        XmlNode::Element(b) => {
            assert_eq!("b", b.name.local_part);
            assert_eq!(Some("urn:p".to_string()), b.name.namespace_uri);
        }
        other => panic!("unexpected {:?}", other),
    }
}

#[test]
fn malformed_xml_is_rejected() {
    assert!(parse_document("<a><b></a>").is_err());
    assert!(parse_document("<a/>").is_ok());
}

#[test]
fn string_helpers() {
    assert!(str_eq("schema", "schema"));
    assert!(!str_eq("schema", "Schema"));
    assert!(!str_eq("a", "ab"));
    assert_eq!(vec!["list", "union"], split_tokens("  list \t union\n"));
    assert_eq!(Vec::<String>::new(), split_tokens("   "));
    assert_eq!(Some(0), parse_count("0"));
    assert_eq!(Some(1234), parse_count("1234"));
    assert_eq!(None, parse_count(""));
    assert_eq!(None, parse_count("12a"));
    assert_eq!(None, parse_count("-1"));
    assert_eq!(None, parse_count("99999999999999999999999999"));
}

#[test]
fn element_extractors() {
    let document = parse_document(
        "<xs:schema xmlns:xs=\"http://www.w3.org/2001/XMLSchema\" xmlns:e=\"urn:e\" id=\"s1\" e:k=\"v\" xs:q=\"w\" mixed=\"true\" other=\"maybe\">\
         <xs:annotation/><xs:element name=\"a\"/><e:element/><xs:element name=\"b\"/></xs:schema>",
    )
    .unwrap();
    let root = &document.children[0];
    assert!(is_of_element(root, "schema"));
    assert!(!is_of_element(root, "Schema"));
    assert_eq!("s1", parse_id(root).unwrap().id);
    let extra = parse_additional_attributes(root);
    assert_eq!(1, extra.len());
    assert_eq!("k", extra[0].name.local_part);
    assert_eq!(true, parse_boolean_attribute(root, "mixed", false));
    assert_eq!(true, parse_boolean_attribute(root, "other", true));
    assert_eq!(false, parse_boolean_attribute(root, "other", false));
    assert_eq!(false, parse_boolean_attribute(root, "absent", false));
    let elements = parse_children(root, "element");
    assert_eq!(2, elements.len());
    assert_eq!(Some(&"b".to_string()), attribute(elements[1], "name"));
    assert!(parse_child(root, "annotation").is_some());
    assert!(parse_child(root, "notation").is_none());
}

#[test]
fn builtin_names() {
    assert_eq!(Some(BuiltIn::String), builtin_from_name("string"));
    assert_eq!(Some(BuiltIn::GMonthDay), builtin_from_name("gMonthDay"));
    assert_eq!(Some(BuiltIn::Notation), builtin_from_name("NOTATION"));
    assert_eq!(None, builtin_from_name("String"));
    let document = parse_document(
        "<r xmlns:xs=\"http://www.w3.org/2001/XMLSchema\" xmlns:t=\"urn:t\"/>",
    )
    .unwrap();
    let r = &document.children[0];
    assert_eq!(AnySimpleType::BuiltIn(BuiltIn::Date), resolve_type_name(r, "xs:date"));
    assert_eq!(AnySimpleType::Reference("t:date".to_string()), resolve_type_name(r, "t:date"));
    assert_eq!(AnySimpleType::Reference("date".to_string()), resolve_type_name(r, "date"));
    assert_eq!(AnySimpleType::Reference("xs:nothing".to_string()), resolve_type_name(r, "xs:nothing"));
    let defaulted = parse_document("<r xmlns=\"http://www.w3.org/2001/XMLSchema\"/>").unwrap();
    assert_eq!(
        AnySimpleType::BuiltIn(BuiltIn::Int),
        resolve_type_name(&defaulted.children[0], "int")
    );
}

#[test]
fn every_facet_kind() {
    let rules = restriction_rules(
        "<xs:minExclusive value=\"1\"/><xs:minInclusive value=\"2\" fixed=\"true\"/>\
         <xs:maxExclusive value=\"9\"/><xs:maxInclusive value=\"8\"/>\
         <xs:totalDigits value=\"5\"/><xs:fractionDigits value=\"2\"/>\
         <xs:length value=\"3\"/><xs:minLength value=\"1\"/><xs:maxLength value=\"7\"/>\
         <xs:enumeration value=\"a\"/><xs:whiteSpace value=\"collapse\"/><xs:pattern value=\"[0-9]+\"/>\
         <xs:annotation/>",
    )
    .unwrap();
    assert_eq!(12, rules.len());
    match &rules[0] {
        RestrictionRule::MinExclusive(f) => {
            assert_eq!("1", f.value);
            assert!(!f.fixed);
        }
        other => panic!("unexpected {:?}", other),
    }
    match &rules[1] {
        RestrictionRule::MinInclusive(f) => assert!(f.fixed),
        other => panic!("unexpected {:?}", other),
    }
    match &rules[4] {
        RestrictionRule::TotalDigits(f) => assert_eq!(5, f.value),
        other => panic!("unexpected {:?}", other),
    }
    match &rules[8] {
        RestrictionRule::MaxLength(f) => assert_eq!(7, f.value),
        other => panic!("unexpected {:?}", other),
    }
    match &rules[10] {
        RestrictionRule::WhiteSpace(f) => assert_eq!(WhiteSpaceValue::Collapse, f.value),
        other => panic!("unexpected {:?}", other),
    }
    match &rules[11] {
        RestrictionRule::Pattern(f) => assert_eq!("[0-9]+", f.value),
        other => panic!("unexpected {:?}", other),
    }
}

#[test]
fn facet_errors() {
    assert_eq!(
        Err(SchemaError::MissingAttribute { element: "pattern".to_string(), attribute: "value".to_string() }),
        restriction_rules("<xs:pattern/>")
    );
    assert_eq!(
        Err(SchemaError::UnknownFacet { element: "length".to_string(), token: "abc".to_string() }),
        restriction_rules("<xs:length value=\"abc\"/>")
    );
    assert_eq!(
        Err(SchemaError::UnknownFacet { element: "whiteSpace".to_string(), token: "squash".to_string() }),
        restriction_rules("<xs:whiteSpace value=\"squash\"/>")
    );
}

#[test]
fn list_and_union_content() {
    let schema = read(&wrap(
        "",
        "<xs:simpleType name=\"L\"><xs:list itemType=\"xs:int\"/></xs:simpleType>\
         <xs:simpleType name=\"U\"><xs:union memberTypes=\"xs:int  L\"/></xs:simpleType>",
    ))
    .unwrap();
    match simple_content(&schema, 0) {
        SimpleTypeContent::List(l) => assert_eq!(AnySimpleType::BuiltIn(BuiltIn::Int), l.item_type),
        other => panic!("unexpected {:?}", other),
    }
    match simple_content(&schema, 1) {
        SimpleTypeContent::Union(u) => assert_eq!(
            vec![AnySimpleType::BuiltIn(BuiltIn::Int), AnySimpleType::Reference("L".to_string())],
            u.member_types
        ),
        other => panic!("unexpected {:?}", other),
    }
    assert_eq!(Ok(()), schema.resolve_references());
}

#[test]
fn simple_type_errors() {
    assert_eq!(
        Err(SchemaError::MissingAttribute { element: "simpleType".to_string(), attribute: "name".to_string() }),
        read(&wrap("", "<xs:simpleType><xs:union/></xs:simpleType>"))
    );
    assert_eq!(
        Err(SchemaError::MalformedSimpleType { name: "S".to_string() }),
        read(&wrap("", "<xs:simpleType name=\"S\"/>"))
    );
    assert_eq!(
        Err(SchemaError::MalformedSimpleType { name: "S".to_string() }),
        read(&wrap("", "<xs:simpleType name=\"S\"><xs:union/><xs:list itemType=\"xs:int\"/></xs:simpleType>"))
    );
    assert_eq!(
        Err(SchemaError::MissingAttribute { element: "restriction".to_string(), attribute: "base".to_string() }),
        read(&wrap("", "<xs:simpleType name=\"S\"><xs:restriction/></xs:simpleType>"))
    );
    assert_eq!(
        Err(SchemaError::MissingAttribute { element: "list".to_string(), attribute: "itemType".to_string() }),
        read(&wrap("", "<xs:simpleType name=\"S\"><xs:list/></xs:simpleType>"))
    );
    assert_eq!(
        Err(SchemaError::MissingAttribute { element: "element".to_string(), attribute: "name".to_string() }),
        read(&wrap("", "<xs:element type=\"xs:int\"/>"))
    );
}

#[test]
fn derivation_vocabularies() {
    let schema = read(&wrap(
        " blockDefault=\"substitution extension\" finalDefault=\"#all\"",
        "<xs:complexType name=\"C\" block=\"restriction restriction\" final=\"#all\" abstract=\"true\" mixed=\"true\"/>\
         <xs:simpleType name=\"S\" final=\"union list\"><xs:union/></xs:simpleType>",
    ))
    .unwrap();
    assert_eq!(vec![BlockDefault::Substitution, BlockDefault::Extension], schema.block_default);
    assert_eq!(
        vec![FinalDefault::Extension, FinalDefault::Restriction, FinalDefault::List, FinalDefault::Union],
        schema.final_default
    );
    match &schema.types[0] {
        TopLevelType::ComplexType(c) => {
            assert_eq!(vec![ComplexBlock::Restriction], c.block_modes);
            assert_eq!(vec![ComplexFinal::Extension, ComplexFinal::Restriction], c.final_modes);
            assert!(c.is_abstract);
            assert!(c.is_mixed);
        }
        other => panic!("unexpected {:?}", other),
    }
    match &schema.types[1] {
        TopLevelType::SimpleType(s) => assert_eq!(vec![SimpleFinal::Union, SimpleFinal::List], s.final_modes),
        other => panic!("unexpected {:?}", other),
    }
    assert_eq!(
        Err(SchemaError::UnknownFacet { element: "complexType".to_string(), token: "substitution".to_string() }),
        read(&wrap("", "<xs:complexType name=\"C\" block=\"extension substitution\"/>"))
    );
}

#[test]
fn schema_attributes() {
    let schema = read(&wrap(
        " xmlns:e=\"urn:e\" targetNamespace=\"urn:t\" elementFormDefault=\"qualified\" id=\"main\" xml:lang=\"fr\" e:tag=\"1\"",
        "<xs:include schemaLocation=\"a.xsd\"/><xs:import namespace=\"urn:i\"/><xs:import/>\
         <xs:redefine schemaLocation=\"r.xsd\"/><xs:group name=\"G\"/><xs:attributeGroup name=\"AG\"/>\
         <xs:notation name=\"N\" public=\"p\"/>",
    ))
    .unwrap();
    assert_eq!(Some("urn:t".to_string()), schema.target_namespace);
    assert_eq!(FormChoice::Qualified, schema.element_form_default);
    assert_eq!(FormChoice::Unqualified, schema.attribute_form_default);
    assert_eq!("main", schema.id.unwrap().id);
    assert_eq!("fr", schema.language.unwrap().iso_code);
    assert_eq!(2, schema.additional_attributes.len());
    assert_eq!(vec!["a.xsd"], schema.includes);
    assert_eq!(vec!["urn:i"], schema.imports);
    assert_eq!(vec!["r.xsd"], schema.redefines);
    assert_eq!(vec!["G"], schema.groups);
    assert_eq!(vec!["AG"], schema.attribute_groups);
    assert_eq!(vec!["N"], schema.notations);
    assert_eq!(
        Err(SchemaError::UnknownFacet { element: "schema".to_string(), token: "partly".to_string() }),
        read(&wrap(" attributeFormDefault=\"partly\"", ""))
    );
}

#[test]
fn unresolved_reference_is_reported() {
    let schema = read(&wrap(
        "",
        "<xs:element name=\"a\" type=\"Known\"/><xs:element name=\"b\" type=\"xs:string\"/>\
         <xs:element name=\"c\" type=\"tns:Missing\"/><xs:complexType name=\"Known\"/>",
    ))
    .unwrap();
    assert_eq!(
        Err(SchemaError::UnresolvedTypeReference { name: "tns:Missing".to_string() }),
        schema.resolve_references()
    );
    assert_eq!(3, schema.type_references().len());
}

#[test]
fn documentation_blocks() {
    let schema = read(&wrap(
        "",
        "<xs:complexType name=\"C\"><xs:annotation id=\"n\"><xs:documentation source=\"http://d\" xml:lang=\"en\">Text</xs:documentation></xs:annotation></xs:complexType>",
    ))
    .unwrap();
    match &schema.types[0] {
        TopLevelType::ComplexType(c) => {
            let a = c.annotation.as_ref().unwrap();
            assert_eq!("n", a.id.as_ref().unwrap().id);
            let d = &a.documentation[0];
            assert_eq!("http://d", d.source.as_ref().unwrap().uri);
            assert_eq!("en", d.language.as_ref().unwrap().iso_code);
            assert_eq!(vec!["Text"], d.content);
        }
        other => panic!("unexpected {:?}", other),
    }
}

#[test]
fn grouping_children() {
    let document = parse_document(&wrap(
        "",
        "<xs:element name=\"a\"/><xs:annotation/><xs:element name=\"b\"/><other/><xs:simpleType name=\"s\"><xs:union/></xs:simpleType>",
    ))
    .unwrap();
    let root = &document.children[0];
    assert_eq!(Some(SchemaElement::Schema), find_schema_group(root));
    let groups = group_children(root);
    assert_eq!(3, groups.len());
    assert_eq!(SchemaElement::Element, groups[0].0);
    assert_eq!(2, groups[0].1.len());
    assert_eq!(SchemaElement::Annotation, groups[1].0);
    assert_eq!(SchemaElement::SimpleType, groups[2].0);
    let roots = group_root_children(&document);
    assert_eq!(1, roots.len());
    assert_eq!(SchemaElement::Schema, roots[0].0);
    assert_eq!(5, find_schema_children(&document).len());
}

#[test]
fn complex_type_content_model() {
    let schema = read(&wrap(
        "",
        "<xs:complexType name=\"A\"><xs:sequence/><xs:attribute name=\"x\"/></xs:complexType>\
         <xs:complexType name=\"B\"/>",
    ))
    .unwrap();
    match (&schema.types[0], &schema.types[1]) {
        (TopLevelType::ComplexType(a), TopLevelType::ComplexType(b)) => {
            assert_eq!(Some(ContentModel::Sequence), a.content_model);
            assert_eq!(None, b.content_model);
        }
        other => panic!("unexpected {:?}", other),
    }
    assert_eq!(
        Err(SchemaError::MalformedComplexType { name: "C".to_string() }),
        read(&wrap("", "<xs:complexType name=\"C\"><xs:sequence/><xs:choice/></xs:complexType>"))
    );
}

#[test]
fn schema_root_annotations() {
    let document = parse_document(&wrap(
        "",
        "<xs:annotation id=\"first\"/><xs:element name=\"a\"/><xs:annotation/>",
    ))
    .unwrap();
    let root = parse_schema(&document).unwrap();
    assert_eq!(2, root.annotations.len());
    assert_eq!("first", root.annotations[0].id.as_ref().unwrap().id);
    let not_schema = parse_document("<root/>").unwrap();
    assert_eq!(Err(SchemaError::NoSchemaRootFound), parse_schema(&not_schema));
}
