use xsd_schema::{
    parse_document, AnySimpleType, BuiltIn, Pattern, Restriction, RestrictionRule, Schema,
    SchemaError, SchemaVersion, SimpleType, SimpleTypeContent, TopLevelType,
};

const PURCHASE_XSD: &str = r#"<?xml version="1.0"?>
<xsd:schema xmlns:xsd="http://www.w3.org/2001/XMLSchema">

  <xsd:annotation>
    <xsd:documentation xml:lang="en">
     Purchase order schema for Example.com.
     Copyright 2000 Example.com. All rights reserved.
    </xsd:documentation>
  </xsd:annotation>

  <xsd:element name="purchaseOrder" type="PurchaseOrderType"/>

  <xsd:element name="comment" type="xsd:string"/>

  <xsd:complexType name="PurchaseOrderType">
    <xsd:sequence>
      <xsd:element name="shipTo" type="USAddress"/>
      <xsd:element name="billTo" type="USAddress"/>
      <xsd:element ref="comment" minOccurs="0"/>
      <xsd:element name="items"  type="Items"/>
    </xsd:sequence>
    <xsd:attribute name="orderDate" type="xsd:date"/>
  </xsd:complexType>

  <xsd:complexType name="USAddress">
    <xsd:sequence>
      <xsd:element name="name"   type="xsd:string"/>
      <xsd:element name="street" type="xsd:string"/>
      <xsd:element name="city"   type="xsd:string"/>
      <xsd:element name="state"  type="xsd:string"/>
      <xsd:element name="zip"    type="xsd:decimal"/>
    </xsd:sequence>
    <xsd:attribute name="country" type="xsd:NMTOKEN"
                   fixed="US"/>
  </xsd:complexType>

  <xsd:complexType name="Items">
    <xsd:sequence>
      <xsd:element name="item" minOccurs="0" maxOccurs="unbounded">
        <xsd:complexType>
          <xsd:sequence>
            <xsd:element name="productName" type="xsd:string"/>
            <xsd:element name="quantity">
              <xsd:simpleType>
                <xsd:restriction base="xsd:positiveInteger">
                  <xsd:maxExclusive value="100"/>
                </xsd:restriction>
              </xsd:simpleType>
            </xsd:element>
            <xsd:element name="USPrice"  type="xsd:decimal"/>
            <xsd:element ref="comment"   minOccurs="0"/>
            <xsd:element name="shipDate" type="xsd:date" minOccurs="0"/>
          </xsd:sequence>
          <xsd:attribute name="partNum" type="SKU" use="required"/>
        </xsd:complexType>
      </xsd:element>
    </xsd:sequence>
  </xsd:complexType>

  <!-- Stock Keeping Unit, a code for identifying products -->
  <xsd:simpleType name="SKU">
    <xsd:restriction base="xsd:string">
      <xsd:pattern value="\d{3}-[A-Z]{2}"/>
    </xsd:restriction>
  </xsd:simpleType>

</xsd:schema>
"#;

const ANNOTATIONS_XSD: &str = r#"<?xml version="1.0"?>
<xs:schema xmlns:xs="http://www.w3.org/2001/XMLSchema" xmlns:ext="http://example.com/ext">
  <xs:annotation id="annotation1" ext:origin="manual">
    <xs:appinfo source="http://example.com/app">generated</xs:appinfo>
    <xs:documentation xml:lang="en">First annotation.</xs:documentation>
  </xs:annotation>
  <xs:element name="note" type="xs:string"/>
  <xs:annotation id="annotation2"/>
</xs:schema>
"#;

const EMPTY_XSD: &str = "";

const WRONG_ROOT_XSD: &str = r#"<?xml version="1.0"?>
<root xmlns:xs="http://www.w3.org/2001/XMLSchema">
  <xs:element name="note" type="xs:string"/>
</root>
"#;

#[test]
fn elements() {
    let document = parse_document(PURCHASE_XSD).expect("Failed to parse");
    let schema = Schema::from_document(&document).expect("Failed to parse schema");

    assert_eq!(SchemaVersion::Xsd10, schema.version);
    assert_eq!(2, schema.elements.len());

    let order = schema.elements.get(0).unwrap();
    assert_eq!(Some("PurchaseOrderType".to_string()), order.element_type);
    assert_eq!("purchaseOrder", order.name);

    let order = schema.elements.get(1).unwrap();
    assert_eq!(Some("xsd:string".to_string()), order.element_type);
    assert_eq!("comment", order.name);
}

#[test]
fn annotation() {
    let document = parse_document(ANNOTATIONS_XSD).expect("Failed to parse");
    let schema = Schema::from_document(&document).expect("Failed to parse schema");

    let annotations = schema.annotations;
    assert_eq!(2, annotations.len());

    let annotation1 = annotations.get(0).unwrap();
    assert_eq!("annotation1", annotation1.id.as_ref().unwrap().id);
    assert_eq!(1, annotation1.additional_attributes.len());
    assert_eq!(1, annotation1.app_info.len());
    assert_eq!(1, annotation1.documentation.len());

    let annotation2 = annotations.get(1).unwrap();
    assert_eq!("annotation2", annotation2.id.as_ref().unwrap().id);
    assert_eq!(0, annotation2.additional_attributes.len());
    assert_eq!(0, annotation2.app_info.len());
    assert_eq!(0, annotation2.documentation.len());
}

#[test]
fn empty() {
    let package = parse_document(EMPTY_XSD);
    assert_eq!(true, package.is_err());
}

#[test]
fn wrong_root() {
    let document = parse_document(WRONG_ROOT_XSD).expect("Failed to parse");
    let schema = Schema::from_document(&document);

    assert_eq!(SchemaError::NoSchemaRootFound, schema.err().unwrap());
}

#[test]
fn parse() {
    let document = parse_document(PURCHASE_XSD).expect("Failed to parse");
    let schema = Schema::from_document(&document).expect("Failed to parse schema");

    assert_eq!(SchemaVersion::Xsd10, schema.version);
    assert_eq!(2, schema.elements.len());

    let order = schema.elements.get(0).unwrap();
    assert_eq!(Some("PurchaseOrderType".to_string()), order.element_type);
    assert_eq!("purchaseOrder", order.name);

    let order = schema.elements.get(1).unwrap();
    assert_eq!(Some("xsd:string".to_string()), order.element_type);
    assert_eq!("comment", order.name);

    let types = schema.types;
    assert_eq!(4, types.len());

    let sku = types.get(3).unwrap();

    let expected = TopLevelType::SimpleType(SimpleType {
        name: "SKU".to_string(),
        annotation: None,
        final_modes: Vec::new(),
        additional_attributes: vec![],
        content: Box::new(SimpleTypeContent::Restriction(Restriction {
            additional_attributes: vec![],
            annotation: None,
            id: None,
            restriction_type: AnySimpleType::BuiltIn(BuiltIn::String),
            rules: vec![RestrictionRule::Pattern(Pattern {
                id: None,
                additional_attributes: Vec::new(),
                value: "\\d{3}-[A-Z]{2}".to_string(),
                annotation: None,
            })],
        })),
        id: None,
    });
    assert_eq!(expected, *sku);
}
