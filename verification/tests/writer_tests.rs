//! Tests for the push adapter's dispatch planner.

use exirs::config::Header;
use exirs::config::Options;
use exirs::config::OPT_STRICT;
use exirs::data::Attribute;
use exirs::data::Event;
use exirs::data::Name;
use exirs::data::Value;
use exirs::datetime::DateTime;
use exirs::datetime::ExiDateTime;
use exirs::error::EXIPError;
use exirs::schema::Schema;
use exirs::writer::Command;
use exirs::Writer;

fn name(local: &str, ns: &str) -> Name {
    Name {
        local_name: String::from(local),
        namespace: String::from(ns),
        prefix: None,
    }
}

fn test_schema() -> Schema {
    Schema::new(vec![vec![1u8, 2, 3]], None).unwrap()
}

#[test]
fn schemaless_document_dispatch() {
    // The strict one-element document: every primitive in order, with the
    // header packed from the configuration.
    let header = Header::with_options(
        Options::new().strict(true),
    ).has_cookie(true);
    let mut writer = Writer::new(header, None);
    assert_eq!(writer.header.has_cookie, 1);
    assert_eq!(writer.header.has_options, 1);
    assert_eq!(writer.header.opts.enum_opt, OPT_STRICT);

    let root = name("MultipleXSDsTest", "http://www.ltu.se/EISLAB/schema-test");
    let text = "This is an example of serializing EXI streams using EXIP low level API";
    writer.add(&Event::StartDocument).unwrap();
    writer.add(&Event::StartElement(root.clone())).unwrap();
    writer.add(&Event::Value(Value::String(String::from(text)))).unwrap();
    writer.add(&Event::EndElement).unwrap();
    writer.add(&Event::EndDocument).unwrap();
    assert_eq!(
        writer.commands(),
        &vec![
            Command::StartDocument,
            Command::StartElement(root),
            Command::StringData(String::from(text)),
            Command::EndElement,
            Command::EndDocument,
        ]
    );
}

#[test]
fn schemaless_values_become_text() {
    let mut writer = Writer::new(Header::new(), None);
    writer.add(&Event::Value(Value::Integer(55))).unwrap();
    writer.add(&Event::Value(Value::Boolean(false))).unwrap();
    assert_eq!(
        writer.commands(),
        &vec![
            Command::StringData(String::from("55")),
            Command::StringData(String::from("false")),
        ]
    );
}

#[test]
fn schema_mode_values_are_typed() {
    let schema = test_schema();
    let mut writer = Writer::new(Header::new(), Some(&schema));
    assert!(writer.uses_schema);
    writer.add(&Event::Value(Value::Integer(1001))).unwrap();
    writer.add(&Event::Value(Value::Boolean(true))).unwrap();
    writer.add(&Event::Value(Value::String(String::from("hej")))).unwrap();
    let bytes = vec![0x02u8, 0x6d, 0x2f];
    writer.add(&Event::Value(Value::Binary(bytes.clone()))).unwrap();
    let dt = DateTime::new(2012, 7, 31, 13, 33, 55, 839_000).unwrap();
    writer.add(&Event::Value(Value::Timestamp(dt))).unwrap();
    assert_eq!(
        writer.commands(),
        &vec![
            Command::IntData(1001),
            Command::BooleanData(true),
            Command::StringData(String::from("hej")),
            Command::BinaryData(bytes),
            Command::DateTimeData(ExiDateTime::from_calendar(&dt)),
        ]
    );
}

#[test]
fn attribute_decomposes() {
    // An attribute is its name primitive followed by its value's encoding
    // — the reader's reconstruction in reverse.
    let schema = test_schema();
    let mut writer = Writer::new(Header::new(), Some(&schema));
    writer
        .add(&Event::Attribute(Attribute {
            key: name("testByte", ""),
            value: Value::Integer(55),
        }))
        .unwrap();
    assert_eq!(
        writer.commands(),
        &vec![Command::Attribute(name("testByte", "")), Command::IntData(55)]
    );
}

#[test]
fn type_attribute_is_xsi_type() {
    let mut writer = Writer::new(Header::new(), None);
    writer
        .add(&Event::TypeAttribute(name("extendedTypeTest", "http://www.ltu.se/EISLAB/types")))
        .unwrap();
    assert_eq!(
        writer.commands(),
        &vec![
            Command::Attribute(name("type", "http://www.w3.org/2001/XMLSchema-instance")),
            Command::QNameData(name("extendedTypeTest", "http://www.ltu.se/EISLAB/types")),
        ]
    );
}

#[test]
fn list_emits_length_then_elements() {
    let schema = test_schema();
    let mut writer = Writer::new(Header::new(), Some(&schema));
    writer
        .add(&Event::Value(Value::List(vec![
            Value::Integer(1),
            Value::Integer(2),
            Value::Integer(3),
        ])))
        .unwrap();
    assert_eq!(
        writer.commands(),
        &vec![
            Command::ListData(3),
            Command::IntData(1),
            Command::IntData(2),
            Command::IntData(3),
        ]
    );
}

#[test]
fn namespace_declaration_maps_through() {
    let mut writer = Writer::new(Header::new(), None);
    writer
        .add(&Event::NamespaceDeclaration(exirs::data::NamespaceDeclaration {
            namespace: String::from("http://www.ltu.se/EISLAB/nested-xsd"),
            prefix: String::from("n"),
            is_local_element: true,
        }))
        .unwrap();
    assert_eq!(
        writer.commands(),
        &vec![Command::NamespaceDeclaration {
            namespace: String::from("http://www.ltu.se/EISLAB/nested-xsd"),
            prefix: String::from("n"),
            is_local_element: true,
        }]
    );
}

#[test]
fn invalid_timestamp_is_refused_atomically() {
    // A timestamp whose fields name no valid instant fails the dispatch
    // and leaves nothing behind.
    let schema = test_schema();
    let mut writer = Writer::new(Header::new(), Some(&schema));
    let bad = DateTime { year: 2021, month: 13, day: 1, hour: 0, minute: 0, second: 0, nanosecond: 0 };
    assert_eq!(
        writer.add(&Event::Value(Value::Timestamp(bad))),
        Err(EXIPError::InvalidEXIInput)
    );
    assert_eq!(writer.commands().len(), 0);
    // Inside a list the same failure is also atomic: not even the list
    // length is emitted.
    assert_eq!(
        writer.add(&Event::Value(Value::List(vec![
            Value::Integer(1),
            Value::Timestamp(bad),
        ]))),
        Err(EXIPError::InvalidEXIInput)
    );
    assert_eq!(writer.commands().len(), 0);
}

#[test]
fn default_writer_is_schemaless() {
    let writer = Writer::default();
    assert!(!writer.uses_schema);
    assert_eq!(writer.header.has_cookie, 0);
    assert_eq!(writer.commands().len(), 0);
}

#[test]
fn full_schema_document_dispatch() {
    // The full nested/typed document, dispatched under a schema: every
    // event in order, attributes decomposed into name-then-value.
    let ns = "http://www.ltu.se/EISLAB/schema-test";
    let ns_nested = "http://www.ltu.se/EISLAB/nested-xsd";
    let schema = test_schema();
    let header = Header::with_options(Options::new().strict(true)).has_cookie(true);
    let mut writer = Writer::new(header, Some(&schema));
    let dt = DateTime::new(2012, 7, 31, 13, 33, 55, 839_000).unwrap();
    let bin = vec![0x02u8, 0x6d, 0x2f, 0xa5, 0x20, 0xf2, 0x61, 0x9c, 0xee, 0x0f];

    writer.add(&Event::StartDocument).unwrap();
    writer.add(&Event::StartElement(name("MultipleXSDsTest", ns))).unwrap();
    writer.add(&Event::StartElement(name("EXIPEncoder", ns))).unwrap();
    writer
        .add(&Event::Attribute(Attribute { key: name("testByte", ""), value: Value::Integer(55) }))
        .unwrap();
    writer
        .add(&Event::Attribute(Attribute {
            key: name("version", ""),
            value: Value::String(String::from("0.2")),
        }))
        .unwrap();
    writer
        .add(&Event::Value(Value::String(String::from(
            "This is an example of serializing EXI streams using EXIP low level API",
        ))))
        .unwrap();
    writer.add(&Event::EndElement).unwrap();
    writer.add(&Event::StartElement(name("testSetup", ns_nested))).unwrap();
    writer
        .add(&Event::Attribute(Attribute {
            key: name("goal", ""),
            value: Value::String(String::from("Verify that the implementation works!")),
        }))
        .unwrap();
    writer.add(&Event::EndElement).unwrap();
    writer.add(&Event::StartElement(name("dateTimeTest", ""))).unwrap();
    writer.add(&Event::Value(Value::Timestamp(dt))).unwrap();
    writer.add(&Event::EndElement).unwrap();
    writer.add(&Event::StartElement(name("binaryTest", ""))).unwrap();
    writer.add(&Event::Value(Value::Binary(bin.clone()))).unwrap();
    writer.add(&Event::EndElement).unwrap();
    writer.add(&Event::StartElement(name("enumTest", ""))).unwrap();
    writer.add(&Event::Value(Value::String(String::from("hej")))).unwrap();
    writer.add(&Event::EndElement).unwrap();
    writer.add(&Event::EndElement).unwrap();
    writer.add(&Event::EndDocument).unwrap();

    assert_eq!(
        writer.commands(),
        &vec![
            Command::StartDocument,
            Command::StartElement(name("MultipleXSDsTest", ns)),
            Command::StartElement(name("EXIPEncoder", ns)),
            Command::Attribute(name("testByte", "")),
            Command::IntData(55),
            Command::Attribute(name("version", "")),
            Command::StringData(String::from("0.2")),
            Command::StringData(String::from(
                "This is an example of serializing EXI streams using EXIP low level API",
            )),
            Command::EndElement,
            Command::StartElement(name("testSetup", ns_nested)),
            Command::Attribute(name("goal", "")),
            Command::StringData(String::from("Verify that the implementation works!")),
            Command::EndElement,
            Command::StartElement(name("dateTimeTest", "")),
            Command::DateTimeData(ExiDateTime::from_calendar(&dt)),
            Command::EndElement,
            Command::StartElement(name("binaryTest", "")),
            Command::BinaryData(bin),
            Command::EndElement,
            Command::StartElement(name("enumTest", "")),
            Command::StringData(String::from("hej")),
            Command::EndElement,
            Command::EndElement,
            Command::EndDocument,
        ]
    );
}
