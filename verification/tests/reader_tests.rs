//! Tests for the pull adapter's reconstruction machine.

use exirs::data::Attribute;
use exirs::data::Event;
use exirs::data::Name;
use exirs::data::Value;
use exirs::datetime::DateTime;
use exirs::datetime::ExiDateTime;
use exirs::datetime::FractionalSecs;
use exirs::datetime::FRACT_PRESENCE;
use exirs::error::EXIPError;
use exirs::error::ReaderError;
use exirs::reader::Callback;
use exirs::reader::EngineResult;
use exirs::reader::Step;
use exirs::Reader;

fn name(local: &str, ns: &str) -> Name {
    Name {
        local_name: String::from(local),
        namespace: String::from(ns),
        prefix: None,
    }
}

#[test]
fn attribute_reconstruction() {
    // An attribute callback followed by a scalar callback yields exactly
    // one event, gluing the name to the value.
    let mut reader = Reader::new(None, None);
    let step = reader.handle(EngineResult::Callback(Callback::Attribute(name("testByte", ""))));
    assert_eq!(step, Step::Continue);
    let step = reader.handle(EngineResult::Callback(Callback::Int(55)));
    assert_eq!(
        step,
        Step::Event(Event::Attribute(Attribute {
            key: name("testByte", ""),
            value: Value::Integer(55),
        }))
    );
}

#[test]
fn list_reconstruction() {
    // A list of three swallows exactly three scalars and emits one event.
    let mut reader = Reader::new(None, None);
    assert_eq!(
        reader.handle(EngineResult::Callback(Callback::List(3))),
        Step::Continue
    );
    assert_eq!(
        reader.handle(EngineResult::Callback(Callback::Int(1))),
        Step::Continue
    );
    assert_eq!(
        reader.handle(EngineResult::Callback(Callback::Boolean(true))),
        Step::Continue
    );
    let step = reader.handle(EngineResult::Callback(Callback::String(String::from("x"))));
    assert_eq!(
        step,
        Step::Event(Event::Value(Value::List(vec![
            Value::Integer(1),
            Value::Boolean(true),
            Value::String(String::from("x")),
        ])))
    );
}

#[test]
fn empty_list_is_immediate() {
    let mut reader = Reader::new(None, None);
    assert_eq!(
        reader.handle(EngineResult::Callback(Callback::List(0))),
        Step::Event(Event::Value(Value::List(vec![])))
    );
}

#[test]
fn structural_sequence() {
    // The event shape of a one-element schema-less document, at the
    // callback level.
    let mut reader = Reader::new(None, None);
    let root = name("MultipleXSDsTest", "http://www.ltu.se/EISLAB/schema-test");
    let text = "This is an example of serializing EXI streams using EXIP low level API";
    assert_eq!(
        reader.handle(EngineResult::Callback(Callback::StartDocument)),
        Step::Event(Event::StartDocument)
    );
    assert_eq!(
        reader.handle(EngineResult::Callback(Callback::StartElement(root.clone()))),
        Step::Event(Event::StartElement(root))
    );
    assert_eq!(
        reader.handle(EngineResult::Callback(Callback::String(String::from(text)))),
        Step::Event(Event::Value(Value::String(String::from(text))))
    );
    assert_eq!(
        reader.handle(EngineResult::Callback(Callback::EndElement)),
        Step::Event(Event::EndElement)
    );
    assert_eq!(
        reader.handle(EngineResult::Complete),
        Step::Event(Event::EndDocument)
    );
    // After the document ended, there is nothing more to read.
    assert_eq!(reader.handle(EngineResult::Complete), Step::Finished);
    assert_eq!(
        reader.handle(EngineResult::Callback(Callback::StartDocument)),
        Step::Finished
    );
}

#[test]
fn buffer_end_asks_for_refill() {
    let mut reader = Reader::new(None, None);
    assert_eq!(reader.handle(EngineResult::BufferEnd), Step::Refill);
    // When the byte source cannot satisfy the refill, that is fatal.
    assert_eq!(
        reader.source_exhausted(),
        Step::Error(ReaderError::SourceExhausted)
    );
}

#[test]
fn reader_session_carries_its_configuration() {
    let schema = exirs::schema::Schema::new(vec![vec![1u8]], None).unwrap();
    let reader = Reader::new(Some(&schema), Some(exirs::config::Options::new().strict(true)));
    assert!(reader.uses_schema);
    assert_eq!(reader.options.as_ref().unwrap().enum_opt, exirs::config::OPT_STRICT);
    let bare = Reader::new(None, None);
    assert!(!bare.uses_schema);
    assert!(bare.options.is_none());
}

#[test]
fn engine_error_codes_surface() {
    let mut reader = Reader::new(None, None);
    assert_eq!(
        reader.handle(EngineResult::Error(9)),
        Step::Error(ReaderError::Exip(EXIPError::InvalidEXIInput))
    );
    let mut reader = Reader::new(None, None);
    assert_eq!(
        reader.handle(EngineResult::Error(999)),
        Step::Error(ReaderError::Exip(EXIPError::Unexpected))
    );
}

#[test]
fn misplaced_callbacks_are_unexpected() {
    // A structural callback while an attribute is pending.
    let mut reader = Reader::new(None, None);
    reader.handle(EngineResult::Callback(Callback::Attribute(name("a", ""))));
    assert_eq!(
        reader.handle(EngineResult::Callback(Callback::EndElement)),
        Step::Error(ReaderError::Exip(EXIPError::Unexpected))
    );
    // A second attribute while one is pending.
    let mut reader = Reader::new(None, None);
    reader.handle(EngineResult::Callback(Callback::Attribute(name("a", ""))));
    assert_eq!(
        reader.handle(EngineResult::Callback(Callback::Attribute(name("b", "")))),
        Step::Error(ReaderError::Exip(EXIPError::Unexpected))
    );
    // A list opening inside a list.
    let mut reader = Reader::new(None, None);
    reader.handle(EngineResult::Callback(Callback::List(2)));
    assert_eq!(
        reader.handle(EngineResult::Callback(Callback::List(2))),
        Step::Error(ReaderError::Exip(EXIPError::Unexpected))
    );
}

#[test]
fn datetime_callback_decodes() {
    let mut reader = Reader::new(None, None);
    let w = ExiDateTime {
        year_offset: 112,
        month0: 6,
        day: 31,
        hour: 13,
        minute: 33,
        second: 55,
        fractional: FractionalSecs { offset: 8, value: 839_000 },
        time_zone: 0,
        presence_mask: FRACT_PRESENCE,
    };
    let expected = DateTime::new(2012, 7, 31, 13, 33, 55, 839_000).unwrap();
    assert_eq!(
        reader.handle(EngineResult::Callback(Callback::DateTime(w))),
        Step::Event(Event::Value(Value::Timestamp(expected)))
    );
}

#[test]
fn invalid_datetime_callback_is_rejected() {
    let mut reader = Reader::new(None, None);
    let w = ExiDateTime {
        year_offset: 112,
        month0: 13,
        day: 31,
        hour: 13,
        minute: 33,
        second: 55,
        fractional: FractionalSecs { offset: 8, value: 0 },
        time_zone: 0,
        presence_mask: FRACT_PRESENCE,
    };
    assert_eq!(
        reader.handle(EngineResult::Callback(Callback::DateTime(w))),
        Step::Error(ReaderError::Exip(EXIPError::InvalidEXIInput))
    );
}

#[test]
fn binary_payload_is_owned() {
    // The machine hands back the bytes it was given, in owned storage.
    let mut reader = Reader::new(None, None);
    let payload = vec![0x02u8, 0x6d, 0x2f, 0xa5, 0x20, 0xf2, 0x61, 0x9c, 0xee, 0x0f];
    assert_eq!(
        reader.handle(EngineResult::Callback(Callback::Binary(payload.clone()))),
        Step::Event(Event::Value(Value::Binary(payload)))
    );
}
