//! Tests for the engine error-code mapping and messages.

use exirs::error::EXIPError;
use exirs::error::SchemaError;

#[test]
fn error_codes_map_to_variants() {
    assert_eq!(EXIPError::from(1u32), EXIPError::NotImplemented);
    assert_eq!(EXIPError::from(2u32), EXIPError::Unexpected);
    assert_eq!(EXIPError::from(3u32), EXIPError::HashTable);
    assert_eq!(EXIPError::from(4u32), EXIPError::OutOfBounds);
    assert_eq!(EXIPError::from(5u32), EXIPError::NullPointerRef);
    assert_eq!(EXIPError::from(6u32), EXIPError::MemAlloc);
    assert_eq!(EXIPError::from(7u32), EXIPError::InvalidHeader);
    assert_eq!(EXIPError::from(8u32), EXIPError::InconsistentProcState);
    assert_eq!(EXIPError::from(9u32), EXIPError::InvalidEXIInput);
    assert_eq!(EXIPError::from(10u32), EXIPError::BufferEndReached);
    assert_eq!(EXIPError::from(12u32), EXIPError::TooManyPrefxiesPerURI);
    assert_eq!(EXIPError::from(13u32), EXIPError::InvalidEXIPConfig);
    assert_eq!(EXIPError::from(14u32), EXIPError::NoPrefixesPreservedXMLSchema);
    assert_eq!(EXIPError::from(15u32), EXIPError::InvalidStringOperation);
    assert_eq!(EXIPError::from(16u32), EXIPError::HeaderOptionsMismatch);
}

#[test]
fn unknown_codes_normalize_to_unexpected() {
    assert_eq!(EXIPError::from(0u32), EXIPError::Unexpected);
    assert_eq!(EXIPError::from(11u32), EXIPError::Unexpected);
    assert_eq!(EXIPError::from(999u32), EXIPError::Unexpected);
}

#[test]
fn error_code_roundtrip() {
    let variants = [
        EXIPError::NotImplemented,
        EXIPError::Unexpected,
        EXIPError::HashTable,
        EXIPError::OutOfBounds,
        EXIPError::NullPointerRef,
        EXIPError::MemAlloc,
        EXIPError::InvalidHeader,
        EXIPError::InconsistentProcState,
        EXIPError::InvalidEXIInput,
        EXIPError::BufferEndReached,
        EXIPError::TooManyPrefxiesPerURI,
        EXIPError::InvalidEXIPConfig,
        EXIPError::NoPrefixesPreservedXMLSchema,
        EXIPError::InvalidStringOperation,
        EXIPError::HeaderOptionsMismatch,
    ];
    for v in variants {
        assert_eq!(EXIPError::from(v.code()), v);
    }
}

#[test]
fn error_messages() {
    assert_eq!(EXIPError::NotImplemented.message(), "unimplemented in EXIP");
    assert_eq!(
        EXIPError::BufferEndReached.message(),
        "the end of the available buffer was reached"
    );
    assert_eq!(
        EXIPError::HeaderOptionsMismatch.message(),
        "mismatch in the supplied header options"
    );
    assert_eq!(
        SchemaError::TooManyXsds.message(),
        "too many file paths were supplied"
    );
    assert_eq!(SchemaError::GramGenFail.message(), "failed generating grammars");
}
