//! Error taxonomy.
//!
//! Engine failures arrive as integer codes; `EXIPError` is the closed
//! enumeration they map onto.  `SchemaError` covers grammar loading,
//! `TemporalError` the calendar codec, and `ReaderError` the pull adapter.

use vstd::prelude::*;

verus! {

/// An error code reported by the EXI grammar engine.  Code 0 means success
/// and never maps to a variant; codes the enumeration does not know
/// normalize to `Unexpected`.
#[derive(Clone, Copy, Debug, PartialEq, Eq, Structural)]
pub enum EXIPError {
    NotImplemented,
    Unexpected,
    HashTable,
    OutOfBounds,
    NullPointerRef,
    MemAlloc,
    InvalidHeader,
    InconsistentProcState,
    InvalidEXIInput,
    BufferEndReached,
    TooManyPrefxiesPerURI,
    InvalidEXIPConfig,
    NoPrefixesPreservedXMLSchema,
    InvalidStringOperation,
    HeaderOptionsMismatch,
}

/// The variant a raw engine code maps onto.  Codes 0 and 11 are not used by
/// the engine's error report and normalize to `Unexpected` like any other
/// unknown code.
pub open spec fn error_of_code(value: u32) -> EXIPError {
    if value == 1 {
        EXIPError::NotImplemented
    } else if value == 2 {
        EXIPError::Unexpected
    } else if value == 3 {
        EXIPError::HashTable
    } else if value == 4 {
        EXIPError::OutOfBounds
    } else if value == 5 {
        EXIPError::NullPointerRef
    } else if value == 6 {
        EXIPError::MemAlloc
    } else if value == 7 {
        EXIPError::InvalidHeader
    } else if value == 8 {
        EXIPError::InconsistentProcState
    } else if value == 9 {
        EXIPError::InvalidEXIInput
    } else if value == 10 {
        EXIPError::BufferEndReached
    } else if value == 12 {
        EXIPError::TooManyPrefxiesPerURI
    } else if value == 13 {
        EXIPError::InvalidEXIPConfig
    } else if value == 14 {
        EXIPError::NoPrefixesPreservedXMLSchema
    } else if value == 15 {
        EXIPError::InvalidStringOperation
    } else if value == 16 {
        EXIPError::HeaderOptionsMismatch
    } else {
        EXIPError::Unexpected
    }
}

impl EXIPError {
    /// The raw code a variant stands for.
    pub open spec fn code_spec(self) -> u32 {
        match self {
            EXIPError::NotImplemented => 1,
            EXIPError::Unexpected => 2,
            EXIPError::HashTable => 3,
            EXIPError::OutOfBounds => 4,
            EXIPError::NullPointerRef => 5,
            EXIPError::MemAlloc => 6,
            EXIPError::InvalidHeader => 7,
            EXIPError::InconsistentProcState => 8,
            EXIPError::InvalidEXIInput => 9,
            EXIPError::BufferEndReached => 10,
            EXIPError::TooManyPrefxiesPerURI => 12,
            EXIPError::InvalidEXIPConfig => 13,
            EXIPError::NoPrefixesPreservedXMLSchema => 14,
            EXIPError::InvalidStringOperation => 15,
            EXIPError::HeaderOptionsMismatch => 16,
        }
    }

    /// The raw engine code for this variant.
    pub fn code(&self) -> (r: u32)
        ensures
            r == self.code_spec(),
    {
        match self {
            EXIPError::NotImplemented => 1,
            EXIPError::Unexpected => 2,
            EXIPError::HashTable => 3,
            EXIPError::OutOfBounds => 4,
            EXIPError::NullPointerRef => 5,
            EXIPError::MemAlloc => 6,
            EXIPError::InvalidHeader => 7,
            EXIPError::InconsistentProcState => 8,
            EXIPError::InvalidEXIInput => 9,
            EXIPError::BufferEndReached => 10,
            EXIPError::TooManyPrefxiesPerURI => 12,
            EXIPError::InvalidEXIPConfig => 13,
            EXIPError::NoPrefixesPreservedXMLSchema => 14,
            EXIPError::InvalidStringOperation => 15,
            EXIPError::HeaderOptionsMismatch => 16,
        }
    }

    /// A human-readable description of the condition.
    pub fn message(&self) -> (r: &'static str)
        ensures
            r@ == self.message_spec(),
    {
        match self {
            EXIPError::NotImplemented => "unimplemented in EXIP",
            EXIPError::Unexpected => "unexpected error within EXIP",
            EXIPError::HashTable => "EXIP internal hash table error",
            EXIPError::OutOfBounds => "array out of bounds",
            EXIPError::NullPointerRef => "attempted null pointer dereferenced",
            EXIPError::MemAlloc => "EXIP internal memory allocation failure",
            EXIPError::InvalidHeader => "invalid EXI Header",
            EXIPError::InconsistentProcState => "EXIP processor inconsistent with stream events",
            EXIPError::InvalidEXIInput => "received invalid EXI value or type encoding",
            EXIPError::BufferEndReached => "the end of the available buffer was reached",
            EXIPError::TooManyPrefxiesPerURI => "EXIP was compiled with less than the required number of URI prefixes",
            EXIPError::InvalidEXIPConfig => "an invalid configuration was supplied to EXIP",
            EXIPError::NoPrefixesPreservedXMLSchema => "XML Schema must be EXI encoded with the prefixes preserved",
            EXIPError::InvalidStringOperation => "invalid String Operation",
            EXIPError::HeaderOptionsMismatch => "mismatch in the supplied header options",
        }
    }

    /// The text `message` returns for each variant.
    pub open spec fn message_spec(self) -> Seq<char> {
        match self {
            EXIPError::NotImplemented => "unimplemented in EXIP"@,
            EXIPError::Unexpected => "unexpected error within EXIP"@,
            EXIPError::HashTable => "EXIP internal hash table error"@,
            EXIPError::OutOfBounds => "array out of bounds"@,
            EXIPError::NullPointerRef => "attempted null pointer dereferenced"@,
            EXIPError::MemAlloc => "EXIP internal memory allocation failure"@,
            EXIPError::InvalidHeader => "invalid EXI Header"@,
            EXIPError::InconsistentProcState => "EXIP processor inconsistent with stream events"@,
            EXIPError::InvalidEXIInput => "received invalid EXI value or type encoding"@,
            EXIPError::BufferEndReached => "the end of the available buffer was reached"@,
            EXIPError::TooManyPrefxiesPerURI => "EXIP was compiled with less than the required number of URI prefixes"@,
            EXIPError::InvalidEXIPConfig => "an invalid configuration was supplied to EXIP"@,
            EXIPError::NoPrefixesPreservedXMLSchema => "XML Schema must be EXI encoded with the prefixes preserved"@,
            EXIPError::InvalidStringOperation => "invalid String Operation"@,
            EXIPError::HeaderOptionsMismatch => "mismatch in the supplied header options"@,
        }
    }
}

impl From<u32> for EXIPError {
    /// Map a raw engine code onto the enumeration.
    fn from(value: u32) -> (r: EXIPError) {
        if value == 1 {
            EXIPError::NotImplemented
        } else if value == 2 {
            EXIPError::Unexpected
        } else if value == 3 {
            EXIPError::HashTable
        } else if value == 4 {
            EXIPError::OutOfBounds
        } else if value == 5 {
            EXIPError::NullPointerRef
        } else if value == 6 {
            EXIPError::MemAlloc
        } else if value == 7 {
            EXIPError::InvalidHeader
        } else if value == 8 {
            EXIPError::InconsistentProcState
        } else if value == 9 {
            EXIPError::InvalidEXIInput
        } else if value == 10 {
            EXIPError::BufferEndReached
        } else if value == 12 {
            EXIPError::TooManyPrefxiesPerURI
        } else if value == 13 {
            EXIPError::InvalidEXIPConfig
        } else if value == 14 {
            EXIPError::NoPrefixesPreservedXMLSchema
        } else if value == 15 {
            EXIPError::InvalidStringOperation
        } else if value == 16 {
            EXIPError::HeaderOptionsMismatch
        } else {
            EXIPError::Unexpected
        }
    }
}

impl vstd::std_specs::convert::FromSpecImpl<u32> for EXIPError {
    open spec fn obeys_from_spec() -> bool {
        true
    }

    open spec fn from_spec(value: u32) -> EXIPError {
        error_of_code(value)
    }
}

/// A failure while loading a compiled schema.
#[derive(Clone, Debug, PartialEq)]
pub enum SchemaError {
    /// More resource paths were supplied than the engine accepts.
    TooManyXsds,
    /// The named resource could not be read.
    BadFile(String),
    /// The engine could not allocate the required memory.
    MallocFail,
    /// The engine failed to compile the grammars.
    GramGenFail,
}

impl SchemaError {
    /// A human-readable description of the condition.
    pub fn message(&self) -> (r: &'static str)
        ensures
            r@ == self.message_spec(),
    {
        match self {
            SchemaError::TooManyXsds => "too many file paths were supplied",
            SchemaError::BadFile(_) => "could not open file",
            SchemaError::MallocFail => "EXIP could not allocate the required memory",
            SchemaError::GramGenFail => "failed generating grammars",
        }
    }

    /// The text `message` returns for each variant.
    pub open spec fn message_spec(self) -> Seq<char> {
        match self {
            SchemaError::TooManyXsds => "too many file paths were supplied"@,
            SchemaError::BadFile(_) => "could not open file"@,
            SchemaError::MallocFail => "EXIP could not allocate the required memory"@,
            SchemaError::GramGenFail => "failed generating grammars"@,
        }
    }
}

/// A failure of the calendar codec: a wire-level date-time whose fields do
/// not name a valid calendar instant.
#[derive(Clone, Copy, Debug, PartialEq, Eq, Structural)]
pub enum TemporalError {
    InvalidTemporal,
}

/// A failure reported to the consumer of the pull adapter.
#[derive(Clone, Copy, Debug, PartialEq, Eq, Structural)]
pub enum ReaderError {
    /// The engine asked for more input but the byte source is exhausted.
    SourceExhausted,
    /// The engine reported an error code.
    Exip(EXIPError),
}

} // verus!
