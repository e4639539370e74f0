//! Typed event adapter and value codecs for the Efficient XML Interchange
//! (EXI) binary format.
//!
//! The crate sits between a caller's structured event model and a
//! low-level, callback-driven EXI grammar engine.  It provides the
//! configuration builders (`Options`, `Header`) and their packing into the
//! engine's records, the typed value and event model, the bidirectional
//! numeric and temporal codecs, the pull-style reconstruction state
//! machine that reassembles engine callbacks into coherent events, and the
//! push-style dispatcher that turns each event into the exact sequence of
//! engine serialize primitives.  The grammar engine itself — the component
//! that packs and unpacks the bit stream — is an external collaborator and
//! is not reimplemented here; the round-trip theorems in `roundtrip` state
//! that the two adapters are exact inverses across that boundary.

pub mod config;
pub mod data;
pub mod datetime;
pub mod error;
pub mod events;
pub mod float;
pub mod reader;
pub mod roundtrip;
pub mod schema;
pub mod text;
pub mod writer;

pub use reader::Reader;
pub use writer::Writer;
