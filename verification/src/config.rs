//! Session configuration: the `Options` builder, the stream `Header`, and
//! their packing into the plain-value records the engine's header expects.
//!
//! The engine keeps the boolean options in one packed byte and the preserve
//! set in another; alignment occupies the two top bits of the options byte
//! as a masked field, so choosing an alignment first clears both bits.

use vstd::prelude::*;

verus! {

/// Compression bit of the packed options byte.
pub const OPT_COMPRESSION: u8 = 0x01;

/// Strict-mode bit of the packed options byte.
pub const OPT_STRICT: u8 = 0x02;

/// Fragment bit of the packed options byte.
pub const OPT_FRAGMENT: u8 = 0x04;

/// Self-contained bit of the packed options byte.
pub const OPT_SELF_CONTAINED: u8 = 0x08;

/// Mask of the two alignment bits of the packed options byte.
pub const OPT_ALIGNMENT_MASK: u8 = 0xc0;

/// Byte-aligned encoding, one of the two non-default alignment bits.
pub const OPT_BYTE_ALIGNMENT: u8 = 0x40;

/// Pre-compression encoding, the other non-default alignment bit.
pub const OPT_PRE_COMPRESSION: u8 = 0x80;

/// Comments bit of the packed preserve byte.
pub const PRESERVE_COMMENTS: u8 = 0x01;

/// Processing-instructions bit of the packed preserve byte.
pub const PRESERVE_PIS: u8 = 0x02;

/// DTD and entity-references bit of the packed preserve byte.
pub const PRESERVE_DTD: u8 = 0x04;

/// Prefixes bit of the packed preserve byte.
pub const PRESERVE_PREFIXES: u8 = 0x08;

/// Lexical-values bit of the packed preserve byte.
pub const PRESERVE_LEXVALUES: u8 = 0x10;

/// The unbounded sentinel for the value-length and value-partition limits.
pub const UNBOUNDED: usize = usize::MAX;

/// The default block size for compression, in bytes.
pub const DEFAULT_BLOCKSIZE: u32 = 1_000_000;

/// How the body of the stream is aligned.
#[derive(Clone, Copy, Debug, PartialEq, Eq, Structural)]
pub enum Alignment {
    BitPacked,
    ByteAlignment,
    PreCompression,
}

/// The alignment bits a mode sets inside the packed options byte.
pub open spec fn alignment_bits(a: Alignment) -> u8 {
    match a {
        Alignment::BitPacked => 0x00,
        Alignment::ByteAlignment => OPT_BYTE_ALIGNMENT,
        Alignment::PreCompression => OPT_PRE_COMPRESSION,
    }
}

/// How the header advertises the identifier of the schema in force.
#[derive(Clone, Copy, Debug, PartialEq, Eq, Structural)]
pub enum SchemaIdMode {
    Absent,
    SetId,
    Nil,
    Empty,
}

/// The wire code of a schema-id mode.
pub open spec fn schema_id_mode_code(m: SchemaIdMode) -> u32 {
    match m {
        SchemaIdMode::Absent => 0,
        SchemaIdMode::SetId => 1,
        SchemaIdMode::Nil => 2,
        SchemaIdMode::Empty => 3,
    }
}

/// Builder-style EXI options.  Immutable once built: the builder methods
/// consume the value, and `to_wire` turns the finished configuration into
/// the engine's packed options record in one shot.
#[derive(Clone, Debug)]
pub struct Options {
    /// Packed options byte: compression, strict, fragment, self-contained,
    /// and the two alignment bits.
    pub flags: u8,
    /// Packed preserve byte.
    pub preserve: u8,
    /// How the schema id is advertised.
    pub schema_id_mode: SchemaIdMode,
    /// The schema id itself; `None` packs as the engine's empty-string
    /// sentinel, distinct from the `Absent` mode.
    pub schema_id: Option<String>,
    /// Block size used by the compression modes.
    pub blocksize: u32,
    /// Longest string admitted to the value partition; `UNBOUNDED` by
    /// default.
    pub value_max_length: usize,
    /// Capacity of the value partition; `UNBOUNDED` by default.
    pub value_partition_capacity: usize,
}

/// The default configuration: bit-packed, nothing preserved, lax mode,
/// absent schema id, unbounded value limits.
pub open spec fn default_options() -> Options {
    Options {
        flags: 0,
        preserve: 0,
        schema_id_mode: SchemaIdMode::Absent,
        schema_id: None,
        blocksize: DEFAULT_BLOCKSIZE,
        value_max_length: UNBOUNDED,
        value_partition_capacity: UNBOUNDED,
    }
}

impl Options {
    /// Fresh options holding the safe defaults.
    pub fn new() -> (r: Options)
        ensures
            r == default_options(),
    {
        Options {
            flags: 0,
            preserve: 0,
            schema_id_mode: SchemaIdMode::Absent,
            schema_id: None,
            blocksize: DEFAULT_BLOCKSIZE,
            value_max_length: UNBOUNDED,
            value_partition_capacity: UNBOUNDED,
        }
    }

    /// Set or clear strict mode.
    pub fn strict(self, is: bool) -> (r: Options)
        ensures
            r == (Options {
                flags: if is { self.flags | OPT_STRICT } else { self.flags & !OPT_STRICT },
                ..self
            }),
    {
        let flags: u8 = if is { self.flags | OPT_STRICT } else { self.flags & !OPT_STRICT };
        Options { flags, ..self }
    }

    /// Set or clear fragment mode.
    pub fn fragment(self, is: bool) -> (r: Options)
        ensures
            r == (Options {
                flags: if is { self.flags | OPT_FRAGMENT } else { self.flags & !OPT_FRAGMENT },
                ..self
            }),
    {
        let flags: u8 = if is { self.flags | OPT_FRAGMENT } else { self.flags & !OPT_FRAGMENT };
        Options { flags, ..self }
    }

    /// Set or clear compression.
    pub fn compression(self, is: bool) -> (r: Options)
        ensures
            r == (Options {
                flags: if is { self.flags | OPT_COMPRESSION } else {
                    self.flags & !OPT_COMPRESSION
                },
                ..self
            }),
    {
        let flags: u8 = if is { self.flags | OPT_COMPRESSION } else {
            self.flags & !OPT_COMPRESSION
        };
        Options { flags, ..self }
    }

    /// Set or clear the self-contained option.
    pub fn self_contained(self, is: bool) -> (r: Options)
        ensures
            r == (Options {
                flags: if is { self.flags | OPT_SELF_CONTAINED } else {
                    self.flags & !OPT_SELF_CONTAINED
                },
                ..self
            }),
    {
        let flags: u8 = if is { self.flags | OPT_SELF_CONTAINED } else {
            self.flags & !OPT_SELF_CONTAINED
        };
        Options { flags, ..self }
    }

    /// Choose the alignment.  The two alignment bits form a masked field,
    /// not additive flags: any previously chosen alignment is cleared
    /// before the new mode's bits are applied.
    pub fn alignment(self, val: Alignment) -> (r: Options)
        ensures
            r == (Options {
                flags: (self.flags & !OPT_ALIGNMENT_MASK) | alignment_bits(val),
                ..self
            }),
            r.flags & OPT_ALIGNMENT_MASK == alignment_bits(val),
    {
        let cleared: u8 = self.flags & !OPT_ALIGNMENT_MASK;
        let bits: u8 = match val {
            Alignment::BitPacked => 0x00,
            Alignment::ByteAlignment => OPT_BYTE_ALIGNMENT,
            Alignment::PreCompression => OPT_PRE_COMPRESSION,
        };
        proof {
            let f = self.flags;
            assert(((f & !0xc0u8) | 0x00u8) & 0xc0u8 == 0x00u8) by (bit_vector);
            assert(((f & !0xc0u8) | 0x40u8) & 0xc0u8 == 0x40u8) by (bit_vector);
            assert(((f & !0xc0u8) | 0x80u8) & 0xc0u8 == 0x80u8) by (bit_vector);
        }
        Options { flags: cleared | bits, ..self }
    }

    /// Set or clear preservation of comments.
    pub fn preserve_comments(self, is: bool) -> (r: Options)
        ensures
            r == (Options {
                preserve: if is { self.preserve | PRESERVE_COMMENTS } else {
                    self.preserve & !PRESERVE_COMMENTS
                },
                ..self
            }),
    {
        let preserve: u8 = if is { self.preserve | PRESERVE_COMMENTS } else {
            self.preserve & !PRESERVE_COMMENTS
        };
        Options { preserve, ..self }
    }

    /// Set or clear preservation of processing instructions.
    pub fn preserve_processing_instructions(self, is: bool) -> (r: Options)
        ensures
            r == (Options {
                preserve: if is { self.preserve | PRESERVE_PIS } else {
                    self.preserve & !PRESERVE_PIS
                },
                ..self
            }),
    {
        let preserve: u8 = if is { self.preserve | PRESERVE_PIS } else {
            self.preserve & !PRESERVE_PIS
        };
        Options { preserve, ..self }
    }

    /// Set or clear preservation of the DTD and entity references.
    pub fn preserve_dt_and_er(self, is: bool) -> (r: Options)
        ensures
            r == (Options {
                preserve: if is { self.preserve | PRESERVE_DTD } else {
                    self.preserve & !PRESERVE_DTD
                },
                ..self
            }),
    {
        let preserve: u8 = if is { self.preserve | PRESERVE_DTD } else {
            self.preserve & !PRESERVE_DTD
        };
        Options { preserve, ..self }
    }

    /// Set or clear preservation of namespace prefixes.
    pub fn preserve_prefixes(self, is: bool) -> (r: Options)
        ensures
            r == (Options {
                preserve: if is { self.preserve | PRESERVE_PREFIXES } else {
                    self.preserve & !PRESERVE_PREFIXES
                },
                ..self
            }),
    {
        let preserve: u8 = if is { self.preserve | PRESERVE_PREFIXES } else {
            self.preserve & !PRESERVE_PREFIXES
        };
        Options { preserve, ..self }
    }

    /// Set or clear preservation of lexical value forms.
    pub fn preserve_lexical_values(self, is: bool) -> (r: Options)
        ensures
            r == (Options {
                preserve: if is { self.preserve | PRESERVE_LEXVALUES } else {
                    self.preserve & !PRESERVE_LEXVALUES
                },
                ..self
            }),
    {
        let preserve: u8 = if is { self.preserve | PRESERVE_LEXVALUES } else {
            self.preserve & !PRESERVE_LEXVALUES
        };
        Options { preserve, ..self }
    }

    /// Choose how the schema id is advertised.
    pub fn schema_id_mode(self, mode: SchemaIdMode) -> (r: Options)
        ensures
            r == (Options { schema_id_mode: mode, ..self }),
    {
        Options { schema_id_mode: mode, ..self }
    }

    /// Set the schema id string.
    pub fn schema_id(self, id: String) -> (r: Options)
        ensures
            r == (Options { schema_id: Some(id), ..self }),
    {
        Options { schema_id: Some(id), ..self }
    }

    /// Set the compression block size.
    pub fn blocksize(self, blocksize: u32) -> (r: Options)
        ensures
            r == (Options { blocksize: blocksize, ..self }),
    {
        Options { blocksize, ..self }
    }

    /// Pack the configuration into the engine's options record.  An unset
    /// schema id packs as the empty string, the engine's sentinel for "no
    /// id", which is distinct from the `Absent` schema-id mode.
    pub fn to_wire(self) -> (r: OptionsWire)
        ensures
            r@ == wire_of_options(self),
    {
        let schema_id: String = match self.schema_id {
            Some(id) => id,
            None => String::new(),
        };
        let mode_code: u32 = match self.schema_id_mode {
            SchemaIdMode::Absent => 0,
            SchemaIdMode::SetId => 1,
            SchemaIdMode::Nil => 2,
            SchemaIdMode::Empty => 3,
        };
        OptionsWire {
            enum_opt: self.flags,
            preserve: self.preserve,
            schema_id_mode: mode_code,
            schema_id,
            block_size: self.blocksize,
            value_max_length: self.value_max_length,
            value_partition_capacity: self.value_partition_capacity,
        }
    }
}

impl Default for Options {
    /// The safe defaults: bit-packed alignment, no compression, lax mode,
    /// absent schema id, unbounded limits, 1,000,000-byte block size.
    fn default() -> (r: Options)
        ensures
            r == default_options(),
    {
        Options::new()
    }
}

/// Mathematical view of an `OptionsWire`.
#[verifier::ext_equal]
pub struct OptionsWireView {
    pub enum_opt: u8,
    pub preserve: u8,
    pub schema_id_mode: u32,
    pub schema_id: Seq<char>,
    pub block_size: u32,
    pub value_max_length: usize,
    pub value_partition_capacity: usize,
}

/// The packed options record a configuration compiles into.
pub open spec fn wire_of_options(o: Options) -> OptionsWireView {
    OptionsWireView {
        enum_opt: o.flags,
        preserve: o.preserve,
        schema_id_mode: schema_id_mode_code(o.schema_id_mode),
        schema_id: match o.schema_id {
            Some(id) => id@,
            None => Seq::<char>::empty(),
        },
        block_size: o.blocksize,
        value_max_length: o.value_max_length,
        value_partition_capacity: o.value_partition_capacity,
    }
}

/// The engine's packed options record, as plain values: what `Options`
/// compiles into and what the session applies to its stream header before
/// the first event.
#[derive(Clone, Debug)]
pub struct OptionsWire {
    /// The packed options byte.
    pub enum_opt: u8,
    /// The packed preserve byte.
    pub preserve: u8,
    /// The schema-id mode code.
    pub schema_id_mode: u32,
    /// The schema id; empty means none.
    pub schema_id: String,
    /// Compression block size.
    pub block_size: u32,
    /// Longest admitted value string.
    pub value_max_length: usize,
    /// Value partition capacity.
    pub value_partition_capacity: usize,
}

impl View for OptionsWire {
    type V = OptionsWireView;

    open spec fn view(&self) -> OptionsWireView {
        OptionsWireView {
            enum_opt: self.enum_opt,
            preserve: self.preserve,
            schema_id_mode: self.schema_id_mode,
            schema_id: self.schema_id@,
            block_size: self.block_size,
            value_max_length: self.value_max_length,
            value_partition_capacity: self.value_partition_capacity,
        }
    }
}

/// The EXI stream header: cookie and options presence, format version, and
/// the options themselves.  Built once per session and applied to the
/// engine's stream record before any event is processed.
#[derive(Clone, Debug)]
pub struct Header {
    /// Whether the stream opens with the `$EXI` cookie.
    pub has_cookie: bool,
    /// Whether the options are written into the header.
    pub has_options: bool,
    /// Whether the stream uses a preview version of the format.
    pub is_preview_version: bool,
    /// The format version number.
    pub version_number: i16,
    /// The options in force for the session.
    pub opts: Options,
}

/// The default header: no cookie, no options advertised, final version 1,
/// default options.
pub open spec fn default_header() -> Header {
    Header {
        has_cookie: false,
        has_options: false,
        is_preview_version: false,
        version_number: 1,
        opts: default_options(),
    }
}

impl Header {
    /// A fresh default header.
    pub fn new() -> (r: Header)
        ensures
            r == default_header(),
    {
        Header {
            has_cookie: false,
            has_options: false,
            is_preview_version: false,
            version_number: 1,
            opts: Options::new(),
        }
    }

    /// A header carrying the given options; advertising them in the stream
    /// is switched on.
    pub fn with_options(opts: Options) -> (r: Header)
        ensures
            r == (Header { opts: opts, has_options: true, ..default_header() }),
    {
        Header {
            opts,
            has_options: true,
            has_cookie: false,
            is_preview_version: false,
            version_number: 1,
        }
    }

    /// Switch the `$EXI` cookie on or off.
    pub fn has_cookie(self, cookie: bool) -> (r: Header)
        ensures
            r == (Header { has_cookie: cookie, ..self }),
    {
        Header { has_cookie: cookie, ..self }
    }

    /// Mark the stream as using a preview version of the format.
    pub fn is_preview_version(self, is: bool) -> (r: Header)
        ensures
            r == (Header { is_preview_version: is, ..self }),
    {
        Header { is_preview_version: is, ..self }
    }

    /// Set the format version number.
    pub fn set_version_number(self, n: i16) -> (r: Header)
        ensures
            r == (Header { version_number: n, ..self }),
    {
        Header { version_number: n, ..self }
    }

    /// Pack the header into the record the engine's stream carries, with
    /// the booleans widened to the engine's 0/1 integers.
    pub fn to_wire(self) -> (r: HeaderWire)
        ensures
            r@ == wire_of_header(self),
    {
        HeaderWire {
            has_cookie: if self.has_cookie { 1 } else { 0 },
            has_options: if self.has_options { 1 } else { 0 },
            is_preview_version: if self.is_preview_version { 1 } else { 0 },
            version_number: self.version_number,
            opts: self.opts.to_wire(),
        }
    }
}

impl Default for Header {
    /// Same defaults as `Header::new`.
    fn default() -> (r: Header)
        ensures
            r == default_header(),
    {
        Header::new()
    }
}

/// Mathematical view of a `HeaderWire`.
#[verifier::ext_equal]
pub struct HeaderWireView {
    pub has_cookie: u32,
    pub has_options: u32,
    pub is_preview_version: u32,
    pub version_number: i16,
    pub opts: OptionsWireView,
}

/// The stream-header record a header packs into, with the booleans
/// widened to the engine's 0/1 integers.
pub open spec fn wire_of_header(h: Header) -> HeaderWireView {
    HeaderWireView {
        has_cookie: if h.has_cookie { 1u32 } else { 0u32 },
        has_options: if h.has_options { 1u32 } else { 0u32 },
        is_preview_version: if h.is_preview_version { 1u32 } else { 0u32 },
        version_number: h.version_number,
        opts: wire_of_options(h.opts),
    }
}

/// The engine's stream-header record, as plain values.
#[derive(Clone, Debug)]
pub struct HeaderWire {
    /// 1 when the stream opens with the `$EXI` cookie.
    pub has_cookie: u32,
    /// 1 when the options are written into the header.
    pub has_options: u32,
    /// 1 when the stream uses a preview format version.
    pub is_preview_version: u32,
    /// The format version number.
    pub version_number: i16,
    /// The packed options record.
    pub opts: OptionsWire,
}

impl View for HeaderWire {
    type V = HeaderWireView;

    open spec fn view(&self) -> HeaderWireView {
        HeaderWireView {
            has_cookie: self.has_cookie,
            has_options: self.has_options,
            is_preview_version: self.is_preview_version,
            version_number: self.version_number,
            opts: self.opts@,
        }
    }
}

} // verus!
