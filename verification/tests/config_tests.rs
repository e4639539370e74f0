//! Tests for the options and header builders and their wire packing.

use exirs::config::Alignment;
use exirs::config::Header;
use exirs::config::Options;
use exirs::config::SchemaIdMode;
use exirs::config::DEFAULT_BLOCKSIZE;
use exirs::config::OPT_ALIGNMENT_MASK;
use exirs::config::OPT_BYTE_ALIGNMENT;
use exirs::config::OPT_COMPRESSION;
use exirs::config::OPT_PRE_COMPRESSION;
use exirs::config::OPT_STRICT;
use exirs::config::UNBOUNDED;

#[test]
fn options_defaults() {
    let w = Options::new().to_wire();
    assert_eq!(w.enum_opt, 0);
    assert_eq!(w.preserve, 0);
    assert_eq!(w.schema_id_mode, 0);
    assert_eq!(w.schema_id, "");
    assert_eq!(w.block_size, DEFAULT_BLOCKSIZE);
    assert_eq!(w.value_max_length, UNBOUNDED);
    assert_eq!(w.value_partition_capacity, UNBOUNDED);
}

#[test]
fn options_flag_bits() {
    let opts = Options::new().strict(true).compression(true);
    assert_eq!(opts.flags, OPT_STRICT | OPT_COMPRESSION);
    let opts = opts.strict(false);
    assert_eq!(opts.flags, OPT_COMPRESSION);
    let opts = Options::new().fragment(true).self_contained(true);
    assert_eq!(opts.flags, 0x04 | 0x08);
}

#[test]
fn options_alignment_is_masked() {
    // Choosing an alignment clears any previously chosen one: the two
    // bits form a field, not additive flags.
    let opts = Options::new()
        .strict(true)
        .alignment(Alignment::ByteAlignment)
        .alignment(Alignment::PreCompression);
    assert_eq!(opts.flags & OPT_ALIGNMENT_MASK, OPT_PRE_COMPRESSION);
    assert_eq!(opts.flags & OPT_STRICT, OPT_STRICT);
    let opts = opts.alignment(Alignment::ByteAlignment);
    assert_eq!(opts.flags & OPT_ALIGNMENT_MASK, OPT_BYTE_ALIGNMENT);
    let opts = opts.alignment(Alignment::BitPacked);
    assert_eq!(opts.flags & OPT_ALIGNMENT_MASK, 0);
}

#[test]
fn options_preserve_bits() {
    let opts = Options::new()
        .preserve_comments(true)
        .preserve_processing_instructions(true)
        .preserve_dt_and_er(true)
        .preserve_prefixes(true)
        .preserve_lexical_values(true);
    assert_eq!(opts.preserve, 0x1f);
    let opts = opts.preserve_processing_instructions(false).preserve_prefixes(false);
    assert_eq!(opts.preserve, 0x15);
}

#[test]
fn options_schema_id_packing() {
    // No schema id packs as the engine's empty-string sentinel, distinct
    // from the Absent mode code.
    let w = Options::new().schema_id_mode(SchemaIdMode::Nil).to_wire();
    assert_eq!(w.schema_id_mode, 2);
    assert_eq!(w.schema_id, "");
    let w = Options::new()
        .schema_id_mode(SchemaIdMode::SetId)
        .schema_id(String::from("urn:example"))
        .blocksize(4096)
        .to_wire();
    assert_eq!(w.schema_id_mode, 1);
    assert_eq!(w.schema_id, "urn:example");
    assert_eq!(w.block_size, 4096);
}

#[test]
fn header_defaults_and_builders() {
    let w = Header::new().to_wire();
    assert_eq!(w.has_cookie, 0);
    assert_eq!(w.has_options, 0);
    assert_eq!(w.is_preview_version, 0);
    assert_eq!(w.version_number, 1);

    let w = Header::with_options(Options::new().strict(true))
        .has_cookie(true)
        .is_preview_version(true)
        .set_version_number(7)
        .to_wire();
    assert_eq!(w.has_cookie, 1);
    assert_eq!(w.has_options, 1);
    assert_eq!(w.is_preview_version, 1);
    assert_eq!(w.version_number, 7);
    assert_eq!(w.opts.enum_opt, OPT_STRICT);
}
