//! Tests for the schema handle.

use exirs::config::Options;
use exirs::error::SchemaError;
use exirs::schema::Schema;
use exirs::schema::MAX_XSD_FILES_COUNT;

#[test]
fn too_many_resources_fails_before_anything_else() {
    // Eleven resource paths fail the count check; a loader that checks
    // its path list first therefore never reads an eleventh file.
    assert_eq!(
        Schema::check_resource_count(11),
        Err(SchemaError::TooManyXsds)
    );
    let eleven: Vec<Vec<u8>> = (0..11).map(|_| vec![0u8]).collect();
    assert!(matches!(Schema::new(eleven, None), Err(SchemaError::TooManyXsds)));
}

#[test]
fn at_most_ten_resources_are_accepted() {
    assert!(Schema::check_resource_count(MAX_XSD_FILES_COUNT).is_ok());
    assert!(Schema::check_resource_count(0).is_ok());
    let ten: Vec<Vec<u8>> = (0..10).map(|i| vec![i as u8]).collect();
    let schema = Schema::new(ten.clone(), None).unwrap();
    assert_eq!(schema.resource_count(), 10);
    assert_eq!(schema.resources(), &ten);
}

#[test]
fn schema_keeps_its_options() {
    let schema = Schema::new(vec![vec![1u8]], Some(Options::new().strict(true))).unwrap();
    assert!(schema.options_wire().is_some());
    let bare = Schema::new(vec![vec![1u8]], None).unwrap();
    assert!(bare.options_wire().is_none());
}
