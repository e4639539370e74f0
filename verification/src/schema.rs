//! The schema handle.
//!
//! A `Schema` owns the pre-compiled schema resource buffers that the
//! engine's grammar generator consumes.  The engine does not copy its
//! input, so the buffers must outlive the compilation call; holding them
//! here gives them a single owner with exactly that lifetime.  Compilation
//! itself — turning the buffers into grammars — is the engine's work.
//! The handle is immutable after construction and may be shared by
//! reference between any number of reader and writer sessions, provided it
//! outlives all of them.

use vstd::prelude::*;

use crate::config::Options;
use crate::config::OptionsWire;
use crate::error::SchemaError;

verus! {

/// The engine accepts at most this many schema resources per grammar.
pub const MAX_XSD_FILES_COUNT: usize = 10;

/// An immutable, sharable grammar source: the owned schema resource
/// buffers, plus the options the grammar generator is to honour.
#[derive(Debug)]
pub struct Schema {
    /// The pre-compiled schema resources, fully read into owned buffers.
    resources: Vec<Vec<u8>>,
    /// The packed options handed to the grammar generator, if any.
    options: Option<OptionsWire>,
}

impl Schema {
    /// Whether a resource count is acceptable before anything else is done
    /// with the paths: more than the maximum fails, and the caller must
    /// not have touched any resource past the check.
    pub fn check_resource_count(n: usize) -> (r: Result<(), SchemaError>)
        ensures
            r is Ok <==> n <= MAX_XSD_FILES_COUNT,
            r is Err ==> r->Err_0 == SchemaError::TooManyXsds,
    {
        if n > MAX_XSD_FILES_COUNT {
            Err(SchemaError::TooManyXsds)
        } else {
            Ok(())
        }
    }

    /// Take ownership of the resource buffers, refusing more than the
    /// engine's maximum.  The count is tested before anything else, so a
    /// caller that checks it against its path list first never reads a
    /// resource past the limit.
    pub fn new(resources: Vec<Vec<u8>>, options: Option<Options>) -> (r: Result<
        Schema,
        SchemaError,
    >)
        ensures
            r is Ok <==> resources@.len() <= MAX_XSD_FILES_COUNT,
            r is Ok ==> r->Ok_0.resources_view() == resources.deep_view(),
            r is Err ==> r->Err_0 == SchemaError::TooManyXsds,
    {
        if resources.len() > MAX_XSD_FILES_COUNT {
            return Err(SchemaError::TooManyXsds);
        }
        let options_wire: Option<OptionsWire> = match options {
            Some(o) => Some(o.to_wire()),
            None => None,
        };
        Ok(Schema { resources, options: options_wire })
    }

    /// The resource buffers, as sequences of bytes.
    pub closed spec fn resources_view(&self) -> Seq<Seq<u8>> {
        self.resources.deep_view()
    }

    /// The packed options held for the grammar generator, if any.
    pub closed spec fn options_view(&self) -> Option<OptionsWire> {
        self.options
    }

    /// How many resources the schema was built from.
    pub fn resource_count(&self) -> (r: usize)
        ensures
            r == self.resources_view().len(),
    {
        self.resources.len()
    }

    /// Borrow the resource buffers, in the order they were given.
    pub fn resources(&self) -> (r: &Vec<Vec<u8>>)
        ensures
            r.deep_view() == self.resources_view(),
    {
        &self.resources
    }

    /// Borrow the packed options for the grammar generator, if any were
    /// supplied.
    pub fn options_wire(&self) -> (r: &Option<OptionsWire>)
        ensures
            r is Some <==> self.options_view() is Some,
    {
        &self.options
    }
}

} // verus!
