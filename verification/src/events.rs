//! Mode-specific event vocabularies.
//!
//! `Event` covers both encoding modes; these enumerations spell out what a
//! consumer can actually observe in each mode: a schema-less stream only
//! carries character content, a schema-informed one carries typed values.

use vstd::prelude::*;

use crate::data::Name;
use crate::data::NameView;
use crate::data::NamespaceDeclaration;
use crate::data::NamespaceDeclarationView;
use crate::data::Value;
use crate::data::ValueView;

verus! {

/// An attribute of a schema-less stream: its value is always text.
#[derive(Debug, PartialEq)]
pub struct SchemalessAttribute {
    pub key: Name,
    pub value: String,
}

/// An attribute of a schema-informed stream: its value is typed.
#[derive(Debug, PartialEq)]
pub struct SchemaAttribute {
    pub key: Name,
    pub value: Value,
}

/// What a consumer observes in a schema-less stream: structure, namespace
/// declarations, and character content.
#[derive(Debug, PartialEq)]
pub enum SchemalessEvent {
    StartDocument,
    EndDocument,
    StartElement(Name),
    EndElement,
    Attribute(SchemalessAttribute),
    NamespaceDeclaration(NamespaceDeclaration),
    ExiHeader,
    Characters(String),
}

/// What a consumer observes in a schema-informed stream: structure,
/// namespace declarations, and typed values.
#[derive(Debug, PartialEq)]
pub enum SchemaEvent {
    StartDocument,
    EndDocument,
    StartElement(Name),
    EndElement,
    Attribute(SchemaAttribute),
    NamespaceDeclaration { namespace: String, prefix: String, is_local: bool },
    ExiHeader,
    Value(Value),
}

/// Mathematical view of a `SchemalessAttribute`.
#[verifier::ext_equal]
pub struct SchemalessAttributeView {
    pub key: NameView,
    pub value: Seq<char>,
}

impl View for SchemalessAttribute {
    type V = SchemalessAttributeView;

    open spec fn view(&self) -> SchemalessAttributeView {
        SchemalessAttributeView { key: self.key@, value: self.value@ }
    }
}

/// Mathematical view of a `SchemaAttribute`.
#[verifier::ext_equal]
pub struct SchemaAttributeView {
    pub key: NameView,
    pub value: ValueView,
}

impl View for SchemaAttribute {
    type V = SchemaAttributeView;

    open spec fn view(&self) -> SchemaAttributeView {
        SchemaAttributeView { key: self.key@, value: self.value@ }
    }
}

/// Mathematical view of a `SchemalessEvent`.
#[verifier::ext_equal]
pub enum SchemalessEventView {
    StartDocument,
    EndDocument,
    StartElement(NameView),
    EndElement,
    Attribute(SchemalessAttributeView),
    NamespaceDeclaration(NamespaceDeclarationView),
    ExiHeader,
    Characters(Seq<char>),
}

impl View for SchemalessEvent {
    type V = SchemalessEventView;

    open spec fn view(&self) -> SchemalessEventView {
        match self {
            SchemalessEvent::StartDocument => SchemalessEventView::StartDocument,
            SchemalessEvent::EndDocument => SchemalessEventView::EndDocument,
            SchemalessEvent::StartElement(n) => SchemalessEventView::StartElement(n@),
            SchemalessEvent::EndElement => SchemalessEventView::EndElement,
            SchemalessEvent::Attribute(a) => SchemalessEventView::Attribute(a@),
            SchemalessEvent::NamespaceDeclaration(d) => SchemalessEventView::NamespaceDeclaration(
                d@,
            ),
            SchemalessEvent::ExiHeader => SchemalessEventView::ExiHeader,
            SchemalessEvent::Characters(s) => SchemalessEventView::Characters(s@),
        }
    }
}

/// Mathematical view of a `SchemaEvent`.
#[verifier::ext_equal]
pub enum SchemaEventView {
    StartDocument,
    EndDocument,
    StartElement(NameView),
    EndElement,
    Attribute(SchemaAttributeView),
    NamespaceDeclaration { namespace: Seq<char>, prefix: Seq<char>, is_local: bool },
    ExiHeader,
    Value(ValueView),
}

impl View for SchemaEvent {
    type V = SchemaEventView;

    open spec fn view(&self) -> SchemaEventView {
        match self {
            SchemaEvent::StartDocument => SchemaEventView::StartDocument,
            SchemaEvent::EndDocument => SchemaEventView::EndDocument,
            SchemaEvent::StartElement(n) => SchemaEventView::StartElement(n@),
            SchemaEvent::EndElement => SchemaEventView::EndElement,
            SchemaEvent::Attribute(a) => SchemaEventView::Attribute(a@),
            SchemaEvent::NamespaceDeclaration { namespace, prefix, is_local } => (
            SchemaEventView::NamespaceDeclaration {
                namespace: namespace@,
                prefix: prefix@,
                is_local: *is_local,
            }),
            SchemaEvent::ExiHeader => SchemaEventView::ExiHeader,
            SchemaEvent::Value(v) => SchemaEventView::Value(v@),
        }
    }
}

} // verus!
