//! The typed value and event model.
//!
//! A document is a finite sequence of events; the sequence itself is the
//! structure.  Values are ephemeral — produced and consumed one at a time —
//! and own their data: binary payloads handed over by the engine are only
//! valid for the duration of a callback, so they are copied into owned
//! storage before they appear here.
//!
//! Each type has a mathematical view (`NameView`, `ValueView`, `EventView`)
//! over sequences and plain values; all contracts in this crate speak of
//! those views.

use vstd::prelude::*;

use crate::datetime::DateTime;
use crate::float::ExiFloat;

verus! {

/// Mathematical view of a `Name`.
#[verifier::ext_equal]
pub struct NameView {
    pub local_name: Seq<char>,
    pub namespace: Seq<char>,
    pub prefix: Option<Seq<char>>,
}

/// The name of an element, attribute, or type reference.  An empty
/// namespace denotes no (or the default) namespace.
#[derive(Debug, PartialEq)]
pub struct Name {
    pub local_name: String,
    pub namespace: String,
    pub prefix: Option<String>,
}

impl View for Name {
    type V = NameView;

    open spec fn view(&self) -> NameView {
        NameView {
            local_name: self.local_name@,
            namespace: self.namespace@,
            prefix: match self.prefix {
                Some(p) => Some(p@),
                None => None,
            },
        }
    }
}

impl DeepView for Name {
    type V = NameView;

    open spec fn deep_view(&self) -> NameView {
        self.view()
    }
}

impl Clone for Name {
    fn clone(&self) -> (res: Name)
        ensures
            res@ == self@,
    {
        Name {
            local_name: self.local_name.clone(),
            namespace: self.namespace.clone(),
            prefix: match &self.prefix {
                Some(p) => Some(p.clone()),
                None => None,
            },
        }
    }
}

/// Mathematical view of a `Value`.
#[verifier::ext_equal]
pub enum ValueView {
    Integer(i64),
    Boolean(bool),
    String(Seq<char>),
    Float(ExiFloat),
    Binary(Seq<u8>),
    Timestamp(DateTime),
    List(Seq<ValueView>),
    QName(NameView),
}

/// A typed scalar or composite value.  A list's elements are homogeneously
/// typed per the active grammar's declared item type; the engine enforces
/// that, not this layer.  Floats carry the wire-level mantissa/exponent
/// pair; timestamps the calendar form of the temporal codec.
#[derive(Debug, PartialEq)]
pub enum Value {
    Integer(i64),
    Boolean(bool),
    String(String),
    Float(ExiFloat),
    Binary(Vec<u8>),
    Timestamp(DateTime),
    List(Vec<Value>),
    QName(Name),
}

/// The view of a value: strings and binaries become sequences, list
/// elements are viewed elementwise.
pub open spec fn value_view(v: Value) -> ValueView
    decreases v,
{
    match v {
        Value::Integer(i) => ValueView::Integer(i),
        Value::Boolean(b) => ValueView::Boolean(b),
        Value::String(s) => ValueView::String(s@),
        Value::Float(f) => ValueView::Float(f),
        Value::Binary(b) => ValueView::Binary(b@),
        Value::Timestamp(t) => ValueView::Timestamp(t),
        Value::List(items) => ValueView::List(values_view(items@)),
        Value::QName(n) => ValueView::QName(n@),
    }
}

/// The elementwise view of a sequence of values.
pub open spec fn values_view(s: Seq<Value>) -> Seq<ValueView>
    decreases s,
{
    if s.len() == 0 {
        Seq::empty()
    } else {
        seq![value_view(s[0])] + values_view(s.drop_first())
    }
}

/// `values_view` is the elementwise map of `value_view`: it keeps the
/// length and views each element in place.
pub broadcast proof fn lemma_values_view(s: Seq<Value>)
    ensures
        #[trigger] values_view(s).len() == s.len(),
        forall|i: int| 0 <= i < s.len() ==> values_view(s)[i] == value_view(s[i]),
    decreases s.len(),
{
    if s.len() > 0 {
        lemma_values_view(s.drop_first());
    }
}

impl View for Value {
    type V = ValueView;

    open spec fn view(&self) -> ValueView {
        value_view(*self)
    }
}

impl DeepView for Value {
    type V = ValueView;

    open spec fn deep_view(&self) -> ValueView {
        self.view()
    }
}

impl Clone for Value {
    fn clone(&self) -> (res: Value)
        ensures
            res@ == self@,
        decreases *self,
    {
        match self {
            Value::Integer(i) => Value::Integer(*i),
            Value::Boolean(b) => Value::Boolean(*b),
            Value::String(s) => Value::String(s.clone()),
            Value::Float(f) => Value::Float(*f),
            Value::Binary(b) => {
                let copy: Vec<u8> = b.clone();
                proof {
                    assert(copy@ =~= b@);
                }
                Value::Binary(copy)
            },
            Value::Timestamp(t) => Value::Timestamp(*t),
            Value::List(items) => {
                let mut out: Vec<Value> = Vec::new();
                let mut i: usize = 0;
                #[verifier::loop_isolation(false)]
                while i < items.len()
                    invariant
                        i <= items.len(),
                        out@.len() == i,
                        forall|j: int| 0 <= j < i ==> value_view(#[trigger] out@[j]) == value_view(
                            items@[j],
                        ),
                    decreases items.len() - i,
                {
                    proof {
                        assert(decreases_to!(*self => (*self)->List_0));
                        assert(decreases_to!(*items => items@[i as int]));
                    }
                    let x = (&items[i]).clone();
                    out.push(x);
                    i = i + 1;
                }
                proof {
                    lemma_values_view(out@);
                    lemma_values_view(items@);
                    assert(values_view(out@) =~= values_view(items@));
                }
                Value::List(out)
            },
            Value::QName(n) => Value::QName(n.clone()),
        }
    }
}

/// Whether a value holds a float anywhere inside it.  Floats have no
/// canonical text form in this crate — rendering one takes the host's
/// formatter — so the text renderer and the schema-less writer are guarded
/// by this predicate.
pub open spec fn has_float(v: ValueView) -> bool
    decreases v,
{
    match v {
        ValueView::Float(_) => true,
        ValueView::List(items) => any_float(items),
        _ => false,
    }
}

/// Whether any element of a sequence of values holds a float.
pub open spec fn any_float(s: Seq<ValueView>) -> bool
    decreases s,
{
    if s.len() == 0 {
        false
    } else {
        has_float(s[0]) || any_float(s.drop_first())
    }
}

/// `any_float` holds exactly when some element holds a float.
pub proof fn lemma_any_float(s: Seq<ValueView>)
    ensures
        any_float(s) <==> exists|i: int| 0 <= i < s.len() && has_float(s[i]),
    decreases s.len(),
{
    if s.len() > 0 {
        lemma_any_float(s.drop_first());
        if has_float(s[0]) {
        } else if any_float(s.drop_first()) {
            let i = choose|i: int|
                0 <= i < s.drop_first().len() && has_float(s.drop_first()[i]);
            assert(s[i + 1] == s.drop_first()[i]);
        } else {
            assert forall|i: int| 0 <= i < s.len() implies !has_float(s[i]) by {
                if i > 0 {
                    assert(s.drop_first()[i - 1] == s[i]);
                }
            }
        }
    }
}

/// Whether every binary payload inside the value is at most an eighth of
/// the address space.  Every value that exists at runtime satisfies this;
/// the bound keeps the base64 encoder's output-length arithmetic from
/// overflowing.
pub open spec fn binaries_fit(v: ValueView) -> bool
    decreases v,
{
    match v {
        ValueView::Binary(b) => b.len() <= usize::MAX / 8,
        ValueView::List(items) => all_binaries_fit(items),
        _ => true,
    }
}

/// Whether every element of a sequence satisfies `binaries_fit`.
pub open spec fn all_binaries_fit(s: Seq<ValueView>) -> bool
    decreases s,
{
    if s.len() == 0 {
        true
    } else {
        binaries_fit(s[0]) && all_binaries_fit(s.drop_first())
    }
}

/// `all_binaries_fit` holds exactly when every element satisfies
/// `binaries_fit`.
pub proof fn lemma_all_binaries_fit(s: Seq<ValueView>)
    ensures
        all_binaries_fit(s) <==> forall|i: int| 0 <= i < s.len() ==> binaries_fit(#[trigger] s[i]),
    decreases s.len(),
{
    if s.len() > 0 {
        lemma_all_binaries_fit(s.drop_first());
        if binaries_fit(s[0]) && all_binaries_fit(s.drop_first()) {
            assert forall|i: int| 0 <= i < s.len() implies binaries_fit(#[trigger] s[i]) by {
                if i > 0 {
                    assert(s.drop_first()[i - 1] == s[i]);
                }
            }
        }
        if forall|i: int| 0 <= i < s.len() ==> binaries_fit(#[trigger] s[i]) {
            assert forall|i: int|
                0 <= i < s.drop_first().len() implies binaries_fit(
                #[trigger] s.drop_first()[i],
            ) by {
                assert(s.drop_first()[i] == s[i + 1]);
            }
        }
    }
}

impl Value {
    /// Whether every binary payload inside is small enough for the base64
    /// encoder (at most an eighth of the address space).  Every value that
    /// can be built at runtime passes; the check exists so that the text
    /// renderer's contract can rule overflow out.
    pub fn binaries_fit(&self) -> (r: bool)
        ensures
            r == binaries_fit(self@),
        decreases *self,
    {
        match self {
            Value::Binary(b) => b.len() <= usize::MAX / 8,
            Value::List(items) => {
                let mut i: usize = 0;
                let mut ok: bool = true;
                #[verifier::loop_isolation(false)]
                while i < items.len()
                    invariant
                        i <= items.len(),
                        ok == all_binaries_fit(values_view(items@).subrange(0, i as int)),
                    decreases items.len() - i,
                {
                    proof {
                        assert(decreases_to!(*self => (*self)->List_0));
                        assert(decreases_to!(*items => items@[i as int]));
                    }
                    let f = items[i].binaries_fit();
                    proof {
                        lemma_values_view(items@);
                        lemma_all_binaries_fit(values_view(items@).subrange(0, i as int));
                        lemma_all_binaries_fit(values_view(items@).subrange(0, i + 1 as int));
                        assert(values_view(items@).subrange(0, i + 1 as int)[i as int]
                            == value_view(items@[i as int]));
                        assert forall|j: int| 0 <= j < i implies values_view(items@).subrange(
                            0,
                            i + 1 as int,
                        )[j] == values_view(items@).subrange(0, i as int)[j] by {}
                    }
                    ok = ok && f;
                    i = i + 1;
                }
                proof {
                    lemma_values_view(items@);
                    assert(values_view(items@).subrange(0, items@.len() as int) =~= values_view(
                        items@,
                    ));
                }
                ok
            },
            _ => true,
        }
    }

    /// Whether this value holds a float anywhere inside it.
    pub fn contains_float(&self) -> (r: bool)
        ensures
            r == has_float(self@),
        decreases *self,
    {
        match self {
            Value::Float(_) => true,
            Value::List(items) => {
                let mut i: usize = 0;
                let mut found: bool = false;
                #[verifier::loop_isolation(false)]
                while i < items.len()
                    invariant
                        i <= items.len(),
                        found == any_float(values_view(items@).subrange(0, i as int)),
                    decreases items.len() - i,
                {
                    proof {
                        assert(decreases_to!(*self => (*self)->List_0));
                        assert(decreases_to!(*items => items@[i as int]));
                    }
                    let f = items[i].contains_float();
                    proof {
                        lemma_values_view(items@);
                        lemma_any_float(values_view(items@).subrange(0, i as int));
                        lemma_any_float(values_view(items@).subrange(0, i + 1 as int));
                        assert(values_view(items@).subrange(0, i + 1 as int)[i as int]
                            == value_view(items@[i as int]));
                        assert forall|j: int| 0 <= j < i implies values_view(items@).subrange(
                            0,
                            i + 1 as int,
                        )[j] == values_view(items@).subrange(0, i as int)[j] by {}
                    }
                    found = found || f;
                    i = i + 1;
                }
                proof {
                    lemma_values_view(items@);
                    assert(values_view(items@).subrange(0, items@.len() as int) =~= values_view(
                        items@,
                    ));
                }
                found
            },
            _ => false,
        }
    }
}

/// Mathematical view of an `Attribute`.
#[verifier::ext_equal]
pub struct AttributeView {
    pub key: NameView,
    pub value: ValueView,
}

/// A reconstructed attribute: its name glued to its typed value.
#[derive(Debug, PartialEq)]
pub struct Attribute {
    pub key: Name,
    pub value: Value,
}

impl View for Attribute {
    type V = AttributeView;

    open spec fn view(&self) -> AttributeView {
        AttributeView { key: self.key@, value: self.value@ }
    }
}

impl DeepView for Attribute {
    type V = AttributeView;

    open spec fn deep_view(&self) -> AttributeView {
        self.view()
    }
}

impl Clone for Attribute {
    fn clone(&self) -> (res: Attribute)
        ensures
            res@ == self@,
    {
        Attribute { key: self.key.clone(), value: self.value.clone() }
    }
}

/// Mathematical view of a `NamespaceDeclaration`.
#[verifier::ext_equal]
pub struct NamespaceDeclarationView {
    pub namespace: Seq<char>,
    pub prefix: Seq<char>,
    pub is_local_element: bool,
}

/// A namespace declaration attached to the current element.
#[derive(Debug, PartialEq)]
pub struct NamespaceDeclaration {
    pub namespace: String,
    pub prefix: String,
    pub is_local_element: bool,
}

impl View for NamespaceDeclaration {
    type V = NamespaceDeclarationView;

    open spec fn view(&self) -> NamespaceDeclarationView {
        NamespaceDeclarationView {
            namespace: self.namespace@,
            prefix: self.prefix@,
            is_local_element: self.is_local_element,
        }
    }
}

impl DeepView for NamespaceDeclaration {
    type V = NamespaceDeclarationView;

    open spec fn deep_view(&self) -> NamespaceDeclarationView {
        self.view()
    }
}

impl Clone for NamespaceDeclaration {
    fn clone(&self) -> (res: NamespaceDeclaration)
        ensures
            res@ == self@,
    {
        NamespaceDeclaration {
            namespace: self.namespace.clone(),
            prefix: self.prefix.clone(),
            is_local_element: self.is_local_element,
        }
    }
}

/// Mathematical view of an `Event`.
#[verifier::ext_equal]
pub enum EventView {
    StartDocument,
    EndDocument,
    StartElement(NameView),
    EndElement,
    TypeAttribute(NameView),
    Attribute(AttributeView),
    NamespaceDeclaration(NamespaceDeclarationView),
    Value(ValueView),
}

/// A structural or value event of the document sequence.  Well-formedness
/// of the sequence — balanced elements, a single start and end of document —
/// is the engine's to enforce; this layer preserves the sequence as given.
#[derive(Debug, PartialEq)]
pub enum Event {
    StartDocument,
    EndDocument,
    StartElement(Name),
    EndElement,
    TypeAttribute(Name),
    Attribute(Attribute),
    NamespaceDeclaration(NamespaceDeclaration),
    Value(Value),
}

impl View for Event {
    type V = EventView;

    open spec fn view(&self) -> EventView {
        match self {
            Event::StartDocument => EventView::StartDocument,
            Event::EndDocument => EventView::EndDocument,
            Event::StartElement(n) => EventView::StartElement(n@),
            Event::EndElement => EventView::EndElement,
            Event::TypeAttribute(n) => EventView::TypeAttribute(n@),
            Event::Attribute(a) => EventView::Attribute(a@),
            Event::NamespaceDeclaration(d) => EventView::NamespaceDeclaration(d@),
            Event::Value(v) => EventView::Value(v@),
        }
    }
}

impl DeepView for Event {
    type V = EventView;

    open spec fn deep_view(&self) -> EventView {
        self.view()
    }
}

impl Clone for Event {
    fn clone(&self) -> (res: Event)
        ensures
            res@ == self@,
    {
        match self {
            Event::StartDocument => Event::StartDocument,
            Event::EndDocument => Event::EndDocument,
            Event::StartElement(n) => Event::StartElement(n.clone()),
            Event::EndElement => Event::EndElement,
            Event::TypeAttribute(n) => Event::TypeAttribute(n.clone()),
            Event::Attribute(a) => Event::Attribute(a.clone()),
            Event::NamespaceDeclaration(d) => Event::NamespaceDeclaration(d.clone()),
            Event::Value(v) => Event::Value(v.clone()),
        }
    }
}

} // verus!
