//! Round-trip identity.
//!
//! The writer turns an event sequence into engine serialize primitives;
//! each primitive, parsed back, surfaces as the matching parser callback;
//! the reader's machine reassembles the callbacks into events.  The
//! theorems here close that loop at the adapter level: for any encodable
//! event sequence, feeding the writer's primitives back through the reader
//! reproduces the events exactly — and in schema-less mode reproduces each
//! value as its canonical string rendering, which is where numeric and
//! boolean identity is, by design, lost to text.
//!
//! What the engine itself does between a primitive and its callback — the
//! packed bit stream — is outside this crate; these theorems state that
//! the two adapters are exact inverses across that boundary.

use vstd::prelude::*;

use crate::data::AttributeView;
use crate::data::EventView;
use crate::data::ValueView;
use crate::datetime::lemma_temporal_roundtrip;
use crate::datetime::encoded;
use crate::error::EXIPError;
use crate::reader::run_callbacks;
use crate::reader::lemma_run_concat;
use crate::reader::lemma_attribute_reconstruction;
use crate::reader::lemma_list_reconstruction;
use crate::reader::scalar_value_of;
use crate::reader::scalar_values_of;
use crate::reader::CallbackView;
use crate::reader::ReaderStateView;
use crate::text::value_text;
use crate::writer::event_plan;
use crate::writer::typed_list_plan;
use crate::writer::typed_value_plan;
use crate::writer::value_plan;
use crate::writer::renderable_event;
use crate::writer::CommandView;

verus! {

/// The parser callback that surfaces when the engine parses what a
/// serialize primitive wrote.
pub open spec fn callback_of(c: CommandView) -> CallbackView {
    match c {
        CommandView::StartDocument => CallbackView::StartDocument,
        CommandView::EndDocument => CallbackView::EndDocument,
        CommandView::StartElement(n) => CallbackView::StartElement(n),
        CommandView::EndElement => CallbackView::EndElement,
        CommandView::Attribute(n) => CallbackView::Attribute(n),
        CommandView::IntData(i) => CallbackView::Int(i),
        CommandView::BooleanData(b) => CallbackView::Boolean(b),
        CommandView::StringData(s) => CallbackView::String(s),
        CommandView::FloatData(f) => CallbackView::Float(f),
        CommandView::BinaryData(b) => CallbackView::Binary(b),
        CommandView::DateTimeData(w) => CallbackView::DateTime(w),
        CommandView::ListData(n) => CallbackView::List(n),
        CommandView::QNameData(n) => CallbackView::QName(n),
        CommandView::NamespaceDeclaration { namespace, prefix, is_local_element } => (
        CallbackView::NamespaceDeclaration { namespace, prefix, is_local_element }),
    }
}

/// The callbacks for a whole primitive sequence, in order.
pub open spec fn callbacks_of(cs: Seq<CommandView>) -> Seq<CallbackView> {
    Seq::new(cs.len(), |i: int| callback_of(cs[i]))
}

/// Mapping to callbacks distributes over concatenation.
pub proof fn lemma_callbacks_of_concat(a: Seq<CommandView>, b: Seq<CommandView>)
    ensures
        callbacks_of(a + b) =~= callbacks_of(a) + callbacks_of(b),
{
}

/// A scalar — anything but a list — whose typed encoding is a single
/// primitive: every variant but a timestamp whose instant the wire form
/// cannot carry.
pub open spec fn scalar_encodable(v: ValueView) -> bool {
    match v {
        ValueView::Timestamp(dt) => dt.wf(),
        ValueView::List(_) => false,
        _ => true,
    }
}

/// The single primitive a scalar encodes to.
pub open spec fn scalar_cmd(v: ValueView) -> CommandView {
    match v {
        ValueView::Integer(i) => CommandView::IntData(i),
        ValueView::Boolean(b) => CommandView::BooleanData(b),
        ValueView::String(s) => CommandView::StringData(s),
        ValueView::Float(f) => CommandView::FloatData(f),
        ValueView::Binary(b) => CommandView::BinaryData(b),
        ValueView::Timestamp(dt) => CommandView::DateTimeData(encoded(dt)),
        ValueView::QName(n) => CommandView::QNameData(n),
        ValueView::List(_) => CommandView::EndElement,  // never reached: lists are not scalars
    }
}

/// A scalar's primitive parses back to a callback carrying exactly the
/// scalar: the typed codecs are inverses on encodable values.
pub proof fn lemma_scalar_roundtrip(v: ValueView)
    requires
        scalar_encodable(v),
    ensures
        typed_value_plan(v) == Ok::<_, EXIPError>(seq![scalar_cmd(v)]),
        scalar_value_of(callback_of(scalar_cmd(v))) == Some(v),
{
    match v {
        ValueView::Timestamp(dt) => {
            lemma_temporal_roundtrip(dt);
        },
        _ => {},
    }
}

/// A value the schema-mode round trip covers: a scalar, or a list of
/// scalars no longer than the engine's 32-bit count.  Nested lists and
/// invalid timestamps are outside.
pub open spec fn value_encodable(v: ValueView) -> bool {
    match v {
        ValueView::List(items) => items.len() <= u32::MAX && (forall|i: int|
            0 <= i < items.len() ==> scalar_encodable(#[trigger] items[i])),
        _ => scalar_encodable(v),
    }
}

/// An event the round trip covers.  A synthetic type attribute is not: it
/// deliberately reads back as an ordinary attribute carrying a
/// qualified-name value, not as itself.  An attribute's value must be a
/// scalar: the reconstruction machine holds at most one pending attribute
/// or one open list, never both.
pub open spec fn event_encodable(e: EventView) -> bool {
    match e {
        EventView::TypeAttribute(_) => false,
        EventView::Attribute(a) => scalar_encodable(a.value),
        EventView::Value(v) => value_encodable(v),
        _ => true,
    }
}

/// The plan of a list of scalars is one primitive per element.
proof fn lemma_scalar_list_plan(items: Seq<ValueView>)
    requires
        forall|i: int| 0 <= i < items.len() ==> scalar_encodable(#[trigger] items[i]),
    ensures
        typed_list_plan(items) is Ok,
        typed_list_plan(items)->Ok_0 =~= Seq::new(items.len(), |i: int| scalar_cmd(items[i])),
    decreases items.len(),
{
    if items.len() == 0 {
    } else {
        lemma_scalar_roundtrip(items[0]);
        assert forall|i: int| 0 <= i < items.drop_first().len() implies scalar_encodable(
            #[trigger] items.drop_first()[i],
        ) by {
            assert(items.drop_first()[i] == items[i + 1]);
        }
        lemma_scalar_list_plan(items.drop_first());
        assert(typed_list_plan(items)->Ok_0 =~= Seq::new(
            items.len(),
            |i: int| scalar_cmd(items[i]),
        ));
    }
}

/// One encodable event round-trips: its primitives, parsed back and fed
/// through the reconstruction machine, produce exactly that event and
/// leave the machine empty.
proof fn lemma_event_roundtrip(e: EventView)
    requires
        event_encodable(e),
    ensures
        event_plan(e, true) is Ok,
        run_callbacks(ReaderStateView::Empty, callbacks_of(event_plan(e, true)->Ok_0)).error
            is None,
        run_callbacks(ReaderStateView::Empty, callbacks_of(event_plan(e, true)->Ok_0)).state
            is Empty,
        run_callbacks(ReaderStateView::Empty, callbacks_of(event_plan(e, true)->Ok_0)).events
            =~~= seq![e],
{
    reveal_with_fuel(run_callbacks, 3);
    match e {
        EventView::StartDocument => {
            assert(callbacks_of(seq![CommandView::StartDocument]) =~= seq![
                CallbackView::StartDocument,
            ]);
        },
        EventView::EndDocument => {
            assert(callbacks_of(seq![CommandView::EndDocument]) =~= seq![
                CallbackView::EndDocument,
            ]);
        },
        EventView::StartElement(n) => {
            assert(callbacks_of(seq![CommandView::StartElement(n)]) =~= seq![
                CallbackView::StartElement(n),
            ]);
        },
        EventView::EndElement => {
            assert(callbacks_of(seq![CommandView::EndElement]) =~= seq![CallbackView::EndElement]);
        },
        EventView::NamespaceDeclaration(d) => {
            assert(callbacks_of(event_plan(e, true)->Ok_0) =~= seq![
                CallbackView::NamespaceDeclaration {
                    namespace: d.namespace,
                    prefix: d.prefix,
                    is_local_element: d.is_local_element,
                },
            ]);
        },
        EventView::Attribute(a) => {
            lemma_scalar_roundtrip(a.value);
            let cb = callback_of(scalar_cmd(a.value));
            assert(callbacks_of(event_plan(e, true)->Ok_0) =~= seq![
                CallbackView::Attribute(a.key),
                cb,
            ]);
            lemma_attribute_reconstruction(a.key, cb);
            assert(seq![EventView::Attribute(AttributeView { key: a.key, value: a.value })] =~~=
                seq![e]);
        },
        EventView::Value(v) => {
            match v {
                ValueView::List(items) => {
                    let len = items.len() as u32;
                    lemma_scalar_list_plan(items);
                    let cbs = callbacks_of(typed_list_plan(items)->Ok_0);
                    assert(callbacks_of(event_plan(e, true)->Ok_0) =~= seq![
                        CallbackView::List(len),
                    ] + cbs);
                    if items.len() == 0 {
                        let cbs1 = seq![CallbackView::List(0u32)];
                        assert(callbacks_of(event_plan(e, true)->Ok_0) =~= cbs1);
                        assert(cbs1[0] == CallbackView::List(0u32));
                        assert(cbs1.drop_first() =~= Seq::<CallbackView>::empty());
                        assert(run_callbacks(ReaderStateView::Empty, cbs1).events =~~= seq![
                            EventView::Value(ValueView::List(Seq::empty())),
                        ]);
                        assert(items =~= Seq::<ValueView>::empty());
                        assert(seq![EventView::Value(ValueView::List(Seq::<ValueView>::empty()))]
                            =~~= seq![e]);
                    } else {
                        assert forall|i: int| 0 <= i < cbs.len() implies scalar_value_of(
                            #[trigger] cbs[i],
                        ) is Some by {
                            lemma_scalar_roundtrip(items[i]);
                        }
                        lemma_list_reconstruction(len, cbs);
                        assert(scalar_values_of(cbs) =~= items) by {
                            assert forall|i: int| 0 <= i < cbs.len() implies scalar_values_of(
                                cbs,
                            )[i] == items[i] by {
                                lemma_scalar_roundtrip(items[i]);
                            }
                        }
                    }
                },
                _ => {
                    lemma_scalar_roundtrip(v);
                    assert(callbacks_of(event_plan(e, true)->Ok_0) =~= seq![
                        callback_of(scalar_cmd(v)),
                    ]);
                },
            }
        },
        EventView::TypeAttribute(_) => {},
    }
}

/// What a sequence of dispatches accumulates: the concatenation of the
/// events' plans, stopped at the first failure.
pub open spec fn document_plan(events: Seq<EventView>, uses_schema: bool) -> Result<
    Seq<CommandView>,
    EXIPError,
>
    decreases events.len(),
{
    if events.len() == 0 {
        Ok(Seq::empty())
    } else {
        match event_plan(events[0], uses_schema) {
            Err(e) => Err(e),
            Ok(head) => match document_plan(events.drop_first(), uses_schema) {
                Err(e) => Err(e),
                Ok(tail) => Ok(head + tail),
            },
        }
    }
}

/// Round-trip identity, schema mode: any sequence of encodable events is
/// dispatched without error, and parsing the dispatched primitives back
/// through the reconstruction machine yields exactly the original
/// sequence, ending with nothing pending.
pub proof fn lemma_roundtrip_schema(events: Seq<EventView>)
    requires
        forall|i: int| 0 <= i < events.len() ==> event_encodable(#[trigger] events[i]),
    ensures
        document_plan(events, true) is Ok,
        run_callbacks(ReaderStateView::Empty, callbacks_of(document_plan(events, true)->Ok_0)).error
            is None,
        run_callbacks(ReaderStateView::Empty, callbacks_of(document_plan(events, true)->Ok_0)).state
            is Empty,
        run_callbacks(
            ReaderStateView::Empty,
            callbacks_of(document_plan(events, true)->Ok_0),
        ).events =~~= events,
    decreases events.len(),
{
    if events.len() == 0 {
        assert(callbacks_of(Seq::empty()) =~= Seq::<CallbackView>::empty());
    } else {
        lemma_event_roundtrip(events[0]);
        assert forall|i: int| 0 <= i < events.drop_first().len() implies event_encodable(
            #[trigger] events.drop_first()[i],
        ) by {
            assert(events.drop_first()[i] == events[i + 1]);
        }
        lemma_roundtrip_schema(events.drop_first());
        let head = event_plan(events[0], true)->Ok_0;
        let tail = document_plan(events.drop_first(), true)->Ok_0;
        lemma_callbacks_of_concat(head, tail);
        lemma_run_concat(ReaderStateView::Empty, callbacks_of(head), callbacks_of(tail));
        assert(run_callbacks(ReaderStateView::Empty, callbacks_of(head)).state
            == ReaderStateView::Empty);
        assert(run_callbacks(ReaderStateView::Empty, callbacks_of(head + tail)).events =~~= seq![
            events[0],
        ] + events.drop_first());
        assert(seq![events[0]] + events.drop_first() =~= events);
    }
}

/// The event a schema-less stream reads back in place of `e`: structure
/// passes through, every value comes back as the string holding its
/// canonical text form.
pub open spec fn textual_image(e: EventView) -> EventView {
    match e {
        EventView::Value(v) => EventView::Value(ValueView::String(value_text(v))),
        EventView::Attribute(a) => EventView::Attribute(
            AttributeView { key: a.key, value: ValueView::String(value_text(a.value)) },
        ),
        _ => e,
    }
}

/// One renderable event round-trips through the schema-less mode to its
/// textual image.
proof fn lemma_event_roundtrip_textual(e: EventView)
    requires
        renderable_event(e),
        !(e is TypeAttribute),
    ensures
        event_plan(e, false) is Ok,
        run_callbacks(ReaderStateView::Empty, callbacks_of(event_plan(e, false)->Ok_0)).error
            is None,
        run_callbacks(ReaderStateView::Empty, callbacks_of(event_plan(e, false)->Ok_0)).state
            is Empty,
        run_callbacks(ReaderStateView::Empty, callbacks_of(event_plan(e, false)->Ok_0)).events
            =~~= seq![textual_image(e)],
{
    reveal_with_fuel(run_callbacks, 3);
    match e {
        EventView::StartDocument => {
            assert(callbacks_of(seq![CommandView::StartDocument]) =~= seq![
                CallbackView::StartDocument,
            ]);
        },
        EventView::EndDocument => {
            assert(callbacks_of(seq![CommandView::EndDocument]) =~= seq![
                CallbackView::EndDocument,
            ]);
        },
        EventView::StartElement(n) => {
            assert(callbacks_of(seq![CommandView::StartElement(n)]) =~= seq![
                CallbackView::StartElement(n),
            ]);
        },
        EventView::EndElement => {
            assert(callbacks_of(seq![CommandView::EndElement]) =~= seq![CallbackView::EndElement]);
        },
        EventView::NamespaceDeclaration(d) => {
            assert(callbacks_of(event_plan(e, false)->Ok_0) =~= seq![
                CallbackView::NamespaceDeclaration {
                    namespace: d.namespace,
                    prefix: d.prefix,
                    is_local_element: d.is_local_element,
                },
            ]);
        },
        EventView::Attribute(a) => {
            let cb = CallbackView::String(value_text(a.value));
            assert(callbacks_of(event_plan(e, false)->Ok_0) =~= seq![
                CallbackView::Attribute(a.key),
                cb,
            ]);
            lemma_attribute_reconstruction(a.key, cb);
        },
        EventView::Value(v) => {
            assert(callbacks_of(event_plan(e, false)->Ok_0) =~= seq![
                CallbackView::String(value_text(v)),
            ]);
        },
        EventView::TypeAttribute(_) => {},
    }
}

/// Round-trip, schema-less mode: any sequence of renderable events — no
/// synthetic type attributes, no floats, binaries within the encoder's
/// bound — is dispatched without error, and reading the dispatched
/// primitives back yields the sequence of textual images: structure
/// preserved exactly, every scalar value as its canonical string
/// rendering.  Numeric and boolean identity is lost to text by design.
pub proof fn lemma_roundtrip_schemaless(events: Seq<EventView>)
    requires
        forall|i: int| 0 <= i < events.len() ==> renderable_event(#[trigger] events[i]),
        forall|i: int| 0 <= i < events.len() ==> !(#[trigger] events[i] is TypeAttribute),
    ensures
        document_plan(events, false) is Ok,
        run_callbacks(
            ReaderStateView::Empty,
            callbacks_of(document_plan(events, false)->Ok_0),
        ).error is None,
        run_callbacks(
            ReaderStateView::Empty,
            callbacks_of(document_plan(events, false)->Ok_0),
        ).state is Empty,
        run_callbacks(
            ReaderStateView::Empty,
            callbacks_of(document_plan(events, false)->Ok_0),
        ).events =~~= Seq::new(events.len(), |i: int| textual_image(events[i])),
    decreases events.len(),
{
    if events.len() == 0 {
        assert(callbacks_of(Seq::empty()) =~= Seq::<CallbackView>::empty());
    } else {
        lemma_event_roundtrip_textual(events[0]);
        assert forall|i: int| 0 <= i < events.drop_first().len() implies renderable_event(
            #[trigger] events.drop_first()[i],
        ) && !(events.drop_first()[i] is TypeAttribute) by {
            assert(events.drop_first()[i] == events[i + 1]);
        }
        lemma_roundtrip_schemaless(events.drop_first());
        let head = event_plan(events[0], false)->Ok_0;
        let tail = document_plan(events.drop_first(), false)->Ok_0;
        lemma_callbacks_of_concat(head, tail);
        lemma_run_concat(ReaderStateView::Empty, callbacks_of(head), callbacks_of(tail));
        assert(run_callbacks(ReaderStateView::Empty, callbacks_of(head + tail)).events =~~= seq![
            textual_image(events[0]),
        ] + Seq::new(events.drop_first().len(), |i: int| textual_image(events.drop_first()[i])));
        assert(seq![textual_image(events[0])] + Seq::new(
            events.drop_first().len(),
            |i: int| textual_image(events.drop_first()[i]),
        ) =~~= Seq::new(events.len(), |i: int| textual_image(events[i])));
    }
}

} // verus!
