//! The push adapter's dispatch planner.
//!
//! Each high-level event maps onto an exact sequence of engine serialize
//! primitives.  Structural events map one-to-one; an attribute decomposes
//! into an `attribute(name)` primitive followed by its value's encoding —
//! mirroring the reader's reconstruction in reverse; a synthetic type
//! attribute emits the fixed `xsi:type` name and then the referenced name
//! as a qualified-name value.  Value dispatch branches on whether a schema
//! grammar is active: with one, each variant maps to its typed primitive —
//! a list emits its declared length and then each element in turn; without
//! one the grammar only has string-typed content, so every value is
//! serialized as its canonical text form.
//!
//! The `Writer` here accumulates the primitive commands; the driver that
//! owns the engine session executes them in order against the stream,
//! threading the engine's current-type-class token from each element or
//! attribute primitive into the value primitive that follows it — a
//! single-slot, call-order piece of engine state that the in-order
//! command sequence preserves.

use vstd::prelude::*;

use crate::config::wire_of_header;
use crate::config::Header;
use crate::config::HeaderWire;
use crate::data::binaries_fit;
use crate::data::has_float;
use crate::data::values_view;
use crate::data::Event;
use crate::data::EventView;
use crate::data::Name;
use crate::data::NameView;
use crate::data::Value;
use crate::data::ValueView;
use crate::datetime::encoded;
use crate::datetime::ExiDateTime;
use crate::error::EXIPError;
use crate::float::ExiFloat;
use crate::schema::Schema;
use crate::text::value_text;

verus! {

/// One engine serialize primitive, with its arguments as plain values.
#[derive(Debug, PartialEq)]
pub enum Command {
    StartDocument,
    EndDocument,
    StartElement(Name),
    EndElement,
    Attribute(Name),
    IntData(i64),
    BooleanData(bool),
    StringData(String),
    FloatData(ExiFloat),
    BinaryData(Vec<u8>),
    DateTimeData(ExiDateTime),
    ListData(u32),
    QNameData(Name),
    NamespaceDeclaration { namespace: String, prefix: String, is_local_element: bool },
}

/// Mathematical view of a `Command`.
#[verifier::ext_equal]
pub enum CommandView {
    StartDocument,
    EndDocument,
    StartElement(NameView),
    EndElement,
    Attribute(NameView),
    IntData(i64),
    BooleanData(bool),
    StringData(Seq<char>),
    FloatData(ExiFloat),
    BinaryData(Seq<u8>),
    DateTimeData(ExiDateTime),
    ListData(u32),
    QNameData(NameView),
    NamespaceDeclaration { namespace: Seq<char>, prefix: Seq<char>, is_local_element: bool },
}

impl View for Command {
    type V = CommandView;

    open spec fn view(&self) -> CommandView {
        match self {
            Command::StartDocument => CommandView::StartDocument,
            Command::EndDocument => CommandView::EndDocument,
            Command::StartElement(n) => CommandView::StartElement(n@),
            Command::EndElement => CommandView::EndElement,
            Command::Attribute(n) => CommandView::Attribute(n@),
            Command::IntData(i) => CommandView::IntData(*i),
            Command::BooleanData(b) => CommandView::BooleanData(*b),
            Command::StringData(s) => CommandView::StringData(s@),
            Command::FloatData(f) => CommandView::FloatData(*f),
            Command::BinaryData(b) => CommandView::BinaryData(b@),
            Command::DateTimeData(w) => CommandView::DateTimeData(*w),
            Command::ListData(n) => CommandView::ListData(*n),
            Command::QNameData(n) => CommandView::QNameData(n@),
            Command::NamespaceDeclaration { namespace, prefix, is_local_element } => (
            CommandView::NamespaceDeclaration {
                namespace: namespace@,
                prefix: prefix@,
                is_local_element: *is_local_element,
            }),
        }
    }
}

impl DeepView for Command {
    type V = CommandView;

    open spec fn deep_view(&self) -> CommandView {
        self.view()
    }
}

/// The fixed name of the synthetic `xsi:type` attribute.
pub open spec fn xsi_type_name() -> NameView {
    NameView {
        local_name: "type"@,
        namespace: "http://www.w3.org/2001/XMLSchema-instance"@,
        prefix: None,
    }
}

/// The typed encoding of a value under an active schema grammar: each
/// variant maps to its matching primitive; a timestamp goes through the
/// calendar codec, failing on an instant the wire form cannot carry; a
/// list emits its declared length and then each element in turn, failing
/// on a length beyond the engine's 32-bit count.
pub open spec fn typed_value_plan(v: ValueView) -> Result<Seq<CommandView>, EXIPError>
    decreases v,
{
    match v {
        ValueView::Integer(i) => Ok(seq![CommandView::IntData(i)]),
        ValueView::Boolean(b) => Ok(seq![CommandView::BooleanData(b)]),
        ValueView::String(s) => Ok(seq![CommandView::StringData(s)]),
        ValueView::Float(f) => Ok(seq![CommandView::FloatData(f)]),
        ValueView::Binary(b) => Ok(seq![CommandView::BinaryData(b)]),
        ValueView::Timestamp(dt) => if dt.wf() {
            Ok(seq![CommandView::DateTimeData(encoded(dt))])
        } else {
            Err(EXIPError::InvalidEXIInput)
        },
        ValueView::List(items) => if items.len() > u32::MAX {
            Err(EXIPError::InvalidEXIInput)
        } else {
            match typed_list_plan(items) {
                Ok(cmds) => Ok(seq![CommandView::ListData(items.len() as u32)] + cmds),
                Err(e) => Err(e),
            }
        },
        ValueView::QName(n) => Ok(seq![CommandView::QNameData(n)]),
    }
}

/// The typed encodings of a list's elements, concatenated in order; the
/// first failing element decides the error.
pub open spec fn typed_list_plan(items: Seq<ValueView>) -> Result<Seq<CommandView>, EXIPError>
    decreases items,
{
    if items.len() == 0 {
        Ok(Seq::empty())
    } else {
        match typed_value_plan(items[0]) {
            Err(e) => Err(e),
            Ok(head) => match typed_list_plan(items.drop_first()) {
                Err(e) => Err(e),
                Ok(tail) => Ok(head + tail),
            },
        }
    }
}

/// Extending a list extends its plan: with every earlier element encodable,
/// the plan of `s.push(x)` is the plan of `s` followed by `x`'s, and fails
/// exactly when `x`'s does.
pub proof fn lemma_typed_list_plan_snoc(s: Seq<ValueView>, x: ValueView)
    requires
        typed_list_plan(s) is Ok,
    ensures
        typed_value_plan(x) is Ok ==> typed_list_plan(s.push(x)) == Ok::<_, EXIPError>(
            typed_list_plan(s)->Ok_0 + typed_value_plan(x)->Ok_0,
        ),
        typed_value_plan(x) is Err ==> typed_list_plan(s.push(x)) == Err::<Seq<CommandView>, _>(
            typed_value_plan(x)->Err_0,
        ),
    decreases s.len(),
{
    if s.len() == 0 {
        assert(s.push(x)[0] == x);
        assert(s.push(x).drop_first() =~= Seq::<ValueView>::empty());
        assert(typed_list_plan(Seq::<ValueView>::empty()) == Ok::<Seq<CommandView>, EXIPError>(
            Seq::empty(),
        ));
        if typed_value_plan(x) is Ok {
            assert(typed_list_plan(s.push(x)) is Ok);
            assert(typed_list_plan(s.push(x))->Ok_0 =~= typed_list_plan(s)->Ok_0
                + typed_value_plan(x)->Ok_0);
        }
    } else {
        assert(s.push(x)[0] == s[0]);
        assert(s.push(x).drop_first() =~= s.drop_first().push(x));
        lemma_typed_list_plan_snoc(s.drop_first(), x);
        if typed_value_plan(x) is Ok {
            assert(typed_list_plan(s.push(x)) is Ok);
            assert(typed_list_plan(s.push(x))->Ok_0 =~= typed_list_plan(s)->Ok_0
                + typed_value_plan(x)->Ok_0);
        }
    }
}

/// The encoding of a value: typed under a schema, its canonical text form
/// without one.
pub open spec fn value_plan(v: ValueView, uses_schema: bool) -> Result<Seq<CommandView>, EXIPError> {
    if uses_schema {
        typed_value_plan(v)
    } else {
        Ok(seq![CommandView::StringData(value_text(v))])
    }
}

/// The primitive sequence an event dispatches to.
pub open spec fn event_plan(e: EventView, uses_schema: bool) -> Result<Seq<CommandView>, EXIPError> {
    match e {
        EventView::StartDocument => Ok(seq![CommandView::StartDocument]),
        EventView::EndDocument => Ok(seq![CommandView::EndDocument]),
        EventView::StartElement(n) => Ok(seq![CommandView::StartElement(n)]),
        EventView::EndElement => Ok(seq![CommandView::EndElement]),
        EventView::TypeAttribute(n) => Ok(
            seq![CommandView::Attribute(xsi_type_name()), CommandView::QNameData(n)],
        ),
        EventView::Attribute(a) => match value_plan(a.value, uses_schema) {
            Ok(cmds) => Ok(seq![CommandView::Attribute(a.key)] + cmds),
            Err(e) => Err(e),
        },
        EventView::NamespaceDeclaration(d) => Ok(
            seq![
                CommandView::NamespaceDeclaration {
                    namespace: d.namespace,
                    prefix: d.prefix,
                    is_local_element: d.is_local_element,
                },
            ],
        ),
        EventView::Value(v) => value_plan(v, uses_schema),
    }
}

/// Whether the schema-less writer can serialize the event: its value, if
/// any, must have a canonical text form — no float inside, and binary
/// payloads within the encoder's bound.
pub open spec fn renderable_event(e: EventView) -> bool {
    match e {
        EventView::Value(v) => !has_float(v) && binaries_fit(v),
        EventView::Attribute(a) => !has_float(a.value) && binaries_fit(a.value),
        _ => true,
    }
}

/// Append the typed encoding of one value, or leave the output untouched
/// and report why the value cannot be encoded.
fn typed_value_commands(v: &Value, out: &mut Vec<Command>) -> (r: Result<(), EXIPError>)
    ensures
        match typed_value_plan(v@) {
            Ok(cmds) => r is Ok && final(out).deep_view() == old(out).deep_view() + cmds,
            Err(e) => r == Err::<(), EXIPError>(e) && final(out).deep_view() == old(
                out,
            ).deep_view(),
        },
    decreases *v,
{
    match v {
        Value::Integer(i) => {
            out.push(Command::IntData(*i));
            proof {
                assert(out.deep_view() =~= old(out).deep_view() + typed_value_plan(v@)->Ok_0);
            }
            Ok(())
        },
        Value::Boolean(b) => {
            out.push(Command::BooleanData(*b));
            proof {
                assert(out.deep_view() =~= old(out).deep_view() + typed_value_plan(v@)->Ok_0);
            }
            Ok(())
        },
        Value::String(s) => {
            out.push(Command::StringData(s.clone()));
            proof {
                assert(out.deep_view() =~= old(out).deep_view() + typed_value_plan(v@)->Ok_0);
            }
            Ok(())
        },
        Value::Float(f) => {
            out.push(Command::FloatData(*f));
            proof {
                assert(out.deep_view() =~= old(out).deep_view() + typed_value_plan(v@)->Ok_0);
            }
            Ok(())
        },
        Value::Binary(b) => {
            let copy: Vec<u8> = b.clone();
            proof {
                assert(copy@ =~= b@);
            }
            out.push(Command::BinaryData(copy));
            proof {
                assert(out.deep_view() =~= old(out).deep_view() + typed_value_plan(v@)->Ok_0);
            }
            Ok(())
        },
        Value::Timestamp(dt) => {
            // Revalidate the fields: a timestamp built directly rather
            // than through `DateTime::new` may name no valid instant.
            match crate::datetime::DateTime::new(
                dt.year,
                dt.month,
                dt.day,
                dt.hour,
                dt.minute,
                dt.second,
                dt.nanosecond,
            ) {
                Ok(valid) => {
                    out.push(Command::DateTimeData(ExiDateTime::from_calendar(&valid)));
                    proof {
                        assert(out.deep_view() =~= old(out).deep_view() + typed_value_plan(
                            v@,
                        )->Ok_0);
                    }
                    Ok(())
                },
                Err(_) => Err(EXIPError::InvalidEXIInput),
            }
        },
        Value::List(items) => {
            proof {
                crate::data::lemma_values_view(items@);
            }
            if items.len() > (u32::MAX as usize) {
                return Err(EXIPError::InvalidEXIInput);
            }
            let mut inner: Vec<Command> = Vec::new();
            inner.push(Command::ListData(items.len() as u32));
            let mut i: usize = 0;
            #[verifier::loop_isolation(false)]
            while i < items.len()
                invariant
                    i <= items.len(),
                    typed_list_plan(values_view(items@).subrange(0, i as int)) is Ok,
                    inner.deep_view() == seq![
                        CommandView::ListData(items@.len() as u32),
                    ] + typed_list_plan(values_view(items@).subrange(0, i as int))->Ok_0,
                decreases items.len() - i,
            {
                proof {
                    assert(decreases_to!(*v => (*v)->List_0));
                    assert(decreases_to!(*items => items@[i as int]));
                    crate::data::lemma_values_view(items@);
                }
                let ghost prefix = values_view(items@).subrange(0, i as int);
                let ghost elem = values_view(items@)[i as int];
                match typed_value_commands(&items[i], &mut inner) {
                    Ok(()) => {
                        proof {
                            lemma_typed_list_plan_snoc(prefix, elem);
                            assert(values_view(items@).subrange(0, i + 1 as int) =~= prefix.push(
                                elem,
                            ));
                            assert(inner.deep_view() =~= seq![
                                CommandView::ListData(items@.len() as u32),
                            ] + typed_list_plan(values_view(items@).subrange(0, i + 1 as int))->Ok_0);
                        }
                        i = i + 1;
                    },
                    Err(e) => {
                        proof {
                            lemma_typed_list_plan_snoc(prefix, elem);
                            lemma_typed_list_plan_stops(values_view(items@), i as int);
                        }
                        return Err(e);
                    },
                }
            }
            proof {
                crate::data::lemma_values_view(items@);
                assert(values_view(items@).subrange(0, items@.len() as int) =~= values_view(
                    items@,
                ));
            }
            out.append(&mut inner);
            proof {
                assert(out.deep_view() =~= old(out).deep_view() + (seq![
                    CommandView::ListData(items@.len() as u32),
                ] + typed_list_plan(values_view(items@))->Ok_0));
            }
            Ok(())
        },
        Value::QName(n) => {
            out.push(Command::QNameData(n.clone()));
            proof {
                assert(out.deep_view() =~= old(out).deep_view() + typed_value_plan(v@)->Ok_0);
            }
            Ok(())
        },
    }
}

/// A list plan fails with the error of its first failing element: if the
/// elements before `i` are encodable and element `i` is not, the whole
/// list's plan fails the same way.
proof fn lemma_typed_list_plan_stops(items: Seq<ValueView>, i: int)
    requires
        0 <= i < items.len(),
        typed_list_plan(items.subrange(0, i)) is Ok,
        typed_value_plan(items[i]) is Err,
    ensures
        typed_list_plan(items) == Err::<Seq<CommandView>, _>(typed_value_plan(items[i])->Err_0),
    decreases i,
{
    if i == 0 {
        if items.len() > 0 {
        }
    } else {
        assert(items.subrange(0, i)[0] == items[0]);
        assert(typed_list_plan(items.subrange(0, i)) is Ok);
        assert(typed_value_plan(items[0]) is Ok && typed_list_plan(
            items.subrange(0, i).drop_first(),
        ) is Ok) by {
            assert(items.subrange(0, i).len() > 0);
        }
        assert(items.subrange(0, i).drop_first() =~= items.drop_first().subrange(0, i - 1));
        assert(items.drop_first()[i - 1] == items[i]);
        lemma_typed_list_plan_stops(items.drop_first(), i - 1);
    }
}

/// Append the encoding of one value in the given mode.
fn value_commands(v: &Value, uses_schema: bool, out: &mut Vec<Command>) -> (r: Result<
    (),
    EXIPError,
>)
    requires
        uses_schema || (!has_float(v@) && binaries_fit(v@)),
    ensures
        match value_plan(v@, uses_schema) {
            Ok(cmds) => r is Ok && final(out).deep_view() == old(out).deep_view() + cmds,
            Err(e) => r == Err::<(), EXIPError>(e) && final(out).deep_view() == old(
                out,
            ).deep_view(),
        },
{
    if uses_schema {
        typed_value_commands(v, out)
    } else {
        let text = v.canonical_string();
        out.push(Command::StringData(text));
        proof {
            assert(out.deep_view() =~= old(out).deep_view() + seq![
                CommandView::StringData(value_text(v@)),
            ]);
        }
        Ok(())
    }
}

/// Append the dispatch of one event in the given mode.
fn event_commands(event: &Event, uses_schema: bool, out: &mut Vec<Command>) -> (r: Result<
    (),
    EXIPError,
>)
    requires
        uses_schema || renderable_event(event@),
    ensures
        match event_plan(event@, uses_schema) {
            Ok(cmds) => r is Ok && final(out).deep_view() == old(out).deep_view() + cmds,
            Err(e) => r == Err::<(), EXIPError>(e) && final(out).deep_view() == old(
                out,
            ).deep_view(),
        },
{
    match event {
        Event::StartDocument => {
            out.push(Command::StartDocument);
            proof {
                assert(out.deep_view() =~= old(out).deep_view() + event_plan(
                    event@,
                    uses_schema,
                )->Ok_0);
            }
            Ok(())
        },
        Event::EndDocument => {
            out.push(Command::EndDocument);
            proof {
                assert(out.deep_view() =~= old(out).deep_view() + event_plan(
                    event@,
                    uses_schema,
                )->Ok_0);
            }
            Ok(())
        },
        Event::StartElement(n) => {
            out.push(Command::StartElement(n.clone()));
            proof {
                assert(out.deep_view() =~= old(out).deep_view() + event_plan(
                    event@,
                    uses_schema,
                )->Ok_0);
            }
            Ok(())
        },
        Event::EndElement => {
            out.push(Command::EndElement);
            proof {
                assert(out.deep_view() =~= old(out).deep_view() + event_plan(
                    event@,
                    uses_schema,
                )->Ok_0);
            }
            Ok(())
        },
        Event::TypeAttribute(n) => {
            out.push(
                Command::Attribute(
                    Name {
                        local_name: String::from_str("type"),
                        namespace: String::from_str("http://www.w3.org/2001/XMLSchema-instance"),
                        prefix: None,
                    },
                ),
            );
            out.push(Command::QNameData(n.clone()));
            proof {
                assert(out.deep_view() =~= old(out).deep_view() + event_plan(
                    event@,
                    uses_schema,
                )->Ok_0);
            }
            Ok(())
        },
        Event::Attribute(a) => {
            let mut inner: Vec<Command> = Vec::new();
            match value_commands(&a.value, uses_schema, &mut inner) {
                Ok(()) => {
                    out.push(Command::Attribute(a.key.clone()));
                    out.append(&mut inner);
                    proof {
                        assert(out.deep_view() =~= old(out).deep_view() + event_plan(
                            event@,
                            uses_schema,
                        )->Ok_0);
                    }
                    Ok(())
                },
                Err(e) => Err(e),
            }
        },
        Event::NamespaceDeclaration(d) => {
            out.push(
                Command::NamespaceDeclaration {
                    namespace: d.namespace.clone(),
                    prefix: d.prefix.clone(),
                    is_local_element: d.is_local_element,
                },
            );
            proof {
                assert(out.deep_view() =~= old(out).deep_view() + event_plan(
                    event@,
                    uses_schema,
                )->Ok_0);
            }
            Ok(())
        },
        Event::Value(v) => value_commands(v, uses_schema, out),
    }
}

/// The push adapter: dispatches each event to the exact sequence of engine
/// primitives and accumulates them, branching value encoding on whether a
/// schema grammar is active.  The driver that owns the engine session
/// applies the header record once at initialization and then executes the
/// accumulated primitives in order.
#[derive(Debug)]
pub struct Writer {
    /// Whether a schema grammar is active for the session.
    pub uses_schema: bool,
    /// The stream-header record the session applies before any event.
    pub header: HeaderWire,
    /// The serialize primitives dispatched so far, in order.
    pub commands: Vec<Command>,
}

impl Writer {
    /// Open a session: pack the header and note whether a schema grammar
    /// is active.
    pub fn new(header: Header, schema: Option<&Schema>) -> (r: Writer)
        ensures
            r.uses_schema == (schema is Some),
            r.header@ == wire_of_header(header),
            r.commands.deep_view() == Seq::<CommandView>::empty(),
    {
        let uses_schema = schema.is_some();
        let w = Writer { uses_schema, header: header.to_wire(), commands: Vec::new() };
        proof {
            assert(w.commands.deep_view() =~= Seq::<CommandView>::empty());
        }
        w
    }

    /// Dispatch one event.  On success the event's primitive sequence is
    /// appended; on failure — an unencodable timestamp or an overlong list
    /// — nothing is, and the error says why.
    pub fn add(&mut self, event: &Event) -> (r: Result<(), EXIPError>)
        requires
            old(self).uses_schema || renderable_event(event@),
        ensures
            final(self).uses_schema == old(self).uses_schema,
            final(self).header@ == old(self).header@,
            match event_plan(event@, old(self).uses_schema) {
                Ok(cmds) => r is Ok && final(self).commands.deep_view() == old(
                    self,
                ).commands.deep_view() + cmds,
                Err(e) => r == Err::<(), EXIPError>(e) && final(self).commands.deep_view() == old(
                    self,
                ).commands.deep_view(),
            },
    {
        let mut cmds: Vec<Command> = Vec::new();
        match event_commands(event, self.uses_schema, &mut cmds) {
            Ok(()) => {
                self.commands.append(&mut cmds);
                proof {
                    assert(self.commands.deep_view() =~= old(self).commands.deep_view()
                        + event_plan(event@, old(self).uses_schema)->Ok_0);
                }
                Ok(())
            },
            Err(e) => Err(e),
        }
    }

    /// Borrow the primitives dispatched so far.
    pub fn commands(&self) -> (r: &Vec<Command>)
        ensures
            r.deep_view() == self.commands.deep_view(),
    {
        &self.commands
    }
}

impl Default for Writer {
    /// A schema-less session over the default header.
    fn default() -> (r: Writer)
        ensures
            !r.uses_schema,
            r.header@ == wire_of_header(crate::config::default_header()),
            r.commands.deep_view() == Seq::<CommandView>::empty(),
    {
        Writer::new(Header::new(), None)
    }
}

} // verus!
