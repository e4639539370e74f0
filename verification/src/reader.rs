//! The pull adapter's reconstruction state machine.
//!
//! The engine's parser is push-style: its next-token primitive invokes one
//! content callback and returns a status code.  The adapter turns that into
//! a pull sequence of coherent events.  Most callbacks map one-to-one onto
//! events, with two exceptions that need state: an `attribute(name)`
//! callback holds the name until the paired value arrives, and a
//! `list(length)` callback opens an accumulator that swallows the next
//! `length` scalar values and emits them as one list value.
//!
//! The machine here is pure: `Reader::handle` absorbs what one engine call
//! produced and says what the driver should do next — call the engine
//! again, refill the input buffer, yield an event, or stop.  The driver
//! that owns the byte source and the engine session sits outside.

use vstd::prelude::*;

use crate::config::wire_of_options;
use crate::config::Options;
use crate::config::OptionsWire;
use crate::data::values_view;
use crate::data::Attribute;
use crate::data::AttributeView;
use crate::data::Event;
use crate::data::EventView;
use crate::data::Name;
use crate::data::NameView;
use crate::data::NamespaceDeclaration;
use crate::data::NamespaceDeclarationView;
use crate::data::Value;
use crate::data::ValueView;
use crate::datetime::decoded;
use crate::datetime::wire_valid;
use crate::datetime::DateTime;
use crate::datetime::ExiDateTime;
use crate::error::error_of_code;
use crate::error::EXIPError;
use crate::error::ReaderError;
use crate::float::ExiFloat;

verus! {

/// A content callback delivered by the engine's parser.  Text and binary
/// payloads are owned: the engine reclaims its buffers as soon as a
/// callback returns, so whoever receives the callback copies them before
/// handing them here.
#[derive(Debug, PartialEq)]
pub enum Callback {
    StartDocument,
    EndDocument,
    StartElement(Name),
    EndElement,
    Attribute(Name),
    Int(i64),
    Boolean(bool),
    String(String),
    Float(ExiFloat),
    Decimal(ExiFloat),
    Binary(Vec<u8>),
    DateTime(ExiDateTime),
    List(u32),
    QName(Name),
    NamespaceDeclaration { namespace: String, prefix: String, is_local_element: bool },
}

/// Mathematical view of a `Callback`.
#[verifier::ext_equal]
pub enum CallbackView {
    StartDocument,
    EndDocument,
    StartElement(NameView),
    EndElement,
    Attribute(NameView),
    Int(i64),
    Boolean(bool),
    String(Seq<char>),
    Float(ExiFloat),
    Decimal(ExiFloat),
    Binary(Seq<u8>),
    DateTime(ExiDateTime),
    List(u32),
    QName(NameView),
    NamespaceDeclaration { namespace: Seq<char>, prefix: Seq<char>, is_local_element: bool },
}

impl View for Callback {
    type V = CallbackView;

    open spec fn view(&self) -> CallbackView {
        match self {
            Callback::StartDocument => CallbackView::StartDocument,
            Callback::EndDocument => CallbackView::EndDocument,
            Callback::StartElement(n) => CallbackView::StartElement(n@),
            Callback::EndElement => CallbackView::EndElement,
            Callback::Attribute(n) => CallbackView::Attribute(n@),
            Callback::Int(i) => CallbackView::Int(*i),
            Callback::Boolean(b) => CallbackView::Boolean(*b),
            Callback::String(s) => CallbackView::String(s@),
            Callback::Float(f) => CallbackView::Float(*f),
            Callback::Decimal(f) => CallbackView::Decimal(*f),
            Callback::Binary(b) => CallbackView::Binary(b@),
            Callback::DateTime(w) => CallbackView::DateTime(*w),
            Callback::List(n) => CallbackView::List(*n),
            Callback::QName(n) => CallbackView::QName(n@),
            Callback::NamespaceDeclaration { namespace, prefix, is_local_element } => (
            CallbackView::NamespaceDeclaration {
                namespace: namespace@,
                prefix: prefix@,
                is_local_element: *is_local_element,
            }),
        }
    }
}

/// What one invocation of the engine's next-token primitive produced: a
/// content callback, a buffer-exhaustion signal, the parse-complete
/// signal, or an error code.
#[derive(Debug, PartialEq)]
pub enum EngineResult {
    Callback(Callback),
    BufferEnd,
    Complete,
    Error(u32),
}

/// Mathematical view of an `EngineResult`.
#[verifier::ext_equal]
pub enum EngineResultView {
    Callback(CallbackView),
    BufferEnd,
    Complete,
    Error(u32),
}

impl View for EngineResult {
    type V = EngineResultView;

    open spec fn view(&self) -> EngineResultView {
        match self {
            EngineResult::Callback(cb) => EngineResultView::Callback(cb@),
            EngineResult::BufferEnd => EngineResultView::BufferEnd,
            EngineResult::Complete => EngineResultView::Complete,
            EngineResult::Error(code) => EngineResultView::Error(*code),
        }
    }
}

/// The reconstruction state: nothing pending, an attribute name awaiting
/// its value, or a list awaiting the rest of its declared elements.
#[derive(Debug, PartialEq)]
pub enum ReaderState {
    Empty,
    PartialAttribute(Name),
    PartialList(Vec<Value>, u32),
}

/// Mathematical view of a `ReaderState`.
#[verifier::ext_equal]
pub enum ReaderStateView {
    Empty,
    PartialAttribute(NameView),
    PartialList(Seq<ValueView>, u32),
}

impl View for ReaderState {
    type V = ReaderStateView;

    open spec fn view(&self) -> ReaderStateView {
        match self {
            ReaderState::Empty => ReaderStateView::Empty,
            ReaderState::PartialAttribute(n) => ReaderStateView::PartialAttribute(n@),
            ReaderState::PartialList(vs, len) => ReaderStateView::PartialList(
                values_view(vs@),
                *len,
            ),
        }
    }
}

/// What the adapter tells its driver after absorbing one engine result.
#[derive(Debug, PartialEq)]
pub enum Step {
    /// No caller-visible event yet: invoke the engine again.
    Continue,
    /// The engine ran out of buffered input: refill from the byte source
    /// and retry; if the source is exhausted, that is a fatal
    /// `ReaderError::SourceExhausted`.
    Refill,
    /// A coherent event for the caller.
    Event(Event),
    /// The document ended earlier: there is nothing more to read.
    Finished,
    /// A fatal error for the caller; the reader must be discarded.
    Error(ReaderError),
}

/// Mathematical view of a `Step`.
#[verifier::ext_equal]
pub enum StepView {
    Continue,
    Refill,
    Event(EventView),
    Finished,
    Error(ReaderError),
}

impl View for Step {
    type V = StepView;

    open spec fn view(&self) -> StepView {
        match self {
            Step::Continue => StepView::Continue,
            Step::Refill => StepView::Refill,
            Step::Event(e) => StepView::Event(e@),
            Step::Finished => StepView::Finished,
            Step::Error(e) => StepView::Error(*e),
        }
    }
}

/// The typed value a scalar-value callback carries: decimals arrive on the
/// same wire record as floats, and a date-time decodes through the
/// calendar codec — `None` when its fields name no valid instant.
/// Structural, attribute, and list callbacks carry no value.
pub open spec fn scalar_value_of(cb: CallbackView) -> Option<ValueView> {
    match cb {
        CallbackView::Int(i) => Some(ValueView::Integer(i)),
        CallbackView::Boolean(b) => Some(ValueView::Boolean(b)),
        CallbackView::String(s) => Some(ValueView::String(s)),
        CallbackView::Float(f) => Some(ValueView::Float(f)),
        CallbackView::Decimal(f) => Some(ValueView::Float(f)),
        CallbackView::Binary(b) => Some(ValueView::Binary(b)),
        CallbackView::DateTime(w) => if wire_valid(w) {
            Some(ValueView::Timestamp(decoded(w)))
        } else {
            None
        },
        CallbackView::QName(n) => Some(ValueView::QName(n)),
        _ => None,
    }
}

/// The error step for a callback arriving in a state that cannot absorb
/// it.
pub open spec fn unexpected() -> StepView {
    StepView::Error(ReaderError::Exip(EXIPError::Unexpected))
}

/// A structural callback maps straight onto its event — but only with
/// nothing pending: while an attribute or list is half built it is an
/// unexpected-reconstruction error.
pub open spec fn structural_step(s: ReaderStateView, ev: EventView) -> (ReaderStateView, StepView) {
    if s is Empty {
        (ReaderStateView::Empty, StepView::Event(ev))
    } else {
        (ReaderStateView::Empty, unexpected())
    }
}

/// How a scalar value lands in the current state: alone it is an event of
/// its own; with an attribute name pending it completes the attribute;
/// with a list open it joins the accumulator, closing the list when the
/// declared length is reached.
pub open spec fn value_step(s: ReaderStateView, v: ValueView) -> (ReaderStateView, StepView) {
    match s {
        ReaderStateView::Empty => (ReaderStateView::Empty, StepView::Event(EventView::Value(v))),
        ReaderStateView::PartialAttribute(name) => (
            ReaderStateView::Empty,
            StepView::Event(EventView::Attribute(AttributeView { key: name, value: v })),
        ),
        ReaderStateView::PartialList(vs, len) => {
            let vs2 = vs.push(v);
            if vs2.len() == len {
                (ReaderStateView::Empty, StepView::Event(EventView::Value(ValueView::List(vs2))))
            } else {
                (ReaderStateView::PartialList(vs2, len), StepView::Continue)
            }
        },
    }
}

/// The transition on one content callback: the new state, and what the
/// driver is told.
pub open spec fn reader_transition(s: ReaderStateView, cb: CallbackView) -> (
    ReaderStateView,
    StepView,
) {
    match cb {
        CallbackView::StartDocument => structural_step(s, EventView::StartDocument),
        CallbackView::EndDocument => structural_step(s, EventView::EndDocument),
        CallbackView::StartElement(n) => structural_step(s, EventView::StartElement(n)),
        CallbackView::EndElement => structural_step(s, EventView::EndElement),
        CallbackView::NamespaceDeclaration { namespace, prefix, is_local_element } => (
        structural_step(
            s,
            EventView::NamespaceDeclaration(
                NamespaceDeclarationView { namespace, prefix, is_local_element },
            ),
        )),
        CallbackView::Attribute(n) => {
            if s is Empty {
                (ReaderStateView::PartialAttribute(n), StepView::Continue)
            } else {
                (ReaderStateView::Empty, unexpected())
            }
        },
        CallbackView::List(len) => {
            if s is Empty {
                if len == 0 {
                    (
                        ReaderStateView::Empty,
                        StepView::Event(EventView::Value(ValueView::List(Seq::empty()))),
                    )
                } else {
                    (ReaderStateView::PartialList(Seq::empty(), len), StepView::Continue)
                }
            } else {
                (ReaderStateView::Empty, unexpected())
            }
        },
        _ => match scalar_value_of(cb) {
            Some(v) => value_step(s, v),
            None => (
                ReaderStateView::Empty,
                StepView::Error(ReaderError::Exip(EXIPError::InvalidEXIInput)),
            ),
        },
    }
}

/// The full step on one engine result, threading the finished flag: once
/// the document has ended every further call says so; a buffer-end asks
/// for a refill; parse-complete becomes the final `EndDocument`; an error
/// code surfaces mapped onto the error enumeration.
pub open spec fn reader_step(s: ReaderStateView, finished: bool, r: EngineResultView) -> (
    ReaderStateView,
    bool,
    StepView,
) {
    if finished {
        (s, true, StepView::Finished)
    } else {
        match r {
            EngineResultView::Callback(cb) => {
                let (s2, out) = reader_transition(s, cb);
                (s2, false, out)
            },
            EngineResultView::BufferEnd => (s, false, StepView::Refill),
            EngineResultView::Complete => (s, true, StepView::Event(EventView::EndDocument)),
            EngineResultView::Error(code) => (
                s,
                false,
                StepView::Error(ReaderError::Exip(error_of_code(code))),
            ),
        }
    }
}

/// The pull adapter: a single-pass, forward-only reconstruction machine.
/// Feed it what each engine call produced; it yields coherent events, ends
/// with `EndDocument`, and says `Finished` ever after.  The session also
/// carries what its engine parser is initialized with: whether a schema
/// grammar is set, and the packed options to fall back on when the stream
/// header carries none.
#[derive(Debug)]
pub struct Reader {
    /// The reconstruction state.
    pub state: ReaderState,
    /// Whether the final `EndDocument` has been yielded.
    pub finished: bool,
    /// Whether a schema grammar is set on the parser.
    pub uses_schema: bool,
    /// Packed options to use when the stream header does not carry its
    /// own; `None` leaves the header's options in force.
    pub options: Option<OptionsWire>,
}

impl Reader {
    /// A partially built list never holds as many elements as it declared,
    /// and never declares zero.
    pub open spec fn wf(self) -> bool {
        match self.state {
            ReaderState::PartialList(vs, len) => vs@.len() < len && len > 0,
            _ => true,
        }
    }

    /// Open a session: nothing pending, nothing finished, the supplied
    /// options packed for the parser's header.
    pub fn new(schema: Option<&crate::schema::Schema>, options: Option<Options>) -> (r: Reader)
        ensures
            r.state@ is Empty,
            !r.finished,
            r.wf(),
            r.uses_schema == (schema is Some),
            r.options is Some <==> options is Some,
            options is Some ==> r.options->0@ == wire_of_options(options->0),
    {
        let uses_schema = schema.is_some();
        let options_wire: Option<OptionsWire> = match options {
            Some(o) => Some(o.to_wire()),
            None => None,
        };
        Reader {
            state: ReaderState::Empty,
            finished: false,
            uses_schema,
            options: options_wire,
        }
    }

    /// Report that the byte source could not satisfy a refill: recovery
    /// from buffer exhaustion failed, which is fatal to the caller.
    pub fn source_exhausted(&mut self) -> (step: Step)
        requires
            old(self).wf(),
        ensures
            *final(self) == *old(self),
            step@ == StepView::Error(ReaderError::SourceExhausted),
    {
        Step::Error(ReaderError::SourceExhausted)
    }

    /// Absorb a scalar value into the current state.
    fn absorb_value(&mut self, v: Value) -> (step: Step)
        requires
            old(self).wf(),
        ensures
            final(self).wf(),
            final(self).finished == old(self).finished,
            final(self).uses_schema == old(self).uses_schema,
            final(self).options == old(self).options,
            (final(self).state@, step@) == value_step(old(self).state@, v@),
    {
        let mut st = ReaderState::Empty;
        core::mem::swap(&mut st, &mut self.state);
        match st {
            ReaderState::Empty => Step::Event(Event::Value(v)),
            ReaderState::PartialAttribute(name) => Step::Event(
                Event::Attribute(Attribute { key: name, value: v }),
            ),
            ReaderState::PartialList(vs, len) => {
                let ghost old_vs = vs@;
                let mut vs = vs;
                vs.push(v);
                proof {
                    crate::data::lemma_values_view(old_vs);
                    crate::data::lemma_values_view(vs@);
                    assert(values_view(vs@) =~= values_view(old_vs).push(v@));
                }
                if vs.len() == len as usize {
                    Step::Event(Event::Value(Value::List(vs)))
                } else {
                    self.state = ReaderState::PartialList(vs, len);
                    Step::Continue
                }
            },
        }
    }

    /// Report an unexpected callback, clearing the state.
    fn fail_unexpected(&mut self) -> (step: Step)
        ensures
            final(self).state@ is Empty,
            final(self).finished == old(self).finished,
            final(self).uses_schema == old(self).uses_schema,
            final(self).options == old(self).options,
            step@ == unexpected(),
            final(self).wf(),
    {
        self.state = ReaderState::Empty;
        Step::Error(ReaderError::Exip(EXIPError::Unexpected))
    }

    /// Emit a structural event, which is only coherent with nothing
    /// pending.
    fn emit_structural(&mut self, ev: Event) -> (step: Step)
        requires
            old(self).wf(),
        ensures
            final(self).wf(),
            final(self).finished == old(self).finished,
            final(self).uses_schema == old(self).uses_schema,
            final(self).options == old(self).options,
            (final(self).state@, step@) == structural_step(old(self).state@, ev@),
    {
        match &self.state {
            ReaderState::Empty => Step::Event(ev),
            _ => self.fail_unexpected(),
        }
    }

    /// Absorb one content callback.
    fn absorb(&mut self, cb: Callback) -> (step: Step)
        requires
            old(self).wf(),
        ensures
            final(self).wf(),
            final(self).finished == old(self).finished,
            final(self).uses_schema == old(self).uses_schema,
            final(self).options == old(self).options,
            (final(self).state@, step@) == reader_transition(old(self).state@, cb@),
    {
        match cb {
            Callback::StartDocument => self.emit_structural(Event::StartDocument),
            Callback::EndDocument => self.emit_structural(Event::EndDocument),
            Callback::StartElement(n) => self.emit_structural(Event::StartElement(n)),
            Callback::EndElement => self.emit_structural(Event::EndElement),
            Callback::NamespaceDeclaration { namespace, prefix, is_local_element } => self
                .emit_structural(
                Event::NamespaceDeclaration(
                    NamespaceDeclaration { namespace, prefix, is_local_element },
                ),
            ),
            Callback::Attribute(n) => {
                match &self.state {
                    ReaderState::Empty => {
                        self.state = ReaderState::PartialAttribute(n);
                        Step::Continue
                    },
                    _ => self.fail_unexpected(),
                }
            },
            Callback::List(len) => {
                match &self.state {
                    ReaderState::Empty => {
                        if len == 0 {
                            let empty_list: Vec<Value> = Vec::new();
                            proof {
                                assert(values_view(empty_list@) =~= Seq::<ValueView>::empty());
                            }
                            Step::Event(Event::Value(Value::List(empty_list)))
                        } else {
                            self.state = ReaderState::PartialList(Vec::new(), len);
                            proof {
                                assert(values_view(Seq::<Value>::empty()) =~= Seq::<
                                    ValueView,
                                >::empty());
                            }
                            Step::Continue
                        }
                    },
                    _ => self.fail_unexpected(),
                }
            },
            Callback::Int(i) => self.absorb_value(Value::Integer(i)),
            Callback::Boolean(b) => self.absorb_value(Value::Boolean(b)),
            Callback::String(s) => self.absorb_value(Value::String(s)),
            Callback::Float(f) => self.absorb_value(Value::Float(f)),
            Callback::Decimal(f) => self.absorb_value(Value::Float(f)),
            Callback::Binary(b) => self.absorb_value(Value::Binary(b)),
            Callback::DateTime(w) => {
                match DateTime::from_wire(&w) {
                    Ok(dt) => self.absorb_value(Value::Timestamp(dt)),
                    Err(_) => {
                        self.state = ReaderState::Empty;
                        Step::Error(ReaderError::Exip(EXIPError::InvalidEXIInput))
                    },
                }
            },
            Callback::QName(n) => self.absorb_value(Value::QName(n)),
        }
    }

    /// Absorb what one engine call produced and say what the driver should
    /// do next.
    pub fn handle(&mut self, r: EngineResult) -> (step: Step)
        requires
            old(self).wf(),
        ensures
            final(self).wf(),
            final(self).uses_schema == old(self).uses_schema,
            final(self).options == old(self).options,
            (final(self).state@, final(self).finished, step@) == reader_step(
                old(self).state@,
                old(self).finished,
                r@,
            ),
    {
        if self.finished {
            return Step::Finished;
        }
        match r {
            EngineResult::Callback(cb) => self.absorb(cb),
            EngineResult::BufferEnd => Step::Refill,
            EngineResult::Complete => {
                self.finished = true;
                Step::Event(Event::EndDocument)
            },
            EngineResult::Error(code) => Step::Error(
                ReaderError::Exip(EXIPError::from(code)),
            ),
        }
    }
}

/// The result of feeding a sequence of callbacks through the machine:
/// where it ended, the events it emitted in order, and the error it
/// stopped at, if any.
pub struct RunResult {
    pub state: ReaderStateView,
    pub events: Seq<EventView>,
    pub error: Option<ReaderError>,
}

/// Feed callbacks one after the other, collecting emitted events and
/// stopping at the first error.
pub open spec fn run_callbacks(s: ReaderStateView, cbs: Seq<CallbackView>) -> RunResult
    decreases cbs.len(),
{
    if cbs.len() == 0 {
        RunResult { state: s, events: Seq::empty(), error: None }
    } else {
        let (s2, out) = reader_transition(s, cbs[0]);
        match out {
            StepView::Error(e) => RunResult { state: s2, events: Seq::empty(), error: Some(e) },
            StepView::Event(ev) => {
                let rest = run_callbacks(s2, cbs.drop_first());
                RunResult {
                    state: rest.state,
                    events: seq![ev] + rest.events,
                    error: rest.error,
                }
            },
            _ => {
                let rest = run_callbacks(s2, cbs.drop_first());
                RunResult { state: rest.state, events: rest.events, error: rest.error }
            },
        }
    }
}

/// Runs compose: feeding `a + b` is feeding `a`, then feeding `b` from
/// where `a` ended — provided `a` runs without error.
pub proof fn lemma_run_concat(s: ReaderStateView, a: Seq<CallbackView>, b: Seq<CallbackView>)
    requires
        run_callbacks(s, a).error is None,
    ensures
        run_callbacks(s, a + b).state == run_callbacks(run_callbacks(s, a).state, b).state,
        run_callbacks(s, a + b).error == run_callbacks(run_callbacks(s, a).state, b).error,
        run_callbacks(s, a + b).events == run_callbacks(s, a).events + run_callbacks(
            run_callbacks(s, a).state,
            b,
        ).events,
    decreases a.len(),
{
    if a.len() == 0 {
        assert(a + b =~= b);
        assert(run_callbacks(s, a).events + run_callbacks(s, b).events =~= run_callbacks(
            s,
            b,
        ).events);
    } else {
        let (s2, out) = reader_transition(s, a[0]);
        assert((a + b)[0] == a[0]);
        assert((a + b).drop_first() =~= a.drop_first() + b);
        lemma_run_concat(s2, a.drop_first(), b);
        match out {
            StepView::Event(ev) => {
                assert(seq![ev] + (run_callbacks(s2, a.drop_first()).events + run_callbacks(
                    run_callbacks(s2, a.drop_first()).state,
                    b,
                ).events) =~= (seq![ev] + run_callbacks(s2, a.drop_first()).events)
                    + run_callbacks(run_callbacks(s2, a.drop_first()).state, b).events);
            },
            _ => {},
        }
    }
}

/// The scalar values a sequence of value callbacks carries, elementwise.
pub open spec fn scalar_values_of(cbs: Seq<CallbackView>) -> Seq<ValueView> {
    Seq::new(cbs.len(), |i: int| scalar_value_of(cbs[i])->0)
}

/// List reconstruction, continued: with `len` declared and some elements
/// accumulated, the remaining scalar callbacks produce exactly one event,
/// the completed list, and leave the machine empty.
proof fn lemma_partial_list_run(acc: Seq<ValueView>, len: u32, cbs: Seq<CallbackView>)
    requires
        acc.len() + cbs.len() == len,
        acc.len() < len,
        forall|i: int| 0 <= i < cbs.len() ==> scalar_value_of(#[trigger] cbs[i]) is Some,
    ensures
        run_callbacks(ReaderStateView::PartialList(acc, len), cbs).error is None,
        run_callbacks(ReaderStateView::PartialList(acc, len), cbs).state is Empty,
        run_callbacks(ReaderStateView::PartialList(acc, len), cbs).events =~~= seq![
            EventView::Value(ValueView::List(acc + scalar_values_of(cbs))),
        ],
    decreases cbs.len(),
{
    reveal_with_fuel(run_callbacks, 3);
    let cb = cbs[0];
    let v = scalar_value_of(cb)->0;
    let (s2, out) = reader_transition(ReaderStateView::PartialList(acc, len), cb);
    assert(out == value_step(ReaderStateView::PartialList(acc, len), v).1);
    if acc.len() + 1 == len {
        assert(cbs.drop_first().len() == 0);
        assert(acc.push(v) =~= acc + scalar_values_of(cbs));
    } else {
        lemma_partial_list_run(acc.push(v), len, cbs.drop_first());
        assert(acc.push(v) + scalar_values_of(cbs.drop_first()) =~= acc + scalar_values_of(cbs));
    }
}

/// Attribute reconstruction: a low-level attribute callback immediately
/// followed by a scalar-value callback yields exactly one event, the
/// attribute gluing the held name to the value — never two separate
/// events — and leaves the machine empty.
pub proof fn lemma_attribute_reconstruction(name: NameView, cb: CallbackView)
    requires
        scalar_value_of(cb) is Some,
    ensures
        run_callbacks(ReaderStateView::Empty, seq![CallbackView::Attribute(name), cb]).error
            is None,
        run_callbacks(ReaderStateView::Empty, seq![CallbackView::Attribute(name), cb]).state
            is Empty,
        run_callbacks(ReaderStateView::Empty, seq![CallbackView::Attribute(name), cb]).events
            =~~= seq![
            EventView::Attribute(AttributeView { key: name, value: scalar_value_of(cb)->0 }),
        ],
{
    reveal_with_fuel(run_callbacks, 4);
    let cbs = seq![CallbackView::Attribute(name), cb];
    assert(cbs.drop_first() =~= seq![cb]);
    assert(cbs.drop_first().drop_first() =~= Seq::<CallbackView>::empty());
}

/// List reconstruction: a list callback declaring `len` elements followed
/// by `len` scalar-value callbacks yields exactly one event, a single list
/// value holding those elements in order, and leaves the machine empty.
pub proof fn lemma_list_reconstruction(len: u32, cbs: Seq<CallbackView>)
    requires
        len > 0,
        cbs.len() == len,
        forall|i: int| 0 <= i < cbs.len() ==> scalar_value_of(#[trigger] cbs[i]) is Some,
    ensures
        run_callbacks(ReaderStateView::Empty, seq![CallbackView::List(len)] + cbs).error is None,
        run_callbacks(ReaderStateView::Empty, seq![CallbackView::List(len)] + cbs).state is Empty,
        run_callbacks(ReaderStateView::Empty, seq![CallbackView::List(len)] + cbs).events =~~= seq![
            EventView::Value(ValueView::List(scalar_values_of(cbs))),
        ],
{
    reveal_with_fuel(run_callbacks, 2);
    let all = seq![CallbackView::List(len)] + cbs;
    assert(all[0] == CallbackView::List(len));
    assert(all.drop_first() =~= cbs);
    lemma_partial_list_run(Seq::empty(), len, cbs);
    assert(Seq::<ValueView>::empty() + scalar_values_of(cbs) =~= scalar_values_of(cbs));
}

} // verus!
