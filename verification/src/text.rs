//! Canonical text forms.
//!
//! The schema-less grammar only has string-typed content, so every value
//! must render to its EXI lexical form: integers and booleans as their
//! decimal and `true`/`false` spellings, binaries as base64, timestamps as
//! a calendar rendering, lists as the concatenation of their elements'
//! forms.  Floats are the one exception: their decimal rendering needs the
//! host's formatter and has no text form here (see `has_float`).

use vstd::prelude::*;

use base64::Engine;

use crate::data::binaries_fit;
use crate::data::has_float;
use crate::data::value_view;
use crate::data::values_view;
use crate::data::lemma_values_view;
use crate::data::NameView;
use crate::data::Value;
use crate::data::ValueView;
use crate::datetime::pow10;
use crate::datetime::pow10_u64;
use crate::datetime::DateTime;

verus! {

/// The spelling of a single decimal digit.
pub open spec fn digit_str(d: int) -> Seq<char> {
    if d == 0 {
        "0"@
    } else if d == 1 {
        "1"@
    } else if d == 2 {
        "2"@
    } else if d == 3 {
        "3"@
    } else if d == 4 {
        "4"@
    } else if d == 5 {
        "5"@
    } else if d == 6 {
        "6"@
    } else if d == 7 {
        "7"@
    } else if d == 8 {
        "8"@
    } else {
        "9"@
    }
}

/// The decimal spelling of a natural number, most significant digit first.
pub open spec fn dec_digits(n: nat) -> Seq<char>
    decreases n,
{
    if n < 10 {
        digit_str(n as int)
    } else {
        dec_digits(n / 10) + digit_str((n % 10) as int)
    }
}

/// The decimal spelling of an integer, with a leading minus sign when
/// negative.
pub open spec fn int_text(i: int) -> Seq<char> {
    if i >= 0 {
        dec_digits(i as nat)
    } else {
        "-"@ + dec_digits((-i) as nat)
    }
}

/// The spelling of a boolean.
pub open spec fn bool_text(b: bool) -> Seq<char> {
    if b {
        "true"@
    } else {
        "false"@
    }
}

/// The decimal spelling of `n` left-padded with zeros to at least `w`
/// characters.
pub open spec fn zero_pad(n: nat, w: nat) -> Seq<char>
    decreases w,
{
    if w <= 1 {
        dec_digits(n)
    } else if n < pow10((w - 1) as nat) {
        "0"@ + zero_pad(n, (w - 1) as nat)
    } else {
        dec_digits(n)
    }
}

/// The fractional-seconds suffix of a timestamp rendering: nothing for a
/// whole second, else a dot and the shortest of 3, 6, or 9 digits that
/// spells the fraction exactly.
pub open spec fn fraction_text(ns: nat) -> Seq<char> {
    if ns == 0 {
        Seq::<char>::empty()
    } else if ns % 1_000_000 == 0 {
        "."@ + zero_pad(ns / 1_000_000, 3)
    } else if ns % 1_000 == 0 {
        "."@ + zero_pad(ns / 1_000, 6)
    } else {
        "."@ + zero_pad(ns, 9)
    }
}

/// The calendar rendering of a timestamp: date, a space, the time, and the
/// fractional-seconds suffix.  The year is zero-padded to four digits and
/// carries a minus sign when negative.
pub open spec fn datetime_text(dt: DateTime) -> Seq<char> {
    (if dt.year >= 0 {
        zero_pad(dt.year as nat, 4)
    } else {
        "-"@ + zero_pad((-dt.year) as nat, 4)
    }) + "-"@ + zero_pad(dt.month as nat, 2) + "-"@ + zero_pad(dt.day as nat, 2) + " "@ + zero_pad(
        dt.hour as nat,
        2,
    ) + ":"@ + zero_pad(dt.minute as nat, 2) + ":"@ + zero_pad(dt.second as nat, 2)
        + fraction_text(dt.nanosecond as nat)
}

/// The rendering of a qualified-name value: optional prefix and colon, the
/// namespace, and the local name in quotes after an equals sign.
pub open spec fn qname_text(n: NameView) -> Seq<char> {
    (match n.prefix {
        Some(p) => p + ":"@,
        None => Seq::<char>::empty(),
    }) + n.namespace + "=\""@ + n.local_name + "\""@
}

/// What base64's standard engine returns for a byte sequence.
pub uninterp spec fn base64_of(b: Seq<u8>) -> Seq<char>;

/// Relies on base64's `STANDARD` engine (RFC 4648 alphabet, padded): the
/// output is a function of the input bytes alone, four characters for
/// every started three-byte group.
#[verifier::external_body]
fn base64_encode(b: &Vec<u8>) -> (r: String)
    requires
        b@.len() <= usize::MAX / 8,
    ensures
        r@ == base64_of(b@),
        r@.len() == ((b@.len() + 2) / 3) * 4,
{
    base64::engine::general_purpose::STANDARD.encode(b.as_slice())
}

/// The canonical text form of a value.  Unspecified wherever a float is
/// inside: the `Float` arm's result here is a placeholder that no
/// executable path produces, and the renderers are guarded by `has_float`.
pub open spec fn value_text(v: ValueView) -> Seq<char>
    decreases v,
{
    match v {
        ValueView::Integer(i) => int_text(i as int),
        ValueView::Boolean(b) => bool_text(b),
        ValueView::String(s) => s,
        ValueView::Float(_) => Seq::<char>::empty(),
        ValueView::Binary(b) => base64_of(b),
        ValueView::Timestamp(dt) => datetime_text(dt),
        ValueView::List(items) => list_text(items),
        ValueView::QName(n) => qname_text(n),
    }
}

/// The concatenation of the canonical forms of a sequence of values, with
/// no separator.
pub open spec fn list_text(s: Seq<ValueView>) -> Seq<char>
    decreases s,
{
    if s.len() == 0 {
        Seq::<char>::empty()
    } else {
        value_text(s[0]) + list_text(s.drop_first())
    }
}

/// Appending an element to a list appends its canonical form to the
/// list's.
pub proof fn lemma_list_text_snoc(s: Seq<ValueView>, x: ValueView)
    ensures
        list_text(s.push(x)) == list_text(s) + value_text(x),
    decreases s.len(),
{
    if s.len() == 0 {
        assert(s.push(x)[0] == x);
        assert(s.push(x).drop_first() =~= Seq::<ValueView>::empty());
        assert(list_text(Seq::<ValueView>::empty()) == Seq::<char>::empty());
        assert(list_text(s.push(x)) =~= list_text(s) + value_text(x));
    } else {
        assert(s.push(x)[0] == s[0]);
        assert(s.push(x).drop_first() =~= s.drop_first().push(x));
        lemma_list_text_snoc(s.drop_first(), x);
        assert(list_text(s.push(x)) =~= list_text(s) + value_text(x));
    }
}

/// Append one digit's spelling.
fn append_digit(s: &mut String, d: u64)
    requires
        d < 10,
    ensures
        final(s)@ == old(s)@ + digit_str(d as int),
{
    if d == 0 {
        s.append("0");
    } else if d == 1 {
        s.append("1");
    } else if d == 2 {
        s.append("2");
    } else if d == 3 {
        s.append("3");
    } else if d == 4 {
        s.append("4");
    } else if d == 5 {
        s.append("5");
    } else if d == 6 {
        s.append("6");
    } else if d == 7 {
        s.append("7");
    } else if d == 8 {
        s.append("8");
    } else {
        s.append("9");
    }
}

/// Append the decimal spelling of a natural number.
fn append_dec(s: &mut String, n: u64)
    ensures
        final(s)@ == old(s)@ + dec_digits(n as nat),
    decreases n,
{
    if n < 10 {
        append_digit(s, n);
    } else {
        append_dec(s, n / 10);
        append_digit(s, n % 10);
        proof {
            assert(s@ =~= old(s)@ + dec_digits(n as nat));
        }
    }
}

/// Append the decimal spelling of `n`, zero-padded to at least `w`
/// characters.
fn append_zero_pad(s: &mut String, n: u64, w: u8)
    requires
        w <= 9,
    ensures
        final(s)@ == old(s)@ + zero_pad(n as nat, w as nat),
    decreases w,
{
    if w > 1 && n < pow10_u64(w - 1) {
        s.append("0");
        append_zero_pad(s, n, w - 1);
        proof {
            assert(s@ =~= old(s)@ + zero_pad(n as nat, w as nat));
        }
    } else {
        append_dec(s, n);
    }
}

/// Append the decimal spelling of a signed integer.
fn append_int(s: &mut String, i: i64)
    ensures
        final(s)@ == old(s)@ + int_text(i as int),
{
    if i >= 0 {
        append_dec(s, i as u64);
    } else {
        s.append("-");
        let mag: u64 = (-(i as i128)) as u64;
        append_dec(s, mag);
        proof {
            assert(s@ =~= old(s)@ + int_text(i as int));
        }
    }
}

/// The decimal spelling of an integer.
pub fn int_to_string(i: i64) -> (r: String)
    ensures
        r@ == int_text(i as int),
{
    let mut s = String::new();
    append_int(&mut s, i);
    proof {
        assert(s@ =~= int_text(i as int));
    }
    s
}

/// Append the calendar rendering of a timestamp.
#[verifier::rlimit(60)]
fn append_datetime(s: &mut String, dt: &DateTime)
    ensures
        final(s)@ == old(s)@ + datetime_text(*dt),
{
    if dt.year >= 0 {
        append_zero_pad(s, dt.year as u64, 4);
    } else {
        s.append("-");
        let mag: u64 = (-(dt.year as i64)) as u64;
        append_zero_pad(s, mag, 4);
    }
    s.append("-");
    append_zero_pad(s, dt.month as u64, 2);
    s.append("-");
    append_zero_pad(s, dt.day as u64, 2);
    s.append(" ");
    append_zero_pad(s, dt.hour as u64, 2);
    s.append(":");
    append_zero_pad(s, dt.minute as u64, 2);
    s.append(":");
    append_zero_pad(s, dt.second as u64, 2);
    let ns: u64 = dt.nanosecond as u64;
    if ns == 0 {
    } else if ns % 1_000_000 == 0 {
        s.append(".");
        append_zero_pad(s, ns / 1_000_000, 3);
    } else if ns % 1_000 == 0 {
        s.append(".");
        append_zero_pad(s, ns / 1_000, 6);
    } else {
        s.append(".");
        append_zero_pad(s, ns, 9);
    }
    proof {
        assert(s@ =~= old(s)@ + datetime_text(*dt));
    }
}

impl Value {
    /// The canonical text form of this value: the string content the
    /// schema-less writer serializes it as.  Floats have no text form
    /// here; use `try_canonical_string` where a float may be inside.
    pub fn canonical_string(&self) -> (r: String)
        requires
            !has_float(self@),
            binaries_fit(self@),
        ensures
            r@ == value_text(self@),
        decreases *self,
    {
        match self {
            Value::Integer(i) => int_to_string(*i),
            Value::Boolean(b) => {
                if *b {
                    String::from_str("true")
                } else {
                    String::from_str("false")
                }
            },
            Value::String(st) => st.clone(),
            Value::Float(_) => {
                // Unreachable: the precondition excludes floats.
                proof {
                    assert(false);
                }
                String::new()
            },
            Value::Binary(b) => base64_encode(b),
            Value::Timestamp(dt) => {
                let mut s = String::new();
                append_datetime(&mut s, dt);
                proof {
                    assert(s@ =~= value_text(self@));
                }
                s
            },
            Value::List(items) => {
                let mut s = String::new();
                let mut i: usize = 0;
                #[verifier::loop_isolation(false)]
                while i < items.len()
                    invariant
                        i <= items.len(),
                        s@ == list_text(values_view(items@).subrange(0, i as int)),
                    decreases items.len() - i,
                {
                    proof {
                        assert(decreases_to!(*self => (*self)->List_0));
                        assert(decreases_to!(*items => items@[i as int]));
                        lemma_values_view(items@);
                        crate::data::lemma_any_float(values_view(items@));
                        crate::data::lemma_all_binaries_fit(values_view(items@));
                        assert(!has_float(values_view(items@)[i as int]));
                        assert(binaries_fit(values_view(items@)[i as int]));
                        assert(values_view(items@)[i as int] == value_view(items@[i as int]));
                    }
                    let piece = items[i].canonical_string();
                    s.append(piece.as_str());
                    proof {
                        let vs = values_view(items@);
                        assert(vs.subrange(0, i + 1 as int) =~= vs.subrange(0, i as int).push(
                            vs[i as int],
                        ));
                        lemma_list_text_snoc(vs.subrange(0, i as int), vs[i as int]);
                    }
                    i = i + 1;
                }
                proof {
                    lemma_values_view(items@);
                    assert(values_view(items@).subrange(0, items@.len() as int) =~= values_view(
                        items@,
                    ));
                }
                s
            },
            Value::QName(n) => {
                let mut s = String::new();
                match &n.prefix {
                    Some(p) => {
                        s.append(p.as_str());
                        s.append(":");
                    },
                    None => {},
                }
                s.append(n.namespace.as_str());
                s.append("=\"");
                s.append(n.local_name.as_str());
                s.append("\"");
                proof {
                    assert(s@ =~= qname_text(n@));
                }
                s
            },
        }
    }

    /// The canonical text form of this value, or `None` exactly when a
    /// float stands anywhere inside it or a binary payload exceeds the
    /// encoder's bound (the latter cannot happen for a value built at
    /// runtime).
    pub fn try_canonical_string(&self) -> (r: Option<String>)
        ensures
            r is Some <==> (!has_float(self@) && binaries_fit(self@)),
            r is Some ==> r->0@ == value_text(self@),
    {
        if self.contains_float() {
            None
        } else if !self.binaries_fit() {
            None
        } else {
            Some(self.canonical_string())
        }
    }
}

} // verus!
