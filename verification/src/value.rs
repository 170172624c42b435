//! The dynamic value model: a closed tagged union over seven shapes, with
//! total conversion into it, checked coercion out of it, a total rendering
//! into text, and a heuristic, order-sensitive parser from free text.

use vstd::prelude::*;

use crate::datatype::DataType;
use crate::error::{Error, INVALID_TYPE};
use crate::text::{
    contains_char, contains_sub, parse_bool, parse_i64, remove_char, render_i64, render_u64,
    spec_contains_char, spec_contains_sub, spec_dec_int, spec_dec_nat, spec_parse_i64,
    spec_remove_char, str_eq,
};

verus! {

/// A byte-sequence value, kept apart from arrays of integers.
#[derive(Debug, PartialEq, Eq)]
pub struct Bytes(pub Vec<u8>);

/// A runtime value: exactly one variant is active at a time.
///
/// A `Number` holds the decimal rendering of a 64-bit float, as the standard
/// formatting of that float gives it; that text form is what every consumer
/// of a number in this library reads and writes.
#[derive(Debug, PartialEq, Eq)]
pub enum Value {
    String(String),
    Integer(i64),
    Number(String),
    Boolean(bool),
    Bytes(Bytes),
    Array(Vec<Value>),
    Nil,
}

/// The mathematical shape of a value: the same seven variants over
/// mathematical sequences.
pub enum ValueView {
    String(Seq<char>),
    Integer(i64),
    Number(Seq<char>),
    Boolean(bool),
    Bytes(Seq<u8>),
    Array(Seq<ValueView>),
    Nil,
}

/// The shape of a value.
pub open spec fn view_of(v: Value) -> ValueView
    decreases v,
{
    match v {
        Value::String(s) => ValueView::String(s@),
        Value::Integer(i) => ValueView::Integer(i),
        Value::Number(t) => ValueView::Number(t@),
        Value::Boolean(b) => ValueView::Boolean(b),
        Value::Bytes(b) => ValueView::Bytes(b.0@),
        Value::Array(a) => ValueView::Array(views_of(a@)),
        Value::Nil => ValueView::Nil,
    }
}

/// The shapes of the values of a sequence, element by element.
pub open spec fn views_of(a: Seq<Value>) -> Seq<ValueView>
    decreases a,
{
    if a.len() == 0 {
        Seq::empty()
    } else {
        views_of(a.drop_last()).push(view_of(a.last()))
    }
}

/// Taking the shapes of a sequence of values keeps its length and works
/// element by element.
pub proof fn lemma_views_of_index(a: Seq<Value>)
    ensures
        views_of(a).len() == a.len(),
        forall|i: int| 0 <= i < a.len() ==> views_of(a)[i] == view_of(#[trigger] a[i]),
    decreases a.len(),
{
    if a.len() > 0 {
        lemma_views_of_index(a.drop_last());
        assert forall|i: int| 0 <= i < a.len() implies views_of(a)[i] == view_of(a[i]) by {
            if i < a.len() - 1 {
                assert(a.drop_last()[i] == a[i]);
            } else {
                assert(a.last() == a[i]);
            }
        }
    }
}

impl View for Value {
    type V = ValueView;

    open spec fn view(&self) -> ValueView {
        view_of(*self)
    }
}

impl Clone for Bytes {
    fn clone(&self) -> (res: Bytes)
        ensures
            res.0@ == self.0@,
    {
        let mut out: Vec<u8> = Vec::new();
        let n = self.0.len();
        for i in 0..n
            invariant
                n == self.0.len(),
                out@ == self.0@.take(i as int),
        {
            out.push(self.0[i]);
            proof {
                assert(out@ =~= self.0@.take(i + 1));
            }
        }
        proof {
            assert(out@ =~= self.0@);
        }
        Bytes(out)
    }
}

impl Clone for Value {
    #[verifier::loop_isolation(false)]
    fn clone(&self) -> (res: Value)
        ensures
            res@ == self@,
        decreases *self,
    {
        match self {
            Value::String(s) => Value::String(s.clone()),
            Value::Integer(i) => Value::Integer(*i),
            Value::Number(t) => Value::Number(t.clone()),
            Value::Boolean(b) => Value::Boolean(*b),
            Value::Bytes(b) => Value::Bytes(b.clone()),
            Value::Array(a) => {
                let mut out: Vec<Value> = Vec::new();
                let n = a.len();
                for i in 0..n
                    invariant
                        n == a.len(),
                        out@.len() == i,
                        forall|j: int| 0 <= j < i ==> #[trigger] out@[j]@ == a@[j]@,
                    decreases n - i,
                {
                    proof {
                        assert(decreases_to!(*self => *a));
                        assert(decreases_to!(*a => a@));
                        assert(decreases_to!(a@ => a@[i as int]));
                    }
                    out.push(a[i].clone());
                }
                proof {
                    lemma_views_of_index(out@);
                    lemma_views_of_index(a@);
                    assert forall|j: int| 0 <= j < a@.len() implies views_of(out@)[j] == views_of(
                        a@,
                    )[j] by {
                        assert(out@[j]@ == a@[j]@);
                    }
                    assert(views_of(out@) =~= views_of(a@));
                }
                Value::Array(out)
            },
            Value::Nil => Value::Nil,
        }
    }
}

/// The type discriminant that a value shape carries.
pub open spec fn spec_type_of(v: ValueView) -> DataType {
    match v {
        ValueView::String(_) => DataType::String,
        ValueView::Integer(_) => DataType::Integer,
        ValueView::Number(_) => DataType::Number,
        ValueView::Boolean(_) => DataType::Boolean,
        ValueView::Bytes(_) => DataType::Bytes,
        ValueView::Array(_) => DataType::Array,
        ValueView::Nil => DataType::Nil,
    }
}

/// A character of text under the debug rendering: quote and backslash are
/// escaped, the common control characters take their two-character form.
pub open spec fn spec_escape_char(c: char) -> Seq<char> {
    if c == '"' {
        seq!['\\', '"']
    } else if c == '\\' {
        seq!['\\', '\\']
    } else if c == '\n' {
        seq!['\\', 'n']
    } else if c == '\r' {
        seq!['\\', 'r']
    } else if c == '\t' {
        seq!['\\', 't']
    } else {
        seq![c]
    }
}

pub open spec fn spec_escape(s: Seq<char>) -> Seq<char>
    decreases s.len(),
{
    if s.len() == 0 {
        Seq::empty()
    } else {
        spec_escape(s.drop_last()) + spec_escape_char(s.last())
    }
}

/// The comma-separated decimal renderings of a byte sequence.
pub open spec fn spec_u8_list(b: Seq<u8>) -> Seq<char>
    decreases b.len(),
{
    if b.len() == 0 {
        Seq::empty()
    } else if b.len() == 1 {
        spec_dec_nat(b[0] as nat)
    } else {
        spec_u8_list(b.drop_last()) + ", "@ + spec_dec_nat(b.last() as nat)
    }
}

/// The debug rendering of a value shape: the variant name around its
/// payload.
pub open spec fn spec_debug_of(v: ValueView) -> Seq<char>
    decreases v,
{
    match v {
        ValueView::String(s) => "String(\""@ + spec_escape(s) + "\")"@,
        ValueView::Integer(i) => "Integer("@ + spec_dec_int(i as int) + ")"@,
        ValueView::Number(t) => "Number("@ + t + ")"@,
        ValueView::Boolean(b) => if b {
            "Boolean(true)"@
        } else {
            "Boolean(false)"@
        },
        ValueView::Bytes(b) => "Bytes(["@ + spec_u8_list(b) + "])"@,
        ValueView::Array(a) => "Array("@ + "["@ + spec_items_text(a) + "]"@ + ")"@,
        ValueView::Nil => "Nil"@,
    }
}

/// The comma-separated debug renderings of the shapes of a sequence.
pub open spec fn spec_items_text(a: Seq<ValueView>) -> Seq<char>
    decreases a,
{
    if a.len() == 0 {
        Seq::empty()
    } else if a.len() == 1 {
        spec_debug_of(a[0])
    } else {
        spec_items_text(a.drop_last()) + ", "@ + spec_debug_of(a.last())
    }
}

pub open spec fn spec_bracket_list(a: Seq<ValueView>) -> Seq<char> {
    "["@ + spec_items_text(a) + "]"@
}

/// The text form of a value, the string sink of the coercions: strings stand
/// bare, scalars take their canonical text, composites their debug form.
pub open spec fn spec_string_of(v: ValueView) -> Seq<char> {
    match v {
        ValueView::String(s) => s,
        ValueView::Integer(i) => spec_dec_int(i as int),
        ValueView::Number(t) => t,
        ValueView::Boolean(b) => if b {
            "true"@
        } else {
            "false"@
        },
        ValueView::Bytes(b) => "Bytes(["@ + spec_u8_list(b) + "])"@,
        ValueView::Array(a) => spec_bracket_list(a),
        ValueView::Nil => "Nil"@,
    }
}

fn render_u8_items(b: &Vec<u8>) -> (r: String)
    ensures
        r@ == spec_u8_list(b@),
{
    let mut out = String::new();
    let n = b.len();
    for i in 0..n
        invariant
            n == b@.len(),
            out@ == spec_u8_list(b@.take(i as int)),
    {
        proof {
            assert(b@.take(i + 1).drop_last() =~= b@.take(i as int));
            assert(b@.take(i + 1).last() == b@[i as int]);
        }
        if i > 0 {
            out.append(", ");
        }
        out.append(render_u64(b[i] as u64).as_str());
        proof {
            assert(out@ =~= spec_u8_list(b@.take(i + 1)));
        }
    }
    proof {
        assert(b@.take(n as int) =~= b@);
    }
    out
}

pub(crate) fn escape_text(s: &str) -> (r: String)
    ensures
        r@ == spec_escape(s@),
{
    let mut out = String::new();
    let n = s.unicode_len();
    for i in 0..n
        invariant
            n == s@.len(),
            out@ == spec_escape(s@.take(i as int)),
    {
        proof {
            reveal_strlit("\\\"");
            reveal_strlit("\\\\");
            reveal_strlit("\\n");
            reveal_strlit("\\r");
            reveal_strlit("\\t");
            assert(s@.take(i + 1).drop_last() =~= s@.take(i as int));
            assert(s@.take(i + 1).last() == s@[i as int]);
        }
        let c = s.get_char(i);
        if c == '"' {
            out.append("\\\"");
        } else if c == '\\' {
            out.append("\\\\");
        } else if c == '\n' {
            out.append("\\n");
        } else if c == '\r' {
            out.append("\\r");
        } else if c == '\t' {
            out.append("\\t");
        } else {
            out.append(s.substring_char(i, i + 1));
            proof {
                assert(s@.subrange(i as int, i + 1) =~= seq![s@[i as int]]);
            }
        }
        proof {
            assert(out@ =~= spec_escape(s@.take(i + 1)));
        }
    }
    proof {
        assert(s@.take(n as int) =~= s@);
    }
    out
}

#[verifier::loop_isolation(false)]
fn bracket_list_of(a: &Vec<Value>) -> (r: String)
    ensures
        r@ == spec_bracket_list(views_of(a@)),
    decreases a@,
{
    let mut out = String::new();
    out.append("[");
    let n = a.len();
    let ghost av = views_of(a@);
    for i in 0..n
        invariant
            n == a@.len(),
            av == views_of(a@),
            out@ == "["@ + spec_items_text(av.take(i as int)),
        decreases n - i,
    {
        proof {
            lemma_views_of_index(a@);
            assert(av.take(i + 1).drop_last() =~= av.take(i as int));
            assert(av.take(i + 1).last() == av[i as int]);
            assert(decreases_to!(a@ => a@[i as int]));
        }
        if i > 0 {
            out.append(", ");
        }
        out.append(a[i].debug_text().as_str());
        proof {
            assert(out@ =~= "["@ + spec_items_text(av.take(i + 1)));
        }
    }
    out.append("]");
    proof {
        lemma_views_of_index(a@);
        assert(av.take(n as int) =~= av);
        assert(out@ =~= spec_bracket_list(views_of(a@)));
    }
    out
}

impl Value {
    /// The type discriminant of this value; total and pure.
    pub fn get_type(&self) -> (t: DataType)
        ensures
            t == spec_type_of(self@),
    {
        match self {
            Value::String(_) => DataType::String,
            Value::Integer(_) => DataType::Integer,
            Value::Number(_) => DataType::Number,
            Value::Boolean(_) => DataType::Boolean,
            Value::Bytes(_) => DataType::Bytes,
            Value::Array(_) => DataType::Array,
            Value::Nil => DataType::Nil,
        }
    }

    pub fn is_nil(&self) -> (r: bool)
        ensures
            r == (self@ matches ValueView::Nil),
    {
        match self {
            Value::Nil => true,
            _ => false,
        }
    }

    /// The debug rendering of this value: variant name around the payload.
    pub fn debug_text(&self) -> (r: String)
        ensures
            r@ == spec_debug_of(self@),
        decreases *self,
    {
        match self {
            Value::String(s) => {
                let mut out = String::new();
                out.append("String(\"");
                out.append(escape_text(s.as_str()).as_str());
                out.append("\")");
                proof {
                    assert(out@ =~= spec_debug_of(self@));
                }
                out
            },
            Value::Integer(i) => {
                let mut out = String::new();
                out.append("Integer(");
                out.append(render_i64(*i).as_str());
                out.append(")");
                proof {
                    assert(out@ =~= spec_debug_of(self@));
                }
                out
            },
            Value::Number(t) => {
                let mut out = String::new();
                out.append("Number(");
                out.append(t.as_str());
                out.append(")");
                proof {
                    assert(out@ =~= spec_debug_of(self@));
                }
                out
            },
            Value::Boolean(b) => {
                if *b {
                    "Boolean(true)".to_owned()
                } else {
                    "Boolean(false)".to_owned()
                }
            },
            Value::Bytes(b) => {
                let mut out = String::new();
                out.append("Bytes([");
                out.append(render_u8_items(&b.0).as_str());
                out.append("])");
                proof {
                    assert(out@ =~= spec_debug_of(self@));
                }
                out
            },
            Value::Array(a) => {
                proof {
                    assert(decreases_to!(*self => *a));
                    assert(decreases_to!(*a => a@));
                }
                let mut out = String::new();
                out.append("Array(");
                out.append(bracket_list_of(a).as_str());
                out.append(")");
                proof {
                    assert(out@ =~= spec_debug_of(self@));
                }
                out
            },
            Value::Nil => "Nil".to_owned(),
        }
    }

    /// The total text form of this value, the library's string sink.
    pub fn to_text(&self) -> (r: String)
        ensures
            r@ == spec_string_of(self@),
    {
        match self {
            Value::String(s) => s.clone(),
            Value::Integer(i) => render_i64(*i),
            Value::Number(t) => t.clone(),
            Value::Boolean(b) => {
                if *b {
                    "true".to_owned()
                } else {
                    "false".to_owned()
                }
            },
            Value::Bytes(b) => {
                let mut out = String::new();
                out.append("Bytes([");
                out.append(render_u8_items(&b.0).as_str());
                out.append("])");
                proof {
                    assert(out@ =~= spec_string_of(self@));
                }
                out
            },
            Value::Array(a) => {
                proof {
                    assert(decreases_to!(*self => *a));
                }
                bracket_list_of(a)
            },
            Value::Nil => "Nil".to_owned(),
        }
    }
}

/// The 64-bit integer a value shape coerces into.
pub open spec fn spec_i64_of(v: ValueView) -> Option<i64> {
    match v {
        ValueView::Integer(i) => Some(i),
        _ => None,
    }
}

/// The 32-bit integer a value shape coerces into: an integer in range.
pub open spec fn spec_i32_of(v: ValueView) -> Option<i32> {
    match v {
        ValueView::Integer(i) => if -0x8000_0000 <= i <= 0x7FFF_FFFF {
            Some(i as i32)
        } else {
            None
        },
        _ => None,
    }
}

pub open spec fn spec_i16_of(v: ValueView) -> Option<i16> {
    match v {
        ValueView::Integer(i) => if -0x8000 <= i <= 0x7FFF {
            Some(i as i16)
        } else {
            None
        },
        _ => None,
    }
}

pub open spec fn spec_i8_of(v: ValueView) -> Option<i8> {
    match v {
        ValueView::Integer(i) => if -0x80 <= i <= 0x7F {
            Some(i as i8)
        } else {
            None
        },
        _ => None,
    }
}

pub open spec fn spec_u32_of(v: ValueView) -> Option<u32> {
    match v {
        ValueView::Integer(i) => if 0 <= i <= 0xFFFF_FFFF {
            Some(i as u32)
        } else {
            None
        },
        _ => None,
    }
}

pub open spec fn spec_u16_of(v: ValueView) -> Option<u16> {
    match v {
        ValueView::Integer(i) => if 0 <= i <= 0xFFFF {
            Some(i as u16)
        } else {
            None
        },
        _ => None,
    }
}

pub open spec fn spec_u8_of(v: ValueView) -> Option<u8> {
    match v {
        ValueView::Integer(i) => if 0 <= i <= 0xFF {
            Some(i as u8)
        } else {
            None
        },
        _ => None,
    }
}

pub open spec fn spec_bool_of(v: ValueView) -> Option<bool> {
    match v {
        ValueView::Boolean(b) => Some(b),
        _ => None,
    }
}

pub open spec fn spec_bytes_of(v: ValueView) -> Option<Seq<u8>> {
    match v {
        ValueView::Bytes(b) => Some(b),
        _ => None,
    }
}

pub open spec fn spec_values_of(v: ValueView) -> Option<Seq<ValueView>> {
    match v {
        ValueView::Array(a) => Some(a),
        _ => None,
    }
}

/// The message of a failed coercion: the wanted native type's name and the
/// debug rendering of the value that stood there.
pub open spec fn spec_invalid_msg(ty: Seq<char>, v: ValueView) -> Seq<char> {
    "failed to parse "@ + ty + " for "@ + spec_debug_of(v)
}

fn invalid_type_err(ty: &str, v: &Value) -> (e: Error)
    ensures
        e.spec_code() == INVALID_TYPE,
        e.spec_msg() == spec_invalid_msg(ty@, v@),
{
    let mut msg = String::new();
    msg.append("failed to parse ");
    msg.append(ty);
    msg.append(" for ");
    msg.append(v.debug_text().as_str());
    proof {
        assert(msg@ =~= spec_invalid_msg(ty@, v@));
    }
    Error::new(INVALID_TYPE, msg.as_str())
}

impl Value {
    pub fn from_i64(val: i64) -> (v: Value)
        ensures
            v@ == ValueView::Integer(val),
    {
        Value::Integer(val)
    }

    pub fn from_i32(val: i32) -> (v: Value)
        ensures
            v@ == ValueView::Integer(val as i64),
    {
        Value::Integer(val as i64)
    }

    pub fn from_i16(val: i16) -> (v: Value)
        ensures
            v@ == ValueView::Integer(val as i64),
    {
        Value::Integer(val as i64)
    }

    pub fn from_i8(val: i8) -> (v: Value)
        ensures
            v@ == ValueView::Integer(val as i64),
    {
        Value::Integer(val as i64)
    }

    pub fn from_u32(val: u32) -> (v: Value)
        ensures
            v@ == ValueView::Integer(val as i64),
    {
        Value::Integer(val as i64)
    }

    pub fn from_u16(val: u16) -> (v: Value)
        ensures
            v@ == ValueView::Integer(val as i64),
    {
        Value::Integer(val as i64)
    }

    pub fn from_u8(val: u8) -> (v: Value)
        ensures
            v@ == ValueView::Integer(val as i64),
    {
        Value::Integer(val as i64)
    }

    pub fn from_bool(val: bool) -> (v: Value)
        ensures
            v@ == ValueView::Boolean(val),
    {
        Value::Boolean(val)
    }

    pub fn from_text(val: &str) -> (v: Value)
        ensures
            v@ == ValueView::String(val@),
    {
        Value::String(val.to_owned())
    }

    pub fn from_string(val: String) -> (v: Value)
        ensures
            v@ == ValueView::String(val@),
    {
        Value::String(val)
    }

    pub fn from_bytes(val: Bytes) -> (v: Value)
        ensures
            v@ == ValueView::Bytes(val.0@),
    {
        Value::Bytes(val)
    }

    /// The value that the unit, empty shape converts into.
    pub fn nil() -> (v: Value)
        ensures
            v@ == ValueView::Nil,
    {
        Value::Nil
    }

    pub fn from_values(vals: Vec<Value>) -> (v: Value)
        ensures
            v@ == ValueView::Array(views_of(vals@)),
    {
        Value::Array(vals)
    }

    /// An array value over a sequence of 32-bit integers, each converted.
    pub fn from_i32_values(vals: Vec<i32>) -> (v: Value)
        ensures
            v@ matches ValueView::Array(a) && a.len() == vals@.len() && forall|i: int|
                0 <= i < vals@.len() ==> a[i] == ValueView::Integer(#[trigger] vals@[i] as i64),
    {
        let mut out: Vec<Value> = Vec::new();
        let n = vals.len();
        for i in 0..n
            invariant
                n == vals@.len(),
                out@.len() == i,
                forall|j: int|
                    0 <= j < i ==> #[trigger] out@[j]@ == ValueView::Integer(vals@[j] as i64),
        {
            out.push(Value::Integer(vals[i] as i64));
        }
        proof {
            lemma_views_of_index(out@);
            assert forall|i: int|
                0 <= i < vals@.len() implies views_of(out@)[i] == ValueView::Integer(
                #[trigger] vals@[i] as i64,
            ) by {
                assert(out@[i]@ == ValueView::Integer(vals@[i] as i64));
            }
        }
        Value::Array(out)
    }

    /// An array value over a byte sequence: each byte becomes an integer,
    /// as the element-wise conversion of a plain sequence has it; a byte
    /// sequence meant as one opaque blob takes the `Bytes` shape instead.
    pub fn from_u8_values(vals: Vec<u8>) -> (v: Value)
        ensures
            v@ matches ValueView::Array(a) && a.len() == vals@.len() && forall|i: int|
                0 <= i < vals@.len() ==> a[i] == ValueView::Integer(#[trigger] vals@[i] as i64),
    {
        let mut out: Vec<Value> = Vec::new();
        let n = vals.len();
        for i in 0..n
            invariant
                n == vals@.len(),
                out@.len() == i,
                forall|j: int|
                    0 <= j < i ==> #[trigger] out@[j]@ == ValueView::Integer(vals@[j] as i64),
        {
            out.push(Value::Integer(vals[i] as i64));
        }
        proof {
            lemma_views_of_index(out@);
            assert forall|i: int|
                0 <= i < vals@.len() implies views_of(out@)[i] == ValueView::Integer(
                #[trigger] vals@[i] as i64,
            ) by {
                assert(out@[i]@ == ValueView::Integer(vals@[i] as i64));
            }
        }
        Value::Array(out)
    }

    /// Coerces into a 64-bit integer; anything but an integer is an
    /// invalid-type error naming the wanted type and the value.
    pub fn try_into_i64(self) -> (r: Result<i64, Error>)
        ensures
            spec_i64_of(self@) matches Some(x) ==> r == Ok::<i64, Error>(x),
            spec_i64_of(self@) is None ==> (r matches Err(e) && e.spec_code() == INVALID_TYPE
                && e.spec_msg() == spec_invalid_msg("i64"@, self@)),
    {
        match self {
            Value::Integer(i) => Ok(i),
            v => Err(invalid_type_err("i64", &v)),
        }
    }

    /// Coerces into a 32-bit integer; an integer out of its range is an
    /// invalid-type error, never a silent wrap.
    pub fn try_into_i32(self) -> (r: Result<i32, Error>)
        ensures
            spec_i32_of(self@) matches Some(x) ==> r == Ok::<i32, Error>(x),
            spec_i32_of(self@) is None ==> (r matches Err(e) && e.spec_code() == INVALID_TYPE
                && e.spec_msg() == spec_invalid_msg("i32"@, self@)),
    {
        match self {
            Value::Integer(i) => {
                if -0x8000_0000i64 <= i && i <= 0x7FFF_FFFFi64 {
                    Ok(i as i32)
                } else {
                    Err(invalid_type_err("i32", &Value::Integer(i)))
                }
            },
            v => Err(invalid_type_err("i32", &v)),
        }
    }

    pub fn try_into_i16(self) -> (r: Result<i16, Error>)
        ensures
            spec_i16_of(self@) matches Some(x) ==> r == Ok::<i16, Error>(x),
            spec_i16_of(self@) is None ==> (r matches Err(e) && e.spec_code() == INVALID_TYPE
                && e.spec_msg() == spec_invalid_msg("i16"@, self@)),
    {
        match self {
            Value::Integer(i) => {
                if -0x8000i64 <= i && i <= 0x7FFFi64 {
                    Ok(i as i16)
                } else {
                    Err(invalid_type_err("i16", &Value::Integer(i)))
                }
            },
            v => Err(invalid_type_err("i16", &v)),
        }
    }

    pub fn try_into_i8(self) -> (r: Result<i8, Error>)
        ensures
            spec_i8_of(self@) matches Some(x) ==> r == Ok::<i8, Error>(x),
            spec_i8_of(self@) is None ==> (r matches Err(e) && e.spec_code() == INVALID_TYPE
                && e.spec_msg() == spec_invalid_msg("i8"@, self@)),
    {
        match self {
            Value::Integer(i) => {
                if -0x80i64 <= i && i <= 0x7Fi64 {
                    Ok(i as i8)
                } else {
                    Err(invalid_type_err("i8", &Value::Integer(i)))
                }
            },
            v => Err(invalid_type_err("i8", &v)),
        }
    }

    pub fn try_into_u32(self) -> (r: Result<u32, Error>)
        ensures
            spec_u32_of(self@) matches Some(x) ==> r == Ok::<u32, Error>(x),
            spec_u32_of(self@) is None ==> (r matches Err(e) && e.spec_code() == INVALID_TYPE
                && e.spec_msg() == spec_invalid_msg("u32"@, self@)),
    {
        match self {
            Value::Integer(i) => {
                if 0i64 <= i && i <= 0xFFFF_FFFFi64 {
                    Ok(i as u32)
                } else {
                    Err(invalid_type_err("u32", &Value::Integer(i)))
                }
            },
            v => Err(invalid_type_err("u32", &v)),
        }
    }

    pub fn try_into_u16(self) -> (r: Result<u16, Error>)
        ensures
            spec_u16_of(self@) matches Some(x) ==> r == Ok::<u16, Error>(x),
            spec_u16_of(self@) is None ==> (r matches Err(e) && e.spec_code() == INVALID_TYPE
                && e.spec_msg() == spec_invalid_msg("u16"@, self@)),
    {
        match self {
            Value::Integer(i) => {
                if 0i64 <= i && i <= 0xFFFFi64 {
                    Ok(i as u16)
                } else {
                    Err(invalid_type_err("u16", &Value::Integer(i)))
                }
            },
            v => Err(invalid_type_err("u16", &v)),
        }
    }

    pub fn try_into_u8(self) -> (r: Result<u8, Error>)
        ensures
            spec_u8_of(self@) matches Some(x) ==> r == Ok::<u8, Error>(x),
            spec_u8_of(self@) is None ==> (r matches Err(e) && e.spec_code() == INVALID_TYPE
                && e.spec_msg() == spec_invalid_msg("u8"@, self@)),
    {
        match self {
            Value::Integer(i) => {
                if 0i64 <= i && i <= 0xFFi64 {
                    Ok(i as u8)
                } else {
                    Err(invalid_type_err("u8", &Value::Integer(i)))
                }
            },
            v => Err(invalid_type_err("u8", &v)),
        }
    }

    pub fn try_into_bool(self) -> (r: Result<bool, Error>)
        ensures
            spec_bool_of(self@) matches Some(x) ==> r == Ok::<bool, Error>(x),
            spec_bool_of(self@) is None ==> (r matches Err(e) && e.spec_code() == INVALID_TYPE
                && e.spec_msg() == spec_invalid_msg("bool"@, self@)),
    {
        match self {
            Value::Boolean(b) => Ok(b),
            v => Err(invalid_type_err("bool", &v)),
        }
    }

    pub fn try_into_bytes(self) -> (r: Result<Bytes, Error>)
        ensures
            spec_bytes_of(self@) matches Some(bs) ==> (r matches Ok(b) && b.0@ == bs),
            spec_bytes_of(self@) is None ==> (r matches Err(e) && e.spec_code() == INVALID_TYPE
                && e.spec_msg() == spec_invalid_msg("bytes"@, self@)),
    {
        match self {
            Value::Bytes(b) => Ok(b),
            v => Err(invalid_type_err("bytes", &v)),
        }
    }

    /// Coerces into text; this never fails, whatever the variant: the
    /// string sink is total.
    pub fn try_into_string(self) -> (r: Result<String, Error>)
        ensures
            r matches Ok(t) && t@ == spec_string_of(self@),
    {
        let t = self.to_text();
        Ok(t)
    }

    /// Coerces into the values of an array; anything but an array is an
    /// invalid-type error.
    pub fn try_into_values(self) -> (r: Result<Vec<Value>, Error>)
        ensures
            spec_values_of(self@) matches Some(a) ==> (r matches Ok(xs) && views_of(xs@) == a),
            spec_values_of(self@) is None ==> (r matches Err(e) && e.spec_code() == INVALID_TYPE
                && e.spec_msg() == spec_invalid_msg("array"@, self@)),
    {
        match self {
            Value::Array(a) => Ok(a),
            v => Err(invalid_type_err("array", &v)),
        }
    }

    /// Coerces an array element-wise into 64-bit integers; the first
    /// element that is not an integer fails the whole coercion with its own
    /// invalid-type error, and the partial result is discarded.
    #[verifier::loop_isolation(false)]
    pub fn try_into_i64_values(self) -> (r: Result<Vec<i64>, Error>)
        ensures
            spec_values_of(self@) matches Some(a) ==> match r {
                Ok(xs) => xs@.len() == a.len() && (forall|i: int|
                    0 <= i < a.len() ==> spec_i64_of(#[trigger] a[i]) == Some(xs@[i])),
                Err(e) => exists|j: int|
                    0 <= j < a.len() && (forall|i: int| 0 <= i < j ==> spec_i64_of(#[trigger] a[i]) is Some)
                        && spec_i64_of(#[trigger] a[j]) is None && e.spec_code() == INVALID_TYPE
                        && e.spec_msg() == spec_invalid_msg("i64"@, a[j]),
            },
            spec_values_of(self@) is None ==> (r matches Err(e) && e.spec_code() == INVALID_TYPE
                && e.spec_msg() == spec_invalid_msg("array"@, self@)),
    {
        let a = match self {
            Value::Array(a) => a,
            v => {
                return Err(invalid_type_err("array", &v));
            },
        };
        let ghost av = views_of(a@);
        proof {
            lemma_views_of_index(a@);
        }
        let mut out: Vec<i64> = Vec::new();
        let n = a.len();
        for i in 0..n
            invariant
                out@.len() == i,
                forall|j: int| 0 <= j < i ==> spec_i64_of(#[trigger] av[j]) == Some(out@[j]),
        {
            match &a[i] {
                Value::Integer(x) => {
                    out.push(*x);
                },
                _ => {
                    return Err(invalid_type_err("i64", &a[i]));
                },
            }
        }
        Ok(out)
    }
}

/// What the float stage of the parser gives for a text: the decimal
/// rendering of the 64-bit float that the text denotes, when it denotes
/// one.
pub uninterp spec fn spec_float_text(s: Seq<char>) -> Option<Seq<char>>;

/// Relies on serde_json's number parsing and the standard float formatting:
/// what comes back depends on the characters of the text alone.
#[verifier::external_body]
fn float_text(s: &str) -> (r: Option<String>)
    ensures
        (r is Some) == (spec_float_text(s@) is Some),
        r matches Some(t) ==> spec_float_text(s@) == Some(t@),
{
    s.parse::<serde_json::Number>().ok().and_then(|n| n.as_f64()).map(|v| v.to_string())
}

/// What parsing free text gives, stage by stage in a fixed order: a quote
/// makes a string with the quotes stripped; then a text containing `true`
/// or `false` is tried as a boolean; then a text containing a dot as a
/// number; then the five exact null spellings give the empty value; then an
/// integer; a stage whose exact parse fails falls back to a string holding
/// the text unchanged.
pub open spec fn spec_parse_value(s: Seq<char>) -> ValueView {
    if spec_contains_char(s, '\'') {
        ValueView::String(spec_remove_char(s, '\''))
    } else if spec_contains_sub(s, "false"@) || spec_contains_sub(s, "true"@) {
        if s == "true"@ {
            ValueView::Boolean(true)
        } else if s == "false"@ {
            ValueView::Boolean(false)
        } else {
            ValueView::String(s)
        }
    } else if spec_contains_char(s, '.') {
        match spec_float_text(s) {
            Some(t) => ValueView::Number(t),
            None => ValueView::String(s),
        }
    } else if s == "null"@ || s == "NULL"@ || s == "Null"@ || s == "nil"@ || s == "Nil"@ {
        ValueView::Nil
    } else {
        match spec_parse_i64(s) {
            Some(i) => ValueView::Integer(i),
            None => ValueView::String(s),
        }
    }
}

/// Parses a value from free text; the precedence of the stages is fixed and
/// order-sensitive, so a text such as `10.0` is a number, never an integer.
pub fn parse_value(s: &str) -> (v: Value)
    ensures
        v@ == spec_parse_value(s@),
{
    if contains_char(s, '\'') {
        return Value::String(remove_char(s, '\''));
    }
    if contains_sub(s, "false") || contains_sub(s, "true") {
        return match parse_bool(s) {
            Some(b) => Value::Boolean(b),
            None => Value::String(s.to_owned()),
        };
    }
    if contains_char(s, '.') {
        return match float_text(s) {
            Some(t) => Value::Number(t),
            None => Value::String(s.to_owned()),
        };
    }
    if str_eq(s, "null") || str_eq(s, "NULL") || str_eq(s, "Null") {
        return Value::Nil;
    }
    if str_eq(s, "nil") || str_eq(s, "Nil") {
        return Value::Nil;
    }
    match parse_i64(s) {
        Some(i) => Value::Integer(i),
        None => Value::String(s.to_owned()),
    }
}

/// Converting a native scalar into a value and coercing it back out gives
/// the scalar again, for every supported scalar shape; and a coercion
/// narrower than the stored 64-bit integer gives nothing outside its range,
/// never a silent wrap.
pub proof fn lemma_scalar_round_trip(
    x64: i64,
    x32: i32,
    x16: i16,
    x8: i8,
    y32: u32,
    y16: u16,
    y8: u8,
    b: bool,
    s: Seq<char>,
    bs: Seq<u8>,
    wide: i64,
)
    ensures
        spec_i64_of(ValueView::Integer(x64)) == Some(x64),
        spec_i32_of(ValueView::Integer(x32 as i64)) == Some(x32),
        spec_i16_of(ValueView::Integer(x16 as i64)) == Some(x16),
        spec_i8_of(ValueView::Integer(x8 as i64)) == Some(x8),
        spec_u32_of(ValueView::Integer(y32 as i64)) == Some(y32),
        spec_u16_of(ValueView::Integer(y16 as i64)) == Some(y16),
        spec_u8_of(ValueView::Integer(y8 as i64)) == Some(y8),
        spec_bool_of(ValueView::Boolean(b)) == Some(b),
        spec_string_of(ValueView::String(s)) == s,
        spec_bytes_of(ValueView::Bytes(bs)) == Some(bs),
        wide < 0 || wide > 0xFF ==> spec_u8_of(ValueView::Integer(wide)) is None,
{
}

} // verus!
