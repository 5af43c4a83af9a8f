//! Scalar SQL values and their literal text.
use vstd::prelude::*;
use vstd::string::*;
use crate::text::{decimal, has_char, i64_text, remove_char, signed_decimal, u64_text, without};

verus! {

/// A scalar SQL value.
pub enum Value {
    Null,
    Boolean(bool),
    String(String),
    Int(i64),
    UInt(u64),
    /// A single-precision number, held as text that is rendered as it is;
    /// callers fill it from Rust's own float formatting.
    Float(String),
    /// A double-precision number, held as text that is rendered as it is;
    /// callers fill it from Rust's own float formatting.
    Double(String),
    /// A fragment of raw SQL, rendered as it is, unquoted.
    Raw(String),
}

/// `s` between single quotes.
pub open spec fn quoted(s: Seq<char>) -> Seq<char> {
    seq!['\''] + s + seq!['\'']
}

/// `s` between parentheses.
pub open spec fn parenthesized(s: Seq<char>) -> Seq<char> {
    seq!['('] + s + seq![')']
}

/// Literal text of a string value: a string that holds a `:` is raw SQL and
/// is written without its colons and unquoted; any other is quoted as it is.
pub open spec fn string_literal(s: Seq<char>) -> Seq<char> {
    if s.contains(':') {
        without(s, ':')
    } else {
        quoted(s)
    }
}

/// Literal text of a value.
pub open spec fn literal(v: Value) -> Seq<char> {
    match v {
        Value::Null => seq!['N', 'U', 'L', 'L'],
        Value::Boolean(b) => if b { seq!['1'] } else { seq!['0'] },
        Value::String(s) => string_literal(s@),
        Value::Int(i) => signed_decimal(i as int),
        Value::UInt(u) => decimal(u as nat),
        Value::Float(t) => t@,
        Value::Double(t) => t@,
        Value::Raw(t) => t@,
    }
}

impl Value {
    /// Literal text of this value.
    pub fn to_string(&self) -> (r: String)
        ensures
            r@ == literal(*self),
    {
        match self {
            Value::Null => {
                proof {
                    reveal_strlit("NULL");
                }
                String::from_str("NULL")
            },
            Value::Boolean(b) => {
                proof {
                    reveal_strlit("1");
                    reveal_strlit("0");
                }
                if *b {
                    String::from_str("1")
                } else {
                    String::from_str("0")
                }
            },
            Value::String(s) => string_text(s.as_str()),
            Value::Int(i) => i64_text(*i),
            Value::UInt(u) => u64_text(*u),
            Value::Float(t) => t.clone(),
            Value::Double(t) => t.clone(),
            Value::Raw(t) => t.clone(),
        }
    }
}

/// Literal text of a string value.
pub fn string_text(s: &str) -> (r: String)
    ensures
        r@ == string_literal(s@),
{
    if has_char(s, ':') {
        remove_char(s, ':')
    } else {
        proof {
            reveal_strlit("'");
        }
        let mut r = String::from_str("'");
        r.append(s);
        r.append("'");
        assert(r@ =~= quoted(s@));
        r
    }
}


impl From<u8> for Value {
    fn from(v: u8) -> (r: Value)
        ensures
            r == Value::UInt(v as u64),
    {
        Value::UInt(v as u64)
    }
}

impl vstd::std_specs::convert::FromSpecImpl<u8> for Value {
    open spec fn obeys_from_spec() -> bool {
        true
    }

    open spec fn from_spec(v: u8) -> Value {
        Value::UInt(v as u64)
    }
}

impl From<u16> for Value {
    fn from(v: u16) -> (r: Value)
        ensures
            r == Value::UInt(v as u64),
    {
        Value::UInt(v as u64)
    }
}

impl vstd::std_specs::convert::FromSpecImpl<u16> for Value {
    open spec fn obeys_from_spec() -> bool {
        true
    }

    open spec fn from_spec(v: u16) -> Value {
        Value::UInt(v as u64)
    }
}

impl From<u32> for Value {
    fn from(v: u32) -> (r: Value)
        ensures
            r == Value::UInt(v as u64),
    {
        Value::UInt(v as u64)
    }
}

impl vstd::std_specs::convert::FromSpecImpl<u32> for Value {
    open spec fn obeys_from_spec() -> bool {
        true
    }

    open spec fn from_spec(v: u32) -> Value {
        Value::UInt(v as u64)
    }
}

impl From<u64> for Value {
    fn from(v: u64) -> (r: Value)
        ensures
            r == Value::UInt(v),
    {
        Value::UInt(v)
    }
}

impl vstd::std_specs::convert::FromSpecImpl<u64> for Value {
    open spec fn obeys_from_spec() -> bool {
        true
    }

    open spec fn from_spec(v: u64) -> Value {
        Value::UInt(v)
    }
}

impl From<i8> for Value {
    fn from(v: i8) -> (r: Value)
        ensures
            r == Value::Int(v as i64),
    {
        Value::Int(v as i64)
    }
}

impl vstd::std_specs::convert::FromSpecImpl<i8> for Value {
    open spec fn obeys_from_spec() -> bool {
        true
    }

    open spec fn from_spec(v: i8) -> Value {
        Value::Int(v as i64)
    }
}

impl From<i16> for Value {
    fn from(v: i16) -> (r: Value)
        ensures
            r == Value::Int(v as i64),
    {
        Value::Int(v as i64)
    }
}

impl vstd::std_specs::convert::FromSpecImpl<i16> for Value {
    open spec fn obeys_from_spec() -> bool {
        true
    }

    open spec fn from_spec(v: i16) -> Value {
        Value::Int(v as i64)
    }
}

impl From<i32> for Value {
    fn from(v: i32) -> (r: Value)
        ensures
            r == Value::Int(v as i64),
    {
        Value::Int(v as i64)
    }
}

impl vstd::std_specs::convert::FromSpecImpl<i32> for Value {
    open spec fn obeys_from_spec() -> bool {
        true
    }

    open spec fn from_spec(v: i32) -> Value {
        Value::Int(v as i64)
    }
}

impl From<i64> for Value {
    fn from(v: i64) -> (r: Value)
        ensures
            r == Value::Int(v),
    {
        Value::Int(v)
    }
}

impl vstd::std_specs::convert::FromSpecImpl<i64> for Value {
    open spec fn obeys_from_spec() -> bool {
        true
    }

    open spec fn from_spec(v: i64) -> Value {
        Value::Int(v)
    }
}

impl From<bool> for Value {
    fn from(v: bool) -> (r: Value)
        ensures
            r == Value::Boolean(v),
    {
        Value::Boolean(v)
    }
}

impl vstd::std_specs::convert::FromSpecImpl<bool> for Value {
    open spec fn obeys_from_spec() -> bool {
        true
    }

    open spec fn from_spec(v: bool) -> Value {
        Value::Boolean(v)
    }
}

impl From<String> for Value {
    fn from(v: String) -> (r: Value)
        ensures
            r == Value::String(v),
    {
        Value::String(v)
    }
}

impl vstd::std_specs::convert::FromSpecImpl<String> for Value {
    open spec fn obeys_from_spec() -> bool {
        true
    }

    open spec fn from_spec(v: String) -> Value {
        Value::String(v)
    }
}

impl<'a> From<&'a str> for Value {
    fn from(v: &'a str) -> (r: Value)
        ensures
            r is String && r->String_0@ == v@,
    {
        Value::String(String::from_str(v))
    }
}

impl<'a> vstd::std_specs::convert::FromSpecImpl<&'a str> for Value {
    /// Spec code cannot name the one `String` built here, so the conversion is
    /// described by the `ensures` of `from` alone.
    open spec fn obeys_from_spec() -> bool {
        false
    }

    open spec fn from_spec(v: &'a str) -> Value {
        Value::Null
    }
}

impl<T: Into<Value>> From<Option<T>> for Value {
    /// Absence is `Null`; a present value converts as it would alone.
    fn from(v: Option<T>) -> (r: Value)
        ensures
            v is None ==> r is Null,
            v is Some ==> call_ensures(<T as Into<Value>>::into, (v->0,), r),
    {
        match v {
            Some(x) => x.into(),
            None => Value::Null,
        }
    }
}

impl<T: Into<Value>> vstd::std_specs::convert::FromSpecImpl<Option<T>> for Value {
    open spec fn obeys_from_spec() -> bool {
        <T as vstd::std_specs::convert::IntoSpec<Value>>::obeys_into_spec()
    }

    open spec fn from_spec(v: Option<T>) -> Value {
        match v {
            Some(x) => <T as vstd::std_specs::convert::IntoSpec<Value>>::into_spec(x),
            None => Value::Null,
        }
    }
}

impl<'a, T: Into<Value> + Clone> From<&'a T> for Value {
    /// A borrowed value converts as its clone would.
    fn from(v: &'a T) -> (r: Value)
        ensures
            exists|c: T| call_ensures(T::clone, (v,), c) && call_ensures(<T as Into<Value>>::into, (c,), r),
    {
        v.clone().into()
    }
}

impl<'a, T: Into<Value> + Clone> vstd::std_specs::convert::FromSpecImpl<&'a T> for Value {
    /// What a clone of a `T` holds is not known in general, so the conversion
    /// is described by the `ensures` of `from` alone.
    open spec fn obeys_from_spec() -> bool {
        false
    }

    open spec fn from_spec(v: &'a T) -> Value {
        arbitrary()
    }
}

} // verus!
