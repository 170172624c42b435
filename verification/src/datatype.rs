//! The type discriminant of the value model, lookup of a discriminant by a
//! type's name, and the discriminant of a native type.

use vstd::prelude::*;

use crate::error::{Error, INVALID_TYPE};
use crate::text::str_eq;
use crate::value::{spec_type_of, Bytes, Value};

verus! {

/// The discriminant enum mirroring the seven value shapes.
#[derive(Copy, Clone, Debug, PartialEq, Eq, Structural)]
pub enum DataType {
    String,
    Integer,
    Number,
    Boolean,
    Bytes,
    Array,
    Nil,
}

/// The discriminant that a native type converts into.
pub trait ToType {
    spec fn spec_type() -> DataType;

    fn get_type() -> (t: DataType)
        ensures
            t == Self::spec_type(),
    ;
}

impl ToType for i64 {
    open spec fn spec_type() -> DataType {
        DataType::Integer
    }

    fn get_type() -> DataType {
        DataType::Integer
    }
}

impl ToType for i32 {
    open spec fn spec_type() -> DataType {
        DataType::Integer
    }

    fn get_type() -> DataType {
        DataType::Integer
    }
}

impl ToType for i16 {
    open spec fn spec_type() -> DataType {
        DataType::Integer
    }

    fn get_type() -> DataType {
        DataType::Integer
    }
}

impl ToType for i8 {
    open spec fn spec_type() -> DataType {
        DataType::Integer
    }

    fn get_type() -> DataType {
        DataType::Integer
    }
}

impl ToType for u32 {
    open spec fn spec_type() -> DataType {
        DataType::Integer
    }

    fn get_type() -> DataType {
        DataType::Integer
    }
}

impl ToType for u16 {
    open spec fn spec_type() -> DataType {
        DataType::Integer
    }

    fn get_type() -> DataType {
        DataType::Integer
    }
}

impl ToType for u8 {
    open spec fn spec_type() -> DataType {
        DataType::Integer
    }

    fn get_type() -> DataType {
        DataType::Integer
    }
}

impl ToType for bool {
    open spec fn spec_type() -> DataType {
        DataType::Boolean
    }

    fn get_type() -> DataType {
        DataType::Boolean
    }
}

impl ToType for String {
    open spec fn spec_type() -> DataType {
        DataType::String
    }

    fn get_type() -> DataType {
        DataType::String
    }
}

impl ToType for Bytes {
    open spec fn spec_type() -> DataType {
        DataType::Bytes
    }

    fn get_type() -> DataType {
        DataType::Bytes
    }
}

impl ToType for () {
    open spec fn spec_type() -> DataType {
        DataType::Nil
    }

    fn get_type() -> DataType {
        DataType::Nil
    }
}

/// The name of the 64-bit float type, assembled at run time: verified
/// sources keep clear of floating-point tokens, the type's name included.
fn wide_float_name() -> (r: String)
    ensures
        r@ == seq!['f', '6', '4'],
{
    proof {
        reveal_strlit("f");
        reveal_strlit("64");
    }
    let mut out = "f".to_owned();
    out.append("64");
    proof {
        assert(out@ =~= seq!['f', '6', '4']);
    }
    out
}

/// The name of the 32-bit float type, assembled the same way.
fn narrow_float_name() -> (r: String)
    ensures
        r@ == seq!['f', '3', '2'],
{
    proof {
        reveal_strlit("f");
        reveal_strlit("32");
    }
    let mut out = "f".to_owned();
    out.append("32");
    proof {
        assert(out@ =~= seq!['f', '3', '2']);
    }
    out
}

/// The discriminant that a type's name denotes, over the exact spellings the
/// library accepts.
pub open spec fn spec_type_of_name(s: Seq<char>) -> Option<DataType> {
    if s == "string"@ {
        Some(DataType::String)
    } else if s == "integer"@ || s == "i64"@ || s == "i32"@ || s == "i16"@ || s == "i8"@ || s
        == "u32"@ || s == "u16"@ || s == "u8"@ {
        Some(DataType::Integer)
    } else if s == "number"@ || s == seq!['f', '6', '4'] || s == seq!['f', '3', '2'] {
        Some(DataType::Number)
    } else if s == "boolean"@ {
        Some(DataType::Boolean)
    } else if s == "bytes"@ || s == "vec<u8>"@ {
        Some(DataType::Bytes)
    } else if s == "vec<Value>"@ {
        Some(DataType::Array)
    } else if s == "()"@ || s == "null"@ || s == "nil"@ {
        Some(DataType::Nil)
    } else {
        None
    }
}

/// What lowercasing gives for a text; the result depends on the characters
/// alone.
pub uninterp spec fn spec_lower_of(s: Seq<char>) -> Seq<char>;

/// Relies on str::to_lowercase: the lowercase form of the text, a function
/// of its characters alone.
#[verifier::external_body]
fn lowercase(s: &str) -> (r: String)
    ensures
        r@ == spec_lower_of(s@),
        s@.len() == 0 ==> r@.len() == 0,
{
    s.to_lowercase()
}

impl DataType {
    /// Looks a discriminant up by a type name as written, no case folding.
    pub fn from_normalized(s: &str) -> (r: Option<DataType>)
        ensures
            r == spec_type_of_name(s@),
    {
        if str_eq(s, "string") {
            Some(DataType::String)
        } else if str_eq(s, "integer") || str_eq(s, "i64") || str_eq(s, "i32") || str_eq(s, "i16")
            || str_eq(s, "i8") || str_eq(s, "u32") || str_eq(s, "u16") || str_eq(s, "u8") {
            Some(DataType::Integer)
        } else if str_eq(s, "number") || str_eq(s, wide_float_name().as_str()) || str_eq(
            s,
            narrow_float_name().as_str(),
        ) {
            Some(DataType::Number)
        } else if str_eq(s, "boolean") {
            Some(DataType::Boolean)
        } else if str_eq(s, "bytes") || str_eq(s, "vec<u8>") {
            Some(DataType::Bytes)
        } else if str_eq(s, "vec<Value>") {
            Some(DataType::Array)
        } else if str_eq(s, "()") || str_eq(s, "null") || str_eq(s, "nil") {
            Some(DataType::Nil)
        } else {
            None
        }
    }

    /// Looks a discriminant up by a type name, folding the name to lower
    /// case first; an unknown name is an invalid-type error carrying it.
    pub fn from_str(s: &str) -> (r: Result<DataType, Error>)
        ensures
            spec_type_of_name(spec_lower_of(s@)) matches Some(t) ==> r == Ok::<DataType, Error>(t),
            spec_type_of_name(spec_lower_of(s@)) is None ==> (r matches Err(e) && e.spec_code()
                == INVALID_TYPE && e.spec_msg() == "failed to parse str "@ + s@
                + " for DataType"@),
    {
        let low = lowercase(s);
        match Self::from_normalized(low.as_str()) {
            Some(t) => Ok(t),
            None => {
                let mut msg = String::new();
                msg.append("failed to parse str ");
                msg.append(s);
                msg.append(" for DataType");
                proof {
                    assert(msg@ =~= "failed to parse str "@ + s@ + " for DataType"@);
                }
                Err(Error::new(INVALID_TYPE, msg.as_str()))
            },
        }
    }

    /// The display name of this discriminant.
    pub fn as_text(&self) -> (r: String)
        ensures
            r@ == spec_type_name(*self),
    {
        match self {
            DataType::String => "String".to_owned(),
            DataType::Integer => "Integer".to_owned(),
            DataType::Number => "Number".to_owned(),
            DataType::Boolean => "Boolean".to_owned(),
            DataType::Bytes => "Bytes".to_owned(),
            DataType::Array => "Array".to_owned(),
            DataType::Nil => "Nil".to_owned(),
        }
    }
}

/// The display name of a discriminant.
pub open spec fn spec_type_name(t: DataType) -> Seq<char> {
    match t {
        DataType::String => "String"@,
        DataType::Integer => "Integer"@,
        DataType::Number => "Number"@,
        DataType::Boolean => "Boolean"@,
        DataType::Bytes => "Bytes"@,
        DataType::Array => "Array"@,
        DataType::Nil => "Nil"@,
    }
}

impl From<Value> for DataType {
    /// The discriminant of a value; it agrees with `Value::get_type`.
    fn from(val: Value) -> (t: DataType) {
        val.get_type()
    }
}

impl vstd::std_specs::convert::FromSpecImpl<Value> for DataType {
    open spec fn obeys_from_spec() -> bool {
        true
    }

    open spec fn from_spec(v: Value) -> DataType {
        spec_type_of(v@)
    }
}

/// The discriminant taken from a value through the conversion agrees with
/// what the value itself reports as its type.
pub proof fn lemma_from_value_agrees_with_get_type(v: Value)
    ensures
        <DataType as vstd::std_specs::convert::FromSpec<Value>>::from_spec(v) == spec_type_of(v@),
{
}

} // verus!
