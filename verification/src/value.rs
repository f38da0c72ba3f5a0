//! Types to model values in LLVM.

use crate::text::{push_char, spec_decimal};
use crate::types::IntegerSize;
use vstd::prelude::*;

verus! {

/// An integer value of a specified integer type.
#[derive(Copy, Clone, Debug, PartialEq, Eq, Structural)]
pub struct Integer {
    integer_type: IntegerSize,
    value: u64,
}

impl Integer {
    /// The type of the value.
    pub closed spec fn spec_type(&self) -> IntegerSize {
        self.integer_type
    }

    /// The numeric value.
    pub closed spec fn spec_value(&self) -> u64 {
        self.value
    }

    /// Creates an integer value of the specified type with a bit pattern of
    /// all zeroes.
    pub fn zero(integer_type: IntegerSize) -> (r: Self)
        ensures
            r.spec_type() == integer_type,
            r.spec_value() == 0,
    {
        Integer { integer_type, value: 0 }
    }

    /// The type of the value.
    pub fn integer_type(&self) -> (r: IntegerSize)
        ensures
            r == self.spec_type(),
    {
        self.integer_type
    }
}

/// How a typed integer value is written in LLVM IR: the type, a space, and
/// the value in decimal.
pub closed spec fn spec_integer_value_str(v: Integer) -> Seq<char> {
    seq!['i'] + spec_decimal(v.integer_type@ as nat) + seq![' '] + spec_decimal(v.value as nat)
}

/// A value.
#[derive(Copy, Clone, Debug, PartialEq, Eq, Structural)]
pub enum Value {
    /// An integer value.
    Integer(Integer),
}

/// How a value is written in LLVM IR.
pub open spec fn spec_value_str(v: Value) -> Seq<char> {
    match v {
        Value::Integer(integer) => spec_integer_value_str(integer),
    }
}

impl Integer {
    /// Writes the value as it appears in LLVM IR.
    pub fn ir_string(&self) -> (r: String)
        ensures
            r@ == spec_integer_value_str(*self),
    {
        let mut r = String::new();
        push_char(&mut r, 'i');
        crate::text::append_decimal(&mut r, self.integer_type.bits() as u64);
        push_char(&mut r, ' ');
        crate::text::append_decimal(&mut r, self.value);
        assert(r@ =~= spec_integer_value_str(*self));
        r
    }
}

impl Value {
    /// Writes the value as it appears in LLVM IR.
    pub fn ir_string(&self) -> (r: String)
        ensures
            r@ == spec_value_str(*self),
    {
        match self {
            Value::Integer(integer) => integer.ir_string(),
        }
    }
}

impl From<Integer> for Value {
    /// Wraps an integer value.
    fn from(value: Integer) -> (r: Self) {
        Value::Integer(value)
    }
}

impl vstd::std_specs::convert::FromSpecImpl<Integer> for Value {
    open spec fn obeys_from_spec() -> bool {
        true
    }

    open spec fn from_spec(value: Integer) -> Self {
        Value::Integer(value)
    }
}

} // verus!
