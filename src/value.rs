//! Context values: a boolean, a 64-bit signed integer or a borrowed string.
use vstd::prelude::*;

use crate::text::str_eq;

verus! {

/// A value that can appear in a request's context.
#[derive(Debug, Clone, Copy)]
pub enum Value<'a> {
    /// Boolean value.
    Bool(bool),
    /// 64-bit signed integer.
    Int(i64),
    /// Borrowed string slice.
    String(&'a str),
}

impl<'a> Value<'a> {
    /// Structural equality: same variant and same payload; strings compare
    /// by their characters. Values of different variants are never equal.
    pub open spec fn same<'b>(self, other: Value<'b>) -> bool {
        match (self, other) {
            (Value::Bool(x), Value::Bool(y)) => x == y,
            (Value::Int(x), Value::Int(y)) => x == y,
            (Value::String(x), Value::String(y)) => x@ == y@,
            _ => false,
        }
    }

    /// Executable form of `same`.
    pub fn equals<'b>(&self, other: &Value<'b>) -> (r: bool)
        ensures
            r == self.same(*other),
    {
        match (self, other) {
            (Value::Bool(x), Value::Bool(y)) => *x == *y,
            (Value::Int(x), Value::Int(y)) => *x == *y,
            (Value::String(x), Value::String(y)) => str_eq(x, y),
            _ => false,
        }
    }

    /// Returns `true` if this is a `Bool` variant.
    pub fn is_bool(&self) -> (r: bool)
        ensures
            r == (*self is Bool),
    {
        matches!(self, Value::Bool(_))
    }

    /// Returns `true` if this is an `Int` variant.
    pub fn is_int(&self) -> (r: bool)
        ensures
            r == (*self is Int),
    {
        matches!(self, Value::Int(_))
    }

    /// Returns `true` if this is a `String` variant.
    pub fn is_string(&self) -> (r: bool)
        ensures
            r == (*self is String),
    {
        matches!(self, Value::String(_))
    }

    /// Returns the boolean value if this is a `Bool`, otherwise `None`.
    pub fn as_bool(&self) -> (r: Option<bool>)
        ensures
            r == (match *self {
                Value::Bool(b) => Some(b),
                _ => None,
            }),
    {
        match self {
            Value::Bool(b) => Some(*b),
            _ => None,
        }
    }

    /// Returns the integer value if this is an `Int`, otherwise `None`.
    pub fn as_int(&self) -> (r: Option<i64>)
        ensures
            r == (match *self {
                Value::Int(i) => Some(i),
                _ => None,
            }),
    {
        match self {
            Value::Int(i) => Some(*i),
            _ => None,
        }
    }

    /// Returns the string value if this is a `String`, otherwise `None`.
    pub fn as_str(&self) -> (r: Option<&'a str>)
        ensures
            r == (match *self {
                Value::String(s) => Some(s),
                _ => None,
            }),
    {
        match self {
            Value::String(s) => Some(*s),
            _ => None,
        }
    }

    /// Returns the name of this value's variant.
    pub fn type_label(&self) -> (r: &'static str)
        ensures
            *self is Bool ==> r@ == "Bool"@,
            *self is Int ==> r@ == "Int"@,
            *self is String ==> r@ == "String"@,
    {
        match self {
            Value::Bool(_) => "Bool",
            Value::Int(_) => "Int",
            Value::String(_) => "String",
        }
    }
}

impl<'a> PartialEq for Value<'a> {
    fn eq(&self, other: &Value<'a>) -> (r: bool) {
        self.equals(other)
    }
}

impl<'a> vstd::std_specs::cmp::PartialEqSpecImpl for Value<'a> {
    open spec fn obeys_eq_spec() -> bool {
        true
    }

    open spec fn eq_spec(&self, other: &Value<'a>) -> bool {
        self.same(*other)
    }
}

impl<'a> From<&'a str> for Value<'a> {
    fn from(s: &'a str) -> (r: Value<'a>) {
        Value::String(s)
    }
}

impl<'a> vstd::std_specs::convert::FromSpecImpl<&'a str> for Value<'a> {
    open spec fn obeys_from_spec() -> bool {
        true
    }

    open spec fn from_spec(s: &'a str) -> Value<'a> {
        Value::String(s)
    }
}

impl<'a> From<i64> for Value<'a> {
    fn from(i: i64) -> (r: Value<'a>) {
        Value::Int(i)
    }
}

impl<'a> vstd::std_specs::convert::FromSpecImpl<i64> for Value<'a> {
    open spec fn obeys_from_spec() -> bool {
        true
    }

    open spec fn from_spec(i: i64) -> Value<'a> {
        Value::Int(i)
    }
}

impl<'a> From<bool> for Value<'a> {
    fn from(b: bool) -> (r: Value<'a>) {
        Value::Bool(b)
    }
}

impl<'a> vstd::std_specs::convert::FromSpecImpl<bool> for Value<'a> {
    open spec fn obeys_from_spec() -> bool {
        true
    }

    open spec fn from_spec(b: bool) -> Value<'a> {
        Value::Bool(b)
    }
}

} // verus!
