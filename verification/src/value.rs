//! Constant values: arguments as a request carries them, and results.

use vstd::prelude::*;

verus! {

/// A number. A double is held by its IEEE 754 bit pattern.
#[derive(Clone, Copy, Debug, PartialEq, Eq)]
pub enum Number {
    Int(i64),
    Double { bits: u64 },
}

/// A constant value.
///
/// The dispatcher reads strings and lists; everything else it carries
/// through unread.
#[derive(Debug, PartialEq, Eq)]
pub enum Value {
    Null,
    Number(Number),
    String(String),
    Boolean(bool),
    Enum(String),
    List(Vec<Value>),
    /// Field names with their values, in order.
    Object(Vec<(String, Value)>),
}

} // verus!
