//! Loosely-typed wire values.
//!
//! A transport frame decodes to an ordered sequence of these values; the
//! dispatcher interprets that sequence by position.

use vstd::prelude::*;

verus! {

/// One loosely-typed value as decoded off the wire.
///
/// A mapping is kept as an ordered list of (name, value) entries; the
/// protocol attaches no meaning to entry order.
#[derive(Debug, PartialEq, Eq)]
pub enum Value {
    Null,
    Bool(bool),
    Int(i64),
    Str(String),
    List(Vec<Value>),
    Dict(Vec<(String, Value)>),
}

} // verus!
