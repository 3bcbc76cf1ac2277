//! The context of one field resolution: the requested field, the registry and
//! the request-level settings.

use crate::error::{Pos, ServerError};
use crate::mode::IntrospectionMode;
use crate::registry::Registry;
use crate::value::Value;
use vstd::prelude::*;

verus! {

/// A field as a request asks for it.
#[derive(Debug, PartialEq, Eq)]
pub struct Field {
    pub name: String,
    /// Where the field stands in the request document.
    pub pos: Pos,
    /// Argument names with their values, in the order of the request.
    pub arguments: Vec<(String, Value)>,
}

/// Whether `i` is the position of the first argument named `name`.
pub open spec fn is_first_named(arguments: Seq<(String, Value)>, name: Seq<char>, i: int) -> bool {
    &&& 0 <= i < arguments.len()
    &&& arguments[i].0@ == name
    &&& forall|j: int| 0 <= j < i ==> (#[trigger] arguments[j]).0@ != name
}

/// The value of the first argument named `name`.
pub open spec fn argument_of(arguments: Seq<(String, Value)>, name: Seq<char>) -> Option<Value> {
    if exists|i: int| is_first_named(arguments, name, i) {
        Some(arguments[choose|i: int| is_first_named(arguments, name, i)].1)
    } else {
        None
    }
}

impl Field {
    /// The value given for the argument `name`, if the request gives one.
    pub fn argument(&self, name: &str) -> (found: Option<&Value>)
        ensures
            found == match argument_of(self.arguments@, name@) {
                Some(value) => Some(&value),
                None => None,
            },
    {
        let mut i: usize = 0;
        while i < self.arguments.len()
            invariant
                i <= self.arguments.len(),
                forall|j: int| 0 <= j < i ==> (#[trigger] self.arguments@[j]).0@ != name@,
            decreases self.arguments.len() - i,
        {
            if self.arguments[i].0.as_str().eq(name) {
                assert(is_first_named(self.arguments@, name@, i as int));
                return Some(&self.arguments[i].1);
            }
            i += 1;
        }
        None
    }
}

/// The context in which one field is resolved. It borrows the registry and
/// the requested field for the duration of that resolution.
#[derive(Clone, Copy, Debug, PartialEq, Eq)]
pub struct Context<'a> {
    /// The schema registry.
    pub registry: &'a Registry,
    /// The request-level introspection mode.
    pub introspection_mode: IntrospectionMode,
    /// The field being resolved.
    pub item: &'a Field,
    /// Whether the resolution serves introspection. Resolvers read it to
    /// leave out what an introspection answer does not carry.
    pub is_for_introspection: bool,
}

impl<'a> Context<'a> {
    /// This context, marked as resolving for introspection.
    pub open spec fn spec_for_introspection(self) -> Context<'a> {
        Context { is_for_introspection: true, ..self }
    }

    /// The context for a sub-resolver that serves introspection: a copy of
    /// this one with the mark set. This context itself keeps its mark.
    pub fn for_introspection(&self) -> (sub: Context<'a>)
        ensures
            sub == self.spec_for_introspection(),
    {
        Context {
            registry: self.registry,
            introspection_mode: self.introspection_mode,
            item: self.item,
            is_for_introspection: true,
        }
    }

    /// The error for an argument of the field that is missing or misshapen.
    pub open spec fn argument_error(self, name: &'static str) -> ServerError {
        ServerError::Argument { name, pos: self.item.pos }
    }

    /// Reads the required string argument `name`.
    pub fn param_string(&self, name: &'static str) -> (read: Result<&'a String, ServerError>)
        ensures
            read == match argument_of(self.item.arguments@, name@) {
                Some(Value::String(text)) => Ok(&text),
                _ => Err(self.argument_error(name)),
            },
    {
        match self.item.argument(name) {
            Some(Value::String(text)) => Ok(text),
            _ => Err(ServerError::Argument { name, pos: self.item.pos }),
        }
    }

    /// Reads the required list argument `name`.
    pub fn param_list(&self, name: &'static str) -> (read: Result<&'a Vec<Value>, ServerError>)
        ensures
            read == match argument_of(self.item.arguments@, name@) {
                Some(Value::List(items)) => Ok(&items),
                _ => Err(self.argument_error(name)),
            },
    {
        match self.item.argument(name) {
            Some(Value::List(items)) => Ok(items),
            _ => Err(ServerError::Argument { name, pos: self.item.pos }),
        }
    }
}

} // verus!
