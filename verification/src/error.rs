//! Source positions and the errors a field resolution ends with.

use vstd::prelude::*;

verus! {

/// A position in a request document.
#[derive(Clone, Copy, Debug, Default, PartialEq, Eq, Structural)]
pub struct Pos {
    pub line: usize,
    pub column: usize,
}

/// Why the resolution of a field failed.
///
/// An error ends the resolution of the one field it arose in, nothing more.
/// The absence of a value is no error: it is `Ok(None)`, or a null value.
#[derive(Clone, Debug, PartialEq, Eq)]
pub enum ServerError {
    /// A required argument is missing or does not have the required shape.
    /// `pos` is the position of the field that takes the argument.
    Argument { name: &'static str, pos: Pos },
    /// A representation matched no registered type. `pos` is the position of
    /// the `_entities` field; a representation has no position of its own.
    EntityNotFound { pos: Pos },
    /// An error raised by a resolver outside the dispatcher, carried unchanged.
    Resolver { message: String, locations: Vec<Pos> },
}

} // verus!
