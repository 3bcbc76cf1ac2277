//! The answers of the fields that a built-in resolver serves.

use crate::error::ServerError;
use crate::value::Value;
use vstd::prelude::*;

verus! {

/// The answer of a field whose built-in resolver came to `resolved`.
pub open spec fn spec_present(resolved: Result<Value, ServerError>) -> Result<
    Option<Value>,
    ServerError,
> {
    match resolved {
        Ok(value) => Ok(Some(value)),
        Err(error) => Err(error),
    }
}

/// The answer of `__schema` or `_service`, given what its resolver came to:
/// the value, present, or the resolver's error unchanged.
pub fn present(resolved: Result<Value, ServerError>) -> (answer: Result<Option<Value>, ServerError>)
    ensures
        answer == spec_present(resolved),
{
    match resolved {
        Ok(value) => Ok(Some(value)),
        Err(error) => Err(error),
    }
}

/// The answer of `__type`. `described` is `None` where the name has no
/// visible type, else what the description of the type came to.
///
/// A name without a visible type answers null: a value that is present, and
/// no error.
pub fn type_answer(described: Option<Result<Value, ServerError>>) -> (answer: Result<
    Option<Value>,
    ServerError,
>)
    ensures
        answer == match described {
            Some(resolved) => spec_present(resolved),
            None => Ok(Some(Value::Null)),
        },
{
    match described {
        Some(resolved) => present(resolved),
        None => Ok(Some(Value::Null)),
    }
}

} // verus!
