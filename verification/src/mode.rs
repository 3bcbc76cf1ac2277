//! The introspection mode, and how the schema-level and the request-level
//! mode combine.

use vstd::prelude::*;

verus! {

/// How far introspection is available.
///
/// One mode is attached to the schema and one to each request; both are
/// read-only while a field is dispatched.
#[derive(Clone, Copy, Debug, PartialEq, Eq, Structural)]
pub enum IntrospectionMode {
    /// Introspection is served alongside ordinary fields.
    Enabled,
    /// Introspection is not served.
    Disabled,
    /// Only introspection is served.
    IntrospectionOnly,
}

impl IntrospectionMode {
    /// Whether this mode, taken alone, lets `__schema` and `__type` be served.
    pub open spec fn permits_introspection(self) -> bool {
        self != IntrospectionMode::Disabled
    }

    /// Whether this mode restricts a request to introspection.
    pub open spec fn restricts_to_introspection(self) -> bool {
        self == IntrospectionMode::IntrospectionOnly
    }
}

/// Decides whether a mode, taken alone, permits introspection.
pub fn permits(mode: IntrospectionMode) -> (permitted: bool)
    ensures
        permitted == mode.permits_introspection(),
{
    match mode {
        IntrospectionMode::Enabled | IntrospectionMode::IntrospectionOnly => true,
        IntrospectionMode::Disabled => false,
    }
}

/// `__schema` and `__type` are servable exactly when both modes permit
/// introspection.
pub open spec fn spec_can_introspect(schema: IntrospectionMode, request: IntrospectionMode) -> bool {
    schema.permits_introspection() && request.permits_introspection()
}

/// A request is restricted to introspection exactly when either mode is
/// `IntrospectionOnly`.
pub open spec fn spec_is_introspection_only(
    schema: IntrospectionMode,
    request: IntrospectionMode,
) -> bool {
    schema.restricts_to_introspection() || request.restricts_to_introspection()
}

/// Decides whether `__schema` and `__type` are servable under the two modes.
#[verifier::when_used_as_spec(spec_can_introspect)]
pub fn can_introspect(schema: IntrospectionMode, request: IntrospectionMode) -> (servable: bool)
    ensures
        servable == spec_can_introspect(schema, request),
        servable <==> (schema == IntrospectionMode::Enabled || schema
            == IntrospectionMode::IntrospectionOnly) && (request == IntrospectionMode::Enabled
            || request == IntrospectionMode::IntrospectionOnly),
{
    permits(schema) && permits(request)
}

/// Decides whether the request is restricted to introspection under the two
/// modes.
#[verifier::when_used_as_spec(spec_is_introspection_only)]
pub fn is_introspection_only(schema: IntrospectionMode, request: IntrospectionMode) -> (only: bool)
    ensures
        only == spec_is_introspection_only(schema, request),
        only <==> (schema == IntrospectionMode::IntrospectionOnly || request
            == IntrospectionMode::IntrospectionOnly),
{
    schema == IntrospectionMode::IntrospectionOnly || request
        == IntrospectionMode::IntrospectionOnly
}

} // verus!
