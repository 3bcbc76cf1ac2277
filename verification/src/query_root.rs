//! The query root: the wrapper around the user-defined root type that routes
//! each top-level field.

use crate::context::{argument_of, Context};
use crate::error::ServerError;
use crate::federation::SdlExportOptions;
use crate::mode::{
    can_introspect, is_introspection_only, permits, spec_can_introspect,
    spec_is_introspection_only, IntrospectionMode,
};
use crate::registry::{shows_introspection, with_introspection, Registry};
use crate::value::Value;
use std::marker::PhantomData;
use vstd::prelude::*;

verus! {

/// The paths a top-level field can take, without what travels along.
#[derive(Clone, Copy, Debug, PartialEq, Eq, Structural)]
pub enum RouteKind {
    Schema,
    Type,
    NoValue,
    Entities,
    Service,
    Delegate,
}

/// The path of the field named `name`, decided in this order:
/// `__schema` and `__type` where both modes permit introspection; no value
/// where either mode restricts the request to introspection; `_entities`
/// and `_service` where federation is enabled or an entity-bearing type is
/// registered; the user-defined root type otherwise.
pub open spec fn spec_route_kind(
    schema_mode: IntrospectionMode,
    request_mode: IntrospectionMode,
    enable_federation: bool,
    has_entities: bool,
    name: Seq<char>,
) -> RouteKind {
    if spec_can_introspect(schema_mode, request_mode) && name == "__schema"@ {
        RouteKind::Schema
    } else if spec_can_introspect(schema_mode, request_mode) && name == "__type"@ {
        RouteKind::Type
    } else if spec_is_introspection_only(schema_mode, request_mode) {
        RouteKind::NoValue
    } else if (enable_federation || has_entities) && name == "_entities"@ {
        RouteKind::Entities
    } else if (enable_federation || has_entities) && name == "_service"@ {
        RouteKind::Service
    } else {
        RouteKind::Delegate
    }
}

/// Where a top-level field is resolved, with what the resolver needs.
#[derive(Debug, PartialEq, Eq)]
pub enum Route<'a> {
    /// Serve `__schema`: describe the whole schema, over the types visible
    /// under `ctx`.
    Schema { ctx: Context<'a> },
    /// Serve `__type`: describe the type called `name`, if it is registered
    /// and visible under `ctx`.
    Type { ctx: Context<'a>, name: &'a String },
    /// The field has no value. This is an answer, not an error.
    NoValue,
    /// Serve `_entities`: resolve each representation against the
    /// user-defined types.
    Entities { representations: &'a Vec<Value> },
    /// Serve `_service`: render the schema with `options`.
    Service { ctx: Context<'a>, options: SdlExportOptions },
    /// Hand the field, with its context as it is, to the user-defined root
    /// type.
    Delegate,
}

impl<'a> Route<'a> {
    /// The path, without what travels along.
    pub open spec fn kind(self) -> RouteKind {
        match self {
            Route::Schema { .. } => RouteKind::Schema,
            Route::Type { .. } => RouteKind::Type,
            Route::NoValue => RouteKind::NoValue,
            Route::Entities { .. } => RouteKind::Entities,
            Route::Service { .. } => RouteKind::Service,
            Route::Delegate => RouteKind::Delegate,
        }
    }
}

/// The path of the field that `ctx` resolves.
pub open spec fn route_kind_of(ctx: Context) -> RouteKind {
    spec_route_kind(
        ctx.registry@.introspection_mode,
        ctx.introspection_mode,
        ctx.registry@.enable_federation,
        ctx.registry@.has_entities(),
        ctx.item.name@,
    )
}

/// Where the field that `ctx` resolves is routed.
///
/// The sub-resolvers of `__schema`, `__type` and `_service` get a copy of the
/// context that is marked as resolving for introspection. A required
/// argument that is missing or misshapen is an error at the position of the
/// field.
pub open spec fn route_of<'a>(ctx: Context<'a>) -> Result<Route<'a>, ServerError> {
    match route_kind_of(ctx) {
        RouteKind::Schema => Ok(Route::Schema { ctx: ctx.spec_for_introspection() }),
        RouteKind::Type => match argument_of(ctx.item.arguments@, "name"@) {
            Some(Value::String(name)) => Ok(
                Route::Type { ctx: ctx.spec_for_introspection(), name: &name },
            ),
            _ => Err(ctx.argument_error("name")),
        },
        RouteKind::NoValue => Ok(Route::NoValue),
        RouteKind::Entities => match argument_of(ctx.item.arguments@, "representations"@) {
            Some(Value::List(items)) => Ok(Route::Entities { representations: &items }),
            _ => Err(ctx.argument_error("representations")),
        },
        RouteKind::Service => Ok(
            Route::Service {
                ctx: ctx.spec_for_introspection(),
                options: SdlExportOptions { federation: true },
            },
        ),
        RouteKind::Delegate => Ok(Route::Delegate),
    }
}

/// Every field takes exactly one path: a route goes the way that the modes,
/// the federation flags and the field's name decide, and an error arises
/// only on the two paths that read a required argument.
pub proof fn lemma_one_path(ctx: Context)
    ensures
        match route_of(ctx) {
            Ok(route) => route.kind() == route_kind_of(ctx),
            Err(error) => {
                ||| route_kind_of(ctx) == RouteKind::Type && error == ctx.argument_error("name")
                ||| route_kind_of(ctx) == RouteKind::Entities && error == ctx.argument_error(
                    "representations",
                )
            },
        },
{
}

/// Where either mode restricts the request to introspection, every field
/// other than `__schema` and `__type` has no value: it is not an error, and
/// it is not handed to the user-defined root type. The federation fields are
/// no exception, whatever the federation flags say.
pub proof fn lemma_introspection_only_silences(ctx: Context)
    requires
        ctx.registry@.introspection_mode == IntrospectionMode::IntrospectionOnly
            || ctx.introspection_mode == IntrospectionMode::IntrospectionOnly,
        ctx.item.name@ != "__schema"@,
        ctx.item.name@ != "__type"@,
    ensures
        route_of(ctx) == Ok::<Route, ServerError>(Route::NoValue),
{
}

/// `__schema` and `__type` are served only where both modes permit
/// introspection, and then they are served by introspection whatever else
/// holds.
pub proof fn lemma_introspection_needs_both_modes(
    schema_mode: IntrospectionMode,
    request_mode: IntrospectionMode,
    enable_federation: bool,
    has_entities: bool,
    name: Seq<char>,
)
    ensures
        ({
            let kind = spec_route_kind(
                schema_mode,
                request_mode,
                enable_federation,
                has_entities,
                name,
            );
            &&& kind == RouteKind::Schema <==> name == "__schema"@ && schema_mode
                != IntrospectionMode::Disabled && request_mode != IntrospectionMode::Disabled
            &&& kind == RouteKind::Type <==> name == "__type"@ && schema_mode
                != IntrospectionMode::Disabled && request_mode != IntrospectionMode::Disabled
        }),
{
    lemma_reserved_names_differ();
}

/// The four reserved field names are four different names.
pub proof fn lemma_reserved_names_differ()
    ensures
        "__schema"@ != "__type"@,
        "__schema"@ != "_entities"@,
        "__schema"@ != "_service"@,
        "__type"@ != "_entities"@,
        "__type"@ != "_service"@,
        "_entities"@ != "_service"@,
{
    reveal_strlit("__schema");
    reveal_strlit("__type");
    reveal_strlit("_entities");
    reveal_strlit("_service");
    assert("__schema"@.len() == 8);
    assert("__type"@.len() == 6);
    assert("_entities"@.len() == 9);
    assert("_service"@.len() == 8);
    assert("__schema"@[1] == '_');
    assert("_service"@[1] == 's');
}

/// While no mode restricts the request to introspection, `_entities` and
/// `_service` are served by federation as soon as federation is enabled or
/// an entity-bearing type is registered: either alone suffices. Where
/// neither holds, no field is served by federation.
pub proof fn lemma_federation_triggers(
    schema_mode: IntrospectionMode,
    request_mode: IntrospectionMode,
    enable_federation: bool,
    has_entities: bool,
    name: Seq<char>,
)
    requires
        !spec_is_introspection_only(schema_mode, request_mode),
    ensures
        ({
            let kind = spec_route_kind(
                schema_mode,
                request_mode,
                enable_federation,
                has_entities,
                name,
            );
            &&& kind == RouteKind::Entities <==> name == "_entities"@ && (enable_federation
                || has_entities)
            &&& kind == RouteKind::Service <==> name == "_service"@ && (enable_federation
                || has_entities)
        }),
{
    lemma_reserved_names_differ();
}

/// A type that a schema can register: it has a name and builds its own
/// metadata.
pub trait ObjectType {
    /// The name under which the type is registered.
    fn typename() -> String;

    /// Registers the type's metadata, with that of every type it refers to,
    /// and returns the type's name as a field refers to it.
    fn create_type_info(registry: &mut Registry) -> String;
}

/// The query root: it holds the user-defined root type `T` and nothing else.
/// `S` is the type that describes a schema, the result of `__schema`.
pub struct QueryRoot<T, S> {
    pub inner: T,
    pub schema: PhantomData<S>,
}

impl<T, S> QueryRoot<T, S> {
    /// The query root around `inner`.
    pub fn new(inner: T) -> (root: QueryRoot<T, S>)
        ensures
            root.inner == inner,
    {
        QueryRoot { inner, schema: PhantomData }
    }

    /// Decides the path of the field that `ctx` resolves.
    fn route_kind(ctx: &Context) -> (kind: RouteKind)
        ensures
            kind == route_kind_of(*ctx),
    {
        let schema_mode = ctx.registry.introspection_mode();
        let name = ctx.item.name.as_str();
        if can_introspect(schema_mode, ctx.introspection_mode) {
            if name.eq("__schema") {
                return RouteKind::Schema;
            } else if name.eq("__type") {
                return RouteKind::Type;
            }
        }
        if is_introspection_only(schema_mode, ctx.introspection_mode) {
            return RouteKind::NoValue;
        }
        if ctx.registry.enable_federation() || ctx.registry.has_entities() {
            if name.eq("_entities") {
                return RouteKind::Entities;
            } else if name.eq("_service") {
                return RouteKind::Service;
            }
        }
        RouteKind::Delegate
    }

    /// Routes the field that `ctx` resolves: to built-in introspection, to
    /// built-in federation metadata, to no value, or to the user-defined
    /// root type. Exactly one path is taken.
    pub fn resolve_field<'a>(&self, ctx: &Context<'a>) -> (route: Result<Route<'a>, ServerError>)
        ensures
            route == route_of(*ctx),
    {
        match Self::route_kind(ctx) {
            RouteKind::Schema => Ok(Route::Schema { ctx: ctx.for_introspection() }),
            RouteKind::Type => {
                let name = ctx.param_string("name")?;
                Ok(Route::Type { ctx: ctx.for_introspection(), name })
            },
            RouteKind::NoValue => Ok(Route::NoValue),
            RouteKind::Entities => {
                let representations = ctx.param_list("representations")?;
                Ok(Route::Entities { representations })
            },
            RouteKind::Service => Ok(
                Route::Service {
                    ctx: ctx.for_introspection(),
                    options: SdlExportOptions::new().federation(),
                },
            ),
            RouteKind::Delegate => Ok(Route::Delegate),
        }
    }
}

impl<T: ObjectType, S: ObjectType> ObjectType for QueryRoot<T, S> {
    /// The query root goes by the name of the user-defined root type.
    fn typename() -> (name: String)
        ensures
            call_ensures(T::typename, (), name),
    {
        T::typename()
    }

    /// Builds the metadata of the query root, when the schema is built and
    /// never for a request.
    ///
    /// The user-defined root type builds its metadata first, on the registry
    /// as it came, and what it returns is returned. Where the registry it
    /// leaves has introspection disabled, nothing more is done. Otherwise
    /// the schema description type registers itself on that registry, and
    /// the object type that the root type goes by gets the descriptors of
    /// `__schema` and `__type`, each unless one of that name is there; the
    /// result type of `__schema` is what the schema description type
    /// returned.
    fn create_type_info(registry: &mut Registry) -> (root: String)
        ensures
            exists|handed: &mut Registry|
                {
                    &&& mut_ref_current(handed) == *old(registry)
                    &&& #[trigger] call_ensures(T::create_type_info, (handed,), root)
                    &&& if mut_ref_future(handed)@.introspection_mode.permits_introspection() {
                        exists|described: &mut Registry, schema_type: String, name: String|
                            {
                                &&& mut_ref_current(described) == mut_ref_future(handed)
                                &&& #[trigger] call_ensures(
                                    S::create_type_info,
                                    (described,),
                                    schema_type,
                                )
                                &&& #[trigger] call_ensures(T::typename, (), name)
                                &&& final(registry)@ == with_introspection(
                                    mut_ref_future(described)@,
                                    name@,
                                    schema_type@,
                                )
                                &&& shows_introspection(final(registry)@, name@)
                            }
                    } else {
                        *final(registry) == mut_ref_future(handed)
                    }
                },
    {
        let root = T::create_type_info(registry);
        if permits(registry.introspection_mode()) {
            let schema_type = S::create_type_info(registry);
            let name = T::typename();
            registry.add_introspection_fields(name.as_str(), schema_type);
        }
        root
    }
}

} // verus!
