//! Root-query dispatch for a GraphQL execution engine.
//!
//! For each top-level field requested against the query root, the dispatcher
//! decides whether the field is served by built-in introspection, by built-in
//! federation metadata, or by the user-defined root resolver.

pub mod arg_map;
pub mod context;
pub mod error;
pub mod federation;
pub mod field;
pub mod field_map;
pub mod input_value;
pub mod introspection;
pub mod mode;
pub mod query_root;
pub mod registry;
pub mod text;
pub mod type_info;
pub mod value;
