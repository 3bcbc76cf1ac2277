//! Field descriptors: the metadata a type's field map holds for each field.

use crate::arg_map::{ArgMap, Args};
use vstd::prelude::*;

verus! {

/// Whether a field is deprecated, and why.
#[derive(Clone, Copy, Debug, PartialEq, Eq)]
pub enum Deprecation {
    NoDeprecated,
    Deprecated { reason: Option<&'static str> },
}

/// What a `Deprecation` stands for in specifications.
pub enum DeprecationView {
    NoDeprecated,
    Deprecated { reason: Option<Seq<char>> },
}

impl View for Deprecation {
    type V = DeprecationView;

    open spec fn view(&self) -> DeprecationView {
        match self {
            Deprecation::NoDeprecated => DeprecationView::NoDeprecated,
            Deprecation::Deprecated { reason } => DeprecationView::Deprecated {
                reason: reason.deep_view(),
            },
        }
    }
}

/// How the answer of a field may be cached.
#[derive(Clone, Copy, Debug, PartialEq, Eq, Structural)]
pub struct CacheControl {
    /// Whether a shared cache may hold the answer.
    pub public: bool,
    /// For how many seconds the answer stays fresh; 0 sets no limit.
    pub max_age: usize,
}

/// The cache control of a field that asks for none: public, without a limit.
pub open spec fn default_cache_control() -> CacheControl {
    CacheControl { public: true, max_age: 0 }
}

/// The description of one field of an object or interface type.
///
/// Everything but the name, the description, the arguments and the result
/// type has a default: a field is not deprecated, its answer may be cached
/// without limit, and no federation flag is set. A descriptor holds data
/// only: a visibility predicate or a complexity function, which are
/// functions of a request, is the engine's to keep beside it.
#[derive(Debug, PartialEq, Eq)]
pub struct MetaField {
    pub name: String,
    pub description: Option<&'static str>,
    /// The arguments by name, in declaration order.
    pub args: ArgMap,
    /// The name of the field's result type.
    pub ty: String,
    pub deprecation: Deprecation,
    pub cache_control: CacheControl,
    pub external: bool,
    pub requires: Option<&'static str>,
    pub provides: Option<&'static str>,
    pub shareable: bool,
    pub inaccessible: bool,
    pub tags: Vec<&'static str>,
    pub override_from: Option<&'static str>,
}

/// What a `MetaField` stands for in specifications.
pub struct MetaFieldView {
    pub name: Seq<char>,
    pub description: Option<Seq<char>>,
    pub args: Args,
    pub ty: Seq<char>,
    pub deprecation: DeprecationView,
    pub cache_control: CacheControl,
    pub external: bool,
    pub requires: Option<Seq<char>>,
    pub provides: Option<Seq<char>>,
    pub shareable: bool,
    pub inaccessible: bool,
    pub tags: Seq<Seq<char>>,
    pub override_from: Option<Seq<char>>,
}

impl View for MetaField {
    type V = MetaFieldView;

    open spec fn view(&self) -> MetaFieldView {
        MetaFieldView {
            name: self.name@,
            description: self.description.deep_view(),
            args: self.args@,
            ty: self.ty@,
            deprecation: self.deprecation@,
            cache_control: self.cache_control,
            external: self.external,
            requires: self.requires.deep_view(),
            provides: self.provides.deep_view(),
            shareable: self.shareable,
            inaccessible: self.inaccessible,
            tags: self.tags.deep_view(),
            override_from: self.override_from.deep_view(),
        }
    }
}

impl DeepView for MetaField {
    type V = MetaFieldView;

    open spec fn deep_view(&self) -> MetaFieldView {
        self.view()
    }
}

/// A field described by its name, description, arguments and result type
/// alone: everything else has its default.
pub open spec fn field_view(
    name: Seq<char>,
    description: Option<Seq<char>>,
    args: Args,
    ty: Seq<char>,
) -> MetaFieldView {
    MetaFieldView {
        name,
        description,
        args,
        ty,
        deprecation: DeprecationView::NoDeprecated,
        cache_control: default_cache_control(),
        external: false,
        requires: None,
        provides: None,
        shareable: false,
        inaccessible: false,
        tags: Seq::empty(),
        override_from: None,
    }
}

impl MetaField {
    /// Describes a field by its name, description, arguments and result type;
    /// everything else takes its default.
    pub fn new(
        name: String,
        description: Option<&'static str>,
        args: ArgMap,
        ty: String,
    ) -> (field: MetaField)
        ensures
            field@ == field_view(name@, description.deep_view(), args@, ty@),
    {
        let field = MetaField {
            name,
            description,
            args,
            ty,
            deprecation: Deprecation::NoDeprecated,
            cache_control: CacheControl { public: true, max_age: 0 },
            external: false,
            requires: None,
            provides: None,
            shareable: false,
            inaccessible: false,
            tags: Vec::new(),
            override_from: None,
        };
        assert(field@.tags =~= Seq::empty());
        field
    }
}

} // verus!
