//! The schema registry as the dispatcher reads it: the two schema-level flags
//! and the type table.

use crate::field_map::{distinct_keys, occurs_once, Entries, FieldMap};
use crate::mode::IntrospectionMode;
use crate::type_info::{
    add_introspection_fields, lemma_introspection_fields_once, with_introspection_fields,
};
use vstd::prelude::*;

verus! {

/// The kind of a registered type.
#[derive(Clone, Copy, Debug, PartialEq, Eq, Structural)]
pub enum TypeKind {
    Scalar,
    Object,
    Interface,
    Union,
    Enum,
    InputObject,
}

/// A registered type.
#[derive(Debug, PartialEq, Eq)]
pub struct MetaType {
    pub name: String,
    pub kind: TypeKind,
    /// The descriptors of the type's fields.
    pub fields: FieldMap,
    /// The key field sets that make the type an entity; empty for a type
    /// that is none.
    pub keys: Vec<String>,
}

/// What a `MetaType` stands for in specifications.
pub struct MetaTypeView {
    pub name: Seq<char>,
    pub kind: TypeKind,
    pub fields: Entries,
    pub keys: Seq<Seq<char>>,
}

impl MetaTypeView {
    /// An entity-bearing type: an object or interface type with a key.
    pub open spec fn is_entity(self) -> bool {
        (self.kind == TypeKind::Object || self.kind == TypeKind::Interface) && self.keys.len() > 0
    }
}

impl View for MetaType {
    type V = MetaTypeView;

    open spec fn view(&self) -> MetaTypeView {
        MetaTypeView {
            name: self.name@,
            kind: self.kind,
            fields: self.fields@,
            keys: self.keys.deep_view(),
        }
    }
}

impl DeepView for MetaType {
    type V = MetaTypeView;

    open spec fn deep_view(&self) -> MetaTypeView {
        self.view()
    }
}

/// Whether a type is registered under `name`.
pub open spec fn has_type(types: Seq<MetaTypeView>, name: Seq<char>) -> bool {
    exists|i: int| 0 <= i < types.len() && (#[trigger] types[i]).name == name
}

/// The position of a type registered under `name`.
pub open spec fn type_index(types: Seq<MetaTypeView>, name: Seq<char>) -> int {
    choose|i: int| 0 <= i < types.len() && (#[trigger] types[i]).name == name
}

/// No two types share a name.
pub open spec fn distinct_names(types: Seq<MetaTypeView>) -> bool {
    forall|i: int, j: int|
        0 <= i < j < types.len() ==> (#[trigger] types[i]).name != (#[trigger] types[j]).name
}

/// What a `Registry` stands for in specifications.
pub struct RegistryView {
    pub types: Seq<MetaTypeView>,
    pub introspection_mode: IntrospectionMode,
    pub enable_federation: bool,
}

impl RegistryView {
    /// What holds of every registry: no two types share a name, and no field
    /// map holds a name twice.
    pub open spec fn well_formed(self) -> bool {
        &&& distinct_names(self.types)
        &&& forall|i: int|
            0 <= i < self.types.len() ==> distinct_keys((#[trigger] self.types[i]).fields)
    }

    /// Whether at least one entity-bearing type is registered.
    pub open spec fn has_entities(self) -> bool {
        exists|i: int| 0 <= i < self.types.len() && (#[trigger] self.types[i]).is_entity()
    }
}

/// The type table after `ty` was registered: a type of the same name keeps
/// its place and is replaced, a new type comes last.
pub open spec fn types_with(types: Seq<MetaTypeView>, ty: MetaTypeView) -> Seq<MetaTypeView> {
    if has_type(types, ty.name) {
        types.update(type_index(types, ty.name), ty)
    } else {
        types.push(ty)
    }
}

/// Whether `name` is among the names in `names`.
pub open spec fn names_contain(names: Seq<Seq<char>>, name: Seq<char>) -> bool {
    exists|i: int| 0 <= i < names.len() && #[trigger] names[i] == name
}

/// The type that `__type` describes for `name`: the type registered under
/// `name`, if there is one and its name is among the visible names.
pub open spec fn visible_type(
    types: Seq<MetaTypeView>,
    visible: Seq<Seq<char>>,
    name: Seq<char>,
) -> Option<MetaTypeView> {
    if has_type(types, name) && names_contain(visible, name) {
        Some(types[type_index(types, name)])
    } else {
        None
    }
}

/// The registry after the metadata of the type named `root` was augmented:
/// where `root` names an object type, that type's field map has the two
/// introspection descriptors, `__schema` with the result type `schema_type`
/// unless a descriptor was there; in every other case the registry is
/// unchanged. No type is added or removed, and no other type is touched.
pub open spec fn with_introspection(
    registry: RegistryView,
    root: Seq<char>,
    schema_type: Seq<char>,
) -> RegistryView {
    if has_type(registry.types, root) && registry.types[type_index(registry.types, root)].kind
        == TypeKind::Object {
        let i = type_index(registry.types, root);
        let ty = registry.types[i];
        RegistryView {
            types: registry.types.update(
                i,
                MetaTypeView { fields: with_introspection_fields(ty.fields, schema_type), ..ty },
            ),
            ..registry
        }
    } else {
        registry
    }
}

/// Whether the metadata of the type named `root` shows introspection: where
/// `root` names an object type, that type's field map holds exactly one
/// descriptor under `__schema` and exactly one under `__type`.
pub open spec fn shows_introspection(registry: RegistryView, root: Seq<char>) -> bool {
    has_type(registry.types, root) && registry.types[type_index(registry.types, root)].kind
        == TypeKind::Object ==> {
        let fields = registry.types[type_index(registry.types, root)].fields;
        occurs_once(fields, "__schema"@) && occurs_once(fields, "__type"@)
    }
}

/// `__type` has a type to describe exactly for a name that is registered and
/// visible. A name that is not registered, or registered but not among the
/// visible names, has none.
pub proof fn lemma_visible_type(types: Seq<MetaTypeView>, visible: Seq<Seq<char>>, name: Seq<char>)
    ensures
        visible_type(types, visible, name) is Some <==> has_type(types, name) && names_contain(
            visible,
            name,
        ),
        !has_type(types, name) ==> visible_type(types, visible, name) is None,
        !names_contain(visible, name) ==> visible_type(types, visible, name) is None,
        visible_type(types, visible, name) matches Some(ty) ==> ty.name == name,
{
}

/// The augmented metadata of an object type `root` holds `__schema` and
/// `__type` exactly once each, and to augment it a second time changes
/// nothing, whatever result type the second build names.
pub proof fn lemma_augmentation_idempotent(
    registry: RegistryView,
    root: Seq<char>,
    schema_type: Seq<char>,
    again: Seq<char>,
)
    requires
        registry.well_formed(),
    ensures
        shows_introspection(with_introspection(registry, root, schema_type), root),
        with_introspection(registry, root, schema_type).well_formed(),
        with_introspection(with_introspection(registry, root, schema_type), root, again)
            == with_introspection(registry, root, schema_type),
{
    let once = with_introspection(registry, root, schema_type);
    if has_type(registry.types, root) && registry.types[type_index(registry.types, root)].kind
        == TypeKind::Object {
        let i = type_index(registry.types, root);
        let fields = registry.types[i].fields;
        lemma_introspection_fields_once(fields, schema_type, again);
        assert(once.types[i].name == root);
        assert(type_index(once.types, root) == i) by {
            let k = type_index(once.types, root);
            assert(once.types[k].name == root);
            if k < i {
                assert(registry.types[k].name != registry.types[i].name);
            } else if i < k {
                assert(registry.types[i].name != registry.types[k].name);
            }
        }
        assert(once.well_formed()) by {
            assert forall|a: int, b: int| 0 <= a < b < once.types.len() implies (
            #[trigger] once.types[a]).name != (#[trigger] once.types[b]).name by {
                assert(registry.types[a].name != registry.types[b].name);
            }
            assert forall|a: int| 0 <= a < once.types.len() implies distinct_keys(
                (#[trigger] once.types[a]).fields,
            ) by {
                if a != i {
                    assert(distinct_keys(registry.types[a].fields));
                }
            }
        }
        let twice = with_introspection(once, root, again);
        assert(twice.types =~= once.types);
    }
}

/// Decides whether `name` is among `names`.
pub fn contains_name(names: &Vec<String>, name: &str) -> (found: bool)
    ensures
        found == names_contain(names.deep_view(), name@),
{
    let mut i: usize = 0;
    while i < names.len()
        invariant
            i <= names.len(),
            forall|j: int| 0 <= j < i ==> #[trigger] names.deep_view()[j] != name@,
        decreases names.len() - i,
    {
        if names[i].as_str().eq(name) {
            assert(names.deep_view()[i as int] == name@);
            return true;
        }
        i += 1;
    }
    false
}

/// The schema registry: the type table with the schema-level introspection
/// mode and federation flag. No two registered types share a name.
#[derive(Debug, PartialEq, Eq)]
pub struct Registry {
    types: Vec<MetaType>,
    introspection_mode: IntrospectionMode,
    enable_federation: bool,
}

impl View for Registry {
    type V = RegistryView;

    closed spec fn view(&self) -> RegistryView {
        RegistryView {
            types: self.types.deep_view(),
            introspection_mode: self.introspection_mode,
            enable_federation: self.enable_federation,
        }
    }
}

impl Registry {
    /// What holds of every registry: no two types share a name, and no field
    /// map holds a name twice.
    #[verifier::type_invariant]
    pub closed spec fn well_formed(self) -> bool {
        &&& distinct_names(self.types.deep_view())
        &&& forall|i: int|
            0 <= i < self.types.len() ==> distinct_keys((#[trigger] self.types.deep_view()[i]).fields)
    }

    /// The view of a registry is well formed.
    pub proof fn lemma_view_well_formed(self)
        requires
            self.well_formed(),
        ensures
            self@.well_formed(),
    {
    }

    /// A registry without types.
    pub fn new(introspection_mode: IntrospectionMode, enable_federation: bool) -> (registry: Registry)
        ensures
            registry@.types == Seq::<MetaTypeView>::empty(),
            registry@.introspection_mode == introspection_mode,
            registry@.enable_federation == enable_federation,
    {
        Registry { types: Vec::new(), introspection_mode, enable_federation }
    }

    /// The schema-level introspection mode.
    pub fn introspection_mode(&self) -> (mode: IntrospectionMode)
        ensures
            mode == self@.introspection_mode,
    {
        self.introspection_mode
    }

    /// Whether federation is enabled for the schema.
    pub fn enable_federation(&self) -> (enabled: bool)
        ensures
            enabled == self@.enable_federation,
    {
        self.enable_federation
    }

    /// The registered types, in the order of the table.
    pub fn types(&self) -> (types: &Vec<MetaType>)
        ensures
            types.deep_view() == self@.types,
    {
        &self.types
    }

    /// Where the type named `name` stands in the table.
    fn position(&self, name: &str) -> (found: Option<usize>)
        ensures
            match found {
                Some(i) => i < self@.types.len() && self@.types[i as int].name == name@,
                None => !has_type(self@.types, name@),
            },
    {
        let mut i: usize = 0;
        while i < self.types.len()
            invariant
                i <= self.types.len(),
                forall|j: int| 0 <= j < i ==> (#[trigger] self@.types[j]).name != name@,
            decreases self.types.len() - i,
        {
            if self.types[i].name.as_str().eq(name) {
                return Some(i);
            }
            i += 1;
        }
        None
    }

    /// The type registered under `name`.
    pub fn get_type(&self, name: &str) -> (found: Option<&MetaType>)
        ensures
            match found {
                Some(ty) => has_type(self@.types, name@) && ty@ == self@.types[type_index(
                    self@.types,
                    name@,
                )],
                None => !has_type(self@.types, name@),
            },
    {
        proof {
            use_type_invariant(self);
        }
        match self.position(name) {
            Some(i) => Some(&self.types[i]),
            None => None,
        }
    }

    /// Registers `ty` under its name. A type registered under the same name
    /// is replaced.
    pub fn insert_type(&mut self, ty: MetaType)
        ensures
            final(self)@.types == types_with(old(self)@.types, ty@),
            final(self)@.introspection_mode == old(self)@.introspection_mode,
            final(self)@.enable_federation == old(self)@.enable_federation,
    {
        proof {
            use_type_invariant(&*self);
            use_type_invariant(&ty.fields);
            ty.fields.lemma_names_distinct();
        }
        let found = self.position(ty.name.as_str());
        let mut types: Vec<MetaType> = Vec::new();
        std::mem::swap(&mut self.types, &mut types);
        let ghost before = types.deep_view();
        match found {
            Some(i) => {
                assert(i as int == type_index(before, ty@.name));
                types[i] = ty;
                assert(types.deep_view() =~= before.update(i as int, ty@));
            },
            None => {
                types.push(ty);
                assert(types.deep_view() =~= before.push(ty@));
            },
        }
        std::mem::swap(&mut self.types, &mut types);
    }

    /// Whether at least one entity-bearing type is registered.
    pub fn has_entities(&self) -> (found: bool)
        ensures
            found == self@.has_entities(),
    {
        let mut i: usize = 0;
        while i < self.types.len()
            invariant
                i <= self.types.len(),
                forall|j: int| 0 <= j < i ==> !(#[trigger] self@.types[j]).is_entity(),
            decreases self.types.len() - i,
        {
            let ty = &self.types[i];
            let keyed = match ty.kind {
                TypeKind::Object | TypeKind::Interface => ty.keys.len() > 0,
                _ => false,
            };
            if keyed {
                assert(self@.types[i as int].is_entity());
                return true;
            }
            i += 1;
        }
        false
    }

    /// The single-type form of schema introspection: looks `name` up in the
    /// type table. `visible_types` holds the names of the types that the
    /// visibility predicate admits for the current request. A name that is
    /// not registered, or registered but not visible, has no type: the
    /// answer to `__type` is then null, not an error.
    pub fn find_visible_type(&self, visible_types: &Vec<String>, name: &str) -> (found: Option<
        &MetaType,
    >)
        ensures
            found.deep_view() == visible_type(self@.types, visible_types.deep_view(), name@),
    {
        if contains_name(visible_types, name) {
            self.get_type(name)
        } else {
            None
        }
    }

    /// Adds the descriptors of `__schema` and `__type` to the field map of
    /// the object type named `root`, each unless a descriptor of that name
    /// is there. `schema_type` is the result type of `__schema`.
    ///
    /// Whether the schema serves introspection at all is for the caller to
    /// decide: this function does not read the mode.
    pub fn add_introspection_fields(&mut self, root: &str, schema_type: String)
        ensures
            final(self)@ == with_introspection(old(self)@, root@, schema_type@),
            shows_introspection(final(self)@, root@),
            forall|again: Seq<char>| #[trigger]
                with_introspection(final(self)@, root@, again) == final(self)@,
    {
        proof {
            use_type_invariant(&*self);
            assert forall|again: Seq<char>| #[trigger]
                with_introspection(
                    with_introspection(self@, root@, schema_type@),
                    root@,
                    again,
                ) == with_introspection(self@, root@, schema_type@) by {
                lemma_augmentation_idempotent(self@, root@, schema_type@, again);
            }
            lemma_augmentation_idempotent(self@, root@, schema_type@, schema_type@);
        }
        let found = self.position(root);
        if let Some(i) = found {
            let mut types: Vec<MetaType> = Vec::new();
            std::mem::swap(&mut self.types, &mut types);
            let ghost before = types.deep_view();
            assert(i as int == type_index(before, root@));
            if types[i].kind == TypeKind::Object {
                add_introspection_fields(&mut types[i].fields, schema_type);
                assert(types.deep_view() =~= before.update(
                    i as int,
                    MetaTypeView {
                        fields: with_introspection_fields(before[i as int].fields, schema_type@),
                        ..before[i as int]
                    },
                ));
            }
            std::mem::swap(&mut self.types, &mut types);
        }
    }
}

} // verus!
