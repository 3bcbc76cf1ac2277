//! Argument descriptors: the metadata a field holds for each of its
//! arguments.

use vstd::prelude::*;

verus! {

/// The description of one argument of a field. It holds data only; a
/// visibility predicate is the engine's to keep beside it.
#[derive(Clone, Debug, PartialEq, Eq)]
pub struct MetaInputValue {
    pub name: &'static str,
    pub description: Option<&'static str>,
    /// The argument's type, in schema notation (`String!`).
    pub ty: String,
    pub default_value: Option<String>,
    pub inaccessible: bool,
    pub tags: Vec<&'static str>,
    pub is_secret: bool,
}

/// What a `MetaInputValue` stands for in specifications.
pub struct MetaInputValueView {
    pub name: Seq<char>,
    pub description: Option<Seq<char>>,
    pub ty: Seq<char>,
    pub default_value: Option<Seq<char>>,
    pub inaccessible: bool,
    pub tags: Seq<Seq<char>>,
    pub is_secret: bool,
}

impl View for MetaInputValue {
    type V = MetaInputValueView;

    open spec fn view(&self) -> MetaInputValueView {
        MetaInputValueView {
            name: self.name@,
            description: self.description.deep_view(),
            ty: self.ty@,
            default_value: self.default_value.deep_view(),
            inaccessible: self.inaccessible,
            tags: self.tags.deep_view(),
            is_secret: self.is_secret,
        }
    }
}

impl DeepView for MetaInputValue {
    type V = MetaInputValueView;

    open spec fn deep_view(&self) -> MetaInputValueView {
        self.view()
    }
}

/// An argument described by its name and type alone.
pub open spec fn input_value_view(name: Seq<char>, ty: Seq<char>) -> MetaInputValueView {
    MetaInputValueView {
        name,
        description: None,
        ty,
        default_value: None,
        inaccessible: false,
        tags: Seq::empty(),
        is_secret: false,
    }
}

impl MetaInputValue {
    /// Describes an argument by its name and type; everything else takes its
    /// default.
    pub fn new(name: &'static str, ty: String) -> (value: MetaInputValue)
        ensures
            value@ == input_value_view(name@, ty@),
    {
        let value = MetaInputValue {
            name,
            description: None,
            ty,
            default_value: None,
            inaccessible: false,
            tags: Vec::new(),
            is_secret: false,
        };
        assert(value@.tags =~= Seq::empty());
        value
    }
}

} // verus!
