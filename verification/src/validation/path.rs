//! Where a node stands in a document.

use crate::sequences::vec_eq;
use vstd::prelude::*;

verus! {

/// One step on the way from the root of a document to a node.
#[derive(Debug, Eq)]
pub enum ValidationPathComponent {
    /// A field of a record.
    Struct { struct_name: String, field_name: String },
    /// A position in an ordered sequence, counted from zero.
    Array { index: usize },
    /// The active case of a tagged union.
    EnumVariant { variant_name: String },
}

/// The mathematical model of a [`ValidationPathComponent`].
pub enum PathStep {
    Field { record: Seq<char>, field: Seq<char> },
    Index { position: nat },
    Case { name: Seq<char> },
}

impl View for ValidationPathComponent {
    type V = PathStep;

    open spec fn view(&self) -> PathStep {
        match *self {
            ValidationPathComponent::Struct { struct_name, field_name } => PathStep::Field {
                record: struct_name@,
                field: field_name@,
            },
            ValidationPathComponent::Array { index } => PathStep::Index { position: index as nat },
            ValidationPathComponent::EnumVariant { variant_name } => PathStep::Case {
                name: variant_name@,
            },
        }
    }
}

impl DeepView for ValidationPathComponent {
    type V = PathStep;

    open spec fn deep_view(&self) -> PathStep {
        self@
    }
}

impl Clone for ValidationPathComponent {
    fn clone(&self) -> (copy: Self)
        ensures
            copy == *self,
    {
        match self {
            ValidationPathComponent::Struct { struct_name, field_name } => {
                ValidationPathComponent::Struct {
                    struct_name: struct_name.clone(),
                    field_name: field_name.clone(),
                }
            },
            ValidationPathComponent::Array { index } => ValidationPathComponent::Array {
                index: *index,
            },
            ValidationPathComponent::EnumVariant { variant_name } => {
                ValidationPathComponent::EnumVariant { variant_name: variant_name.clone() }
            },
        }
    }
}

impl PartialEq for ValidationPathComponent {
    fn eq(&self, other: &Self) -> (equal: bool) {
        match (self, other) {
            (
                ValidationPathComponent::Struct { struct_name: a, field_name: b },
                ValidationPathComponent::Struct { struct_name: c, field_name: d },
            ) => *a == *c && *b == *d,
            (
                ValidationPathComponent::Array { index: a },
                ValidationPathComponent::Array { index: b },
            ) => *a == *b,
            (
                ValidationPathComponent::EnumVariant { variant_name: a },
                ValidationPathComponent::EnumVariant { variant_name: b },
            ) => *a == *b,
            _ => false,
        }
    }
}

impl vstd::std_specs::cmp::PartialEqSpecImpl for ValidationPathComponent {
    open spec fn obeys_eq_spec() -> bool {
        true
    }

    open spec fn eq_spec(&self, other: &Self) -> bool {
        self@ == other@
    }
}

/// The place of a node in a document: the steps that lead to it from the
/// root, in order. The empty context is the root itself.
#[derive(Debug, Eq)]
pub struct ValidationContext(pub Vec<ValidationPathComponent>);

impl View for ValidationContext {
    type V = Seq<PathStep>;

    open spec fn view(&self) -> Seq<PathStep> {
        self.0.deep_view()
    }
}

impl Clone for ValidationContext {
    fn clone(&self) -> (copy: Self)
        ensures
            copy@ == self@,
    {
        let copy = ValidationContext(self.0.clone());
        assert(copy@ =~= self@);
        copy
    }
}

impl Default for ValidationContext {
    fn default() -> (root: Self)
        ensures
            root@ == Seq::<PathStep>::empty(),
    {
        Self::new()
    }
}

impl PartialEq for ValidationContext {
    fn eq(&self, other: &Self) -> (equal: bool) {
        vec_eq(&self.0, &other.0)
    }
}

impl vstd::std_specs::cmp::PartialEqSpecImpl for ValidationContext {
    open spec fn obeys_eq_spec() -> bool {
        true
    }

    open spec fn eq_spec(&self, other: &Self) -> bool {
        self@ == other@
    }
}

impl ValidationContext {
    /// The root of a document.
    pub fn new() -> (root: Self)
        ensures
            root@ == Seq::<PathStep>::empty(),
    {
        let root = ValidationContext(Vec::new());
        assert(root@ =~= Seq::<PathStep>::empty());
        root
    }

    /// A new context that holds the steps of this one followed by
    /// `components`. This context itself stays as it was.
    pub fn extend_context(&self, components: Vec<ValidationPathComponent>) -> (extended: Self)
        ensures
            extended@ == self@ + components.deep_view(),
    {
        let mut steps = self.0.clone();
        let mut rest = components;
        steps.append(&mut rest);
        let extended = ValidationContext(steps);
        assert(extended@ =~= self@ + components.deep_view());
        extended
    }

    /// The context of the field `field_name` of the record `struct_name`
    /// that stands at this context.
    pub fn with_struct(&self, struct_name: &str, field_name: &str) -> (extended: Self)
        ensures
            extended@ == self@.push(PathStep::Field { record: struct_name@, field: field_name@ }),
    {
        let mut components: Vec<ValidationPathComponent> = Vec::new();
        components.push(
            ValidationPathComponent::Struct {
                struct_name: struct_name.to_owned(),
                field_name: field_name.to_owned(),
            },
        );
        let extended = self.extend_context(components);
        assert(extended@ =~= self@.push(
            PathStep::Field { record: struct_name@, field: field_name@ },
        ));
        extended
    }

    /// The context of the element at `index` of the sequence that stands
    /// at this context.
    pub fn with_index(&self, index: usize) -> (extended: Self)
        ensures
            extended@ == self@.push(PathStep::Index { position: index as nat }),
    {
        let mut components: Vec<ValidationPathComponent> = Vec::new();
        components.push(ValidationPathComponent::Array { index });
        let extended = self.extend_context(components);
        assert(extended@ =~= self@.push(PathStep::Index { position: index as nat }));
        extended
    }

    /// The context of the payload of the case `variant_name` of the tagged
    /// union that stands at this context.
    pub fn with_enum_variant(&self, variant_name: &str) -> (extended: Self)
        ensures
            extended@ == self@.push(PathStep::Case { name: variant_name@ }),
    {
        let mut components: Vec<ValidationPathComponent> = Vec::new();
        components.push(
            ValidationPathComponent::EnumVariant { variant_name: variant_name.to_owned() },
        );
        let extended = self.extend_context(components);
        assert(extended@ =~= self@.push(PathStep::Case { name: variant_name@ }));
        extended
    }
}

/// The place of the field `field` of the record `record` that stands at
/// `path`.
pub open spec fn field_path(path: Seq<PathStep>, record: Seq<char>, field: Seq<char>) -> Seq<
    PathStep,
> {
    path.push(PathStep::Field { record, field })
}

/// The place of the payload of the case `name` of the tagged union that
/// stands at `path`.
pub open spec fn case_path(path: Seq<PathStep>, name: Seq<char>) -> Seq<PathStep> {
    path.push(PathStep::Case { name })
}

/// The place of the element at `position` of the sequence that stands at
/// `path`.
pub open spec fn index_path(path: Seq<PathStep>, position: nat) -> Seq<PathStep> {
    path.push(PathStep::Index { position })
}

} // verus!
