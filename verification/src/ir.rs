//! The GraphQL intermediate representation that the refetch generation
//! works on: fragments, operations, selections, and structured
//! validation diagnostics.
//!
//! Every node is immutable once built. Names are plain strings; source
//! locations are carried through unchanged so that every diagnostic can
//! point back at the offending fragment.

use vstd::prelude::*;
use crate::schema::{FieldID, Type, TypeReference};

verus! {

/// A region of a source document, kept on every named IR node so that
/// diagnostics can cite it.
#[derive(Clone, Copy, PartialEq, Eq, Structural, Debug)]
pub struct Location {
    pub start: u32,
    pub end: u32,
}

/// A value together with the source location it was parsed at.
#[derive(Debug)]
pub struct WithLocation<T> {
    pub location: Location,
    pub item: T,
}

impl<T> WithLocation<T> {
    pub fn new(location: Location, item: T) -> (r: Self)
        ensures
            r.location == location,
            r.item == item,
    {
        WithLocation { location, item }
    }
}

impl Clone for WithLocation<String> {
    fn clone(&self) -> (r: Self)
        ensures
            r == *self,
    {
        WithLocation { location: self.location, item: self.item.clone() }
    }
}

/// Which kind of operation a synthetic definition is.
#[derive(Clone, Copy, PartialEq, Eq, Structural, Debug)]
pub enum OperationKind {
    Query,
    Mutation,
    Subscription,
}

/// A constant value usable as the default of a variable definition.
#[derive(Debug)]
pub enum ConstantValue {
    Null,
    Int(i64),
    Boolean(bool),
    Str(String),
    Enum(String),
}

impl Clone for ConstantValue {
    fn clone(&self) -> (r: Self)
        ensures
            r == *self,
    {
        match self {
            ConstantValue::Null => ConstantValue::Null,
            ConstantValue::Int(v) => ConstantValue::Int(*v),
            ConstantValue::Boolean(v) => ConstantValue::Boolean(*v),
            ConstantValue::Str(v) => ConstantValue::Str(v.clone()),
            ConstantValue::Enum(v) => ConstantValue::Enum(v.clone()),
        }
    }
}

/// The value handed to an argument of a field or directive.
#[derive(Debug)]
pub enum ArgumentValue {
    Constant(ConstantValue),
    Variable(WithLocation<String>),
}

/// A named argument on a field, directive or fragment spread.
#[derive(Debug)]
pub struct Argument {
    pub name: WithLocation<String>,
    pub value: ArgumentValue,
}

/// A directive attached to a selection or definition.
#[derive(Debug)]
pub struct Directive {
    pub name: WithLocation<String>,
    pub arguments: Vec<Argument>,
}

/// One declared variable of a fragment or operation, with its optional
/// default value.
#[derive(Debug)]
pub struct VariableDefinition {
    pub name: WithLocation<String>,
    pub type_: TypeReference,
    pub default_value: Option<ConstantValue>,
}

impl Clone for VariableDefinition {
    fn clone(&self) -> (r: Self)
        ensures
            r == *self,
    {
        VariableDefinition {
            name: self.name.clone(),
            type_: self.type_.clone(),
            default_value: match &self.default_value {
                Some(v) => Some(v.clone()),
                None => None,
            },
        }
    }
}

/// One selection inside a selection set.
#[derive(Debug)]
pub enum Selection {
    ScalarField(std::sync::Arc<ScalarField>),
    LinkedField(std::sync::Arc<LinkedField>),
    FragmentSpread(std::sync::Arc<FragmentSpread>),
    InlineFragment(std::sync::Arc<InlineFragment>),
}

/// A field selection whose value is a leaf.
#[derive(Debug)]
pub struct ScalarField {
    pub alias: Option<WithLocation<String>>,
    pub definition: WithLocation<FieldID>,
    pub arguments: Vec<Argument>,
    pub directives: Vec<Directive>,
}

/// A field selection whose value is itself an object, carrying nested
/// selections.
#[derive(Debug)]
pub struct LinkedField {
    pub alias: Option<WithLocation<String>>,
    pub definition: WithLocation<FieldID>,
    pub arguments: Vec<Argument>,
    pub directives: Vec<Directive>,
    pub selections: Vec<Selection>,
}

/// A reference to a named fragment, spread into a selection set.
#[derive(Debug)]
pub struct FragmentSpread {
    pub fragment: WithLocation<String>,
    pub arguments: Vec<Argument>,
    pub directives: Vec<Directive>,
}

/// An anonymous fragment with an optional type condition.
#[derive(Debug)]
pub struct InlineFragment {
    pub type_condition: Option<Type>,
    pub directives: Vec<Directive>,
    pub selections: Vec<Selection>,
}

/// A named, located GraphQL fragment, parsed upstream and shared by
/// reference across all strategies.
#[derive(Debug)]
pub struct FragmentDefinition {
    pub name: WithLocation<String>,
    pub type_condition: Type,
    pub variable_definitions: Vec<VariableDefinition>,
    pub directives: Vec<Directive>,
    pub selections: Vec<Selection>,
}

impl FragmentDefinition {
    /// A parsed fragment never declares the same variable name twice.
    pub open spec fn wf(self) -> bool {
        forall|i: int, j: int|
            0 <= i < j < self.variable_definitions@.len()
                ==> self.variable_definitions@[i].name.item@
                != self.variable_definitions@[j].name.item@
    }
}

/// A synthetic query/mutation/subscription definition.
#[derive(Debug)]
pub struct OperationDefinition {
    pub kind: OperationKind,
    pub name: WithLocation<String>,
    pub type_: Type,
    pub variable_definitions: Vec<VariableDefinition>,
    pub directives: Vec<Directive>,
    pub selections: Vec<Selection>,
}

/// The structured diagnostics a strategy can raise.
#[derive(Debug)]
pub enum ValidationMessage {
    /// The fragment's type condition is the viewer type, but the schema
    /// does not have the shape a viewer refetch needs.
    InvalidViewerSchemaForRefetchableFragmentOnViewer { fragment_name: String },
    /// No registered strategy recognizes the fragment's type condition.
    /// Carries the type condition's name and the descriptions of the
    /// strategies that were tried.
    UnsupportedRefetchableFragment {
        fragment_name: String,
        type_condition_name: String,
        supported: Vec<String>,
    },
}

/// A diagnostic with the source locations it applies to. Every error
/// surfaced by this library carries at least one location traceable to
/// the offending fragment.
#[derive(Debug)]
pub struct ValidationError {
    pub message: ValidationMessage,
    pub locations: Vec<Location>,
}

impl ValidationError {
    pub fn new(message: ValidationMessage, locations: Vec<Location>) -> (e: Self)
        ensures
            e.message == message,
            e.locations == locations,
    {
        ValidationError { message, locations }
    }
}

/// The result type every strategy and the dispatcher return: either a
/// value or a non-empty batch of diagnostics.
pub type ValidationResult<T> = Result<T, Vec<ValidationError>>;

} // verus!
