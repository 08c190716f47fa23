//! The errors of the validator.

use vstd::prelude::*;
use crate::span::Span;

verus! {

/// A violation of a rule that the grammar does not enforce.
#[derive(Debug, Clone, PartialEq, Eq)]
pub enum ValidatorError {
    DuplicatedPropertyName(DuplicatedPropertyNameError),
    TextComponentWithChildren(TextComponentWithChildrenError),
    MultipleTextProps(MultipleTextPropsError),
    MultipleDefaultProps(MultipleDefaultPropsError),
    MultipleSlotProps(MultipleSlotPropsError),
    MultipleSlotListProps(MultipleSlotListPropsError),
    SlotAndSlotListProps(SlotAndSlotListPropsError),
}

/// A property name is used twice in one component or component definition.
#[derive(Debug, Clone, PartialEq, Eq)]
pub struct DuplicatedPropertyNameError {
    /// The name of the component.
    pub component_name: Span,
    /// Where the name was used first.
    pub first: Span,
    /// Where it was used again.
    pub second: Span,
    /// The name.
    pub name: String,
}

/// A component has a text and children.
#[derive(Debug, Clone, Copy, PartialEq, Eq, Structural)]
pub struct TextComponentWithChildrenError {
    pub component_name: Span,
    pub text: Span,
    pub children: Span,
}

/// A component definition declares two `text` properties.
#[derive(Debug, Clone, Copy, PartialEq, Eq, Structural)]
pub struct MultipleTextPropsError {
    pub component_name: Span,
    pub first: Span,
    pub second: Span,
}

/// A component definition declares two `default` properties.
#[derive(Debug, Clone, Copy, PartialEq, Eq, Structural)]
pub struct MultipleDefaultPropsError {
    pub component_name: Span,
    pub first: Span,
    pub second: Span,
}

/// A component definition declares two properties of the type `slot`.
#[derive(Debug, Clone, Copy, PartialEq, Eq, Structural)]
pub struct MultipleSlotPropsError {
    pub component_name: Span,
    pub first: Span,
    pub second: Span,
}

/// A component definition declares two properties of the type `slot[]`.
#[derive(Debug, Clone, Copy, PartialEq, Eq, Structural)]
pub struct MultipleSlotListPropsError {
    pub component_name: Span,
    pub first: Span,
    pub second: Span,
}

/// A component definition declares a property of the type `slot` and one of
/// the type `slot[]`.
#[derive(Debug, Clone, Copy, PartialEq, Eq, Structural)]
pub struct SlotAndSlotListPropsError {
    pub component_name: Span,
    pub slot: Span,
    pub slot_list: Span,
}

/// The mathematical value of a [`ValidatorError`].
pub enum Violation {
    DuplicatedPropertyName { component_name: Span, first: Span, second: Span, name: Seq<char> },
    TextComponentWithChildren(TextComponentWithChildrenError),
    MultipleTextProps(MultipleTextPropsError),
    MultipleDefaultProps(MultipleDefaultPropsError),
    MultipleSlotProps(MultipleSlotPropsError),
    MultipleSlotListProps(MultipleSlotListPropsError),
    SlotAndSlotListProps(SlotAndSlotListPropsError),
}

impl View for ValidatorError {
    type V = Violation;

    open spec fn view(&self) -> Violation {
        match *self {
            ValidatorError::DuplicatedPropertyName(e) => Violation::DuplicatedPropertyName {
                component_name: e.component_name,
                first: e.first,
                second: e.second,
                name: e.name@,
            },
            ValidatorError::TextComponentWithChildren(e) => Violation::TextComponentWithChildren(e),
            ValidatorError::MultipleTextProps(e) => Violation::MultipleTextProps(e),
            ValidatorError::MultipleDefaultProps(e) => Violation::MultipleDefaultProps(e),
            ValidatorError::MultipleSlotProps(e) => Violation::MultipleSlotProps(e),
            ValidatorError::MultipleSlotListProps(e) => Violation::MultipleSlotListProps(e),
            ValidatorError::SlotAndSlotListProps(e) => Violation::SlotAndSlotListProps(e),
        }
    }
}

/// The message of a violation, without the name of a property.
pub open spec fn violation_text(violation: Violation) -> Seq<char> {
    match violation {
        Violation::DuplicatedPropertyName { .. } => "property name is used multiple times"@,
        Violation::TextComponentWithChildren(_) => "text component can't have any children"@,
        Violation::MultipleTextProps(_) => "component can have only single 'text' property"@,
        Violation::MultipleDefaultProps(_) => "component can have only single 'default' property"@,
        Violation::MultipleSlotProps(_) => "component can have only single 'slot' property"@,
        Violation::MultipleSlotListProps(_) => "component can have only single 'slot[]' property"@,
        Violation::SlotAndSlotListProps(_) => "component can have either 'slot' or 'slot[]' property"@,
    }
}

impl ValidatorError {
    /// A message that says which rule was violated.
    pub fn message(&self) -> (r: &'static str)
        ensures
            r@ == violation_text(self@),
    {
        match self {
            ValidatorError::DuplicatedPropertyName(_) => "property name is used multiple times",
            ValidatorError::TextComponentWithChildren(_) => "text component can't have any children",
            ValidatorError::MultipleTextProps(_) => "component can have only single 'text' property",
            ValidatorError::MultipleDefaultProps(_) => {
                "component can have only single 'default' property"
            },
            ValidatorError::MultipleSlotProps(_) => "component can have only single 'slot' property",
            ValidatorError::MultipleSlotListProps(_) => {
                "component can have only single 'slot[]' property"
            },
            ValidatorError::SlotAndSlotListProps(_) => {
                "component can have either 'slot' or 'slot[]' property"
            },
        }
    }
}

} // verus!
