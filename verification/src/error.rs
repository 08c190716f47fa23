//! The errors of the lowering to the intermediate representation.

use vstd::prelude::*;
use crate::span::Span;

verus! {

/// An error of the lowering: a rule of the language that the tree breaks.
#[derive(Debug, Clone, PartialEq, Eq)]
pub enum IrGeneratorError {
    /// A property name is defined twice.
    DuplicatedProperty(DuplicatedPropertyError),
    /// A component has children and a text.
    TextComponentWithChildren(TextComponentWithChildrenError),
    /// A component definition declares two `text` properties.
    MultipleTextProperties(MultipleTextPropertiesError),
    /// A component definition declares two `default` properties.
    MultipleDefaultProperties(MultipleDefaultPropertiesError),
    /// A component definition holds itself as a child.
    CircularDefinition(CircularDefinitionError),
    /// The default property of a component definition has a default value.
    DefaultPropertyWithValue(DefaultPropertyWithValueError),
}

/// A property name is defined twice.
#[derive(Debug, Clone, PartialEq, Eq)]
pub struct DuplicatedPropertyError {
    /// The name of the property.
    pub name: String,
    /// Where the property was defined first.
    pub first: Span,
    /// Where it was defined again.
    pub second: Span,
}

/// A component has children and a text.
#[derive(Debug, Clone, Copy, PartialEq, Eq, Structural)]
pub struct TextComponentWithChildrenError {
    /// The name of the component.
    pub component_name: Span,
    /// The children.
    pub children: Span,
    /// The text.
    pub text: Span,
}

/// A component definition declares two `text` properties.
#[derive(Debug, Clone, Copy, PartialEq, Eq, Structural)]
pub struct MultipleTextPropertiesError {
    /// The name of the component.
    pub component_name: Span,
    /// The first declaration.
    pub first: Span,
    /// The second declaration.
    pub second: Span,
}

/// A component definition declares two `default` properties.
#[derive(Debug, Clone, Copy, PartialEq, Eq, Structural)]
pub struct MultipleDefaultPropertiesError {
    /// The name of the component.
    pub component_name: Span,
    /// The first declaration.
    pub first: Span,
    /// The second declaration.
    pub second: Span,
}

/// A component definition holds a child of its own name.
#[derive(Debug, Clone, Copy, PartialEq, Eq, Structural)]
pub struct CircularDefinitionError {
    /// The name of the component.
    pub component_name: Span,
    /// The child of the same name.
    pub circular: Span,
}

/// The default property of a component definition has a default value.
#[derive(Debug, Clone, Copy, PartialEq, Eq, Structural)]
pub struct DefaultPropertyWithValueError {
    /// The name of the component.
    pub component_name: Span,
    /// The declaration.
    pub property: Span,
    /// The default value.
    pub default_value: Span,
}

/// The mathematical value of an [`IrGeneratorError`].
pub enum LoweringError {
    DuplicatedProperty { name: Seq<char>, first: Span, second: Span },
    TextComponentWithChildren(TextComponentWithChildrenError),
    MultipleTextProperties(MultipleTextPropertiesError),
    MultipleDefaultProperties(MultipleDefaultPropertiesError),
    CircularDefinition(CircularDefinitionError),
    DefaultPropertyWithValue(DefaultPropertyWithValueError),
}

impl View for IrGeneratorError {
    type V = LoweringError;

    open spec fn view(&self) -> LoweringError {
        match *self {
            IrGeneratorError::DuplicatedProperty(e) => LoweringError::DuplicatedProperty {
                name: e.name@,
                first: e.first,
                second: e.second,
            },
            IrGeneratorError::TextComponentWithChildren(e) => {
                LoweringError::TextComponentWithChildren(e)
            },
            IrGeneratorError::MultipleTextProperties(e) => LoweringError::MultipleTextProperties(e),
            IrGeneratorError::MultipleDefaultProperties(e) => {
                LoweringError::MultipleDefaultProperties(e)
            },
            IrGeneratorError::CircularDefinition(e) => LoweringError::CircularDefinition(e),
            IrGeneratorError::DefaultPropertyWithValue(e) => {
                LoweringError::DefaultPropertyWithValue(e)
            },
        }
    }
}

/// The message of an error of the lowering, without the name of a property.
pub open spec fn lowering_text(error: LoweringError) -> Seq<char> {
    match error {
        LoweringError::DuplicatedProperty { .. } => "Property is duplicated"@,
        LoweringError::TextComponentWithChildren(_) => "Text component can't have children"@,
        LoweringError::MultipleTextProperties(_) => "Component defines multiple `text` properties"@,
        LoweringError::MultipleDefaultProperties(_) => {
            "Component defines multiple `default` properties"@
        },
        LoweringError::CircularDefinition(_) => "Component definition contains reference to itself"@,
        LoweringError::DefaultPropertyWithValue(_) => "Default property has default value"@,
    }
}

impl IrGeneratorError {
    /// A message that says which rule was broken.
    pub fn message(&self) -> (r: &'static str)
        ensures
            r@ == lowering_text(self@),
    {
        match self {
            IrGeneratorError::DuplicatedProperty(_) => "Property is duplicated",
            IrGeneratorError::TextComponentWithChildren(_) => "Text component can't have children",
            IrGeneratorError::MultipleTextProperties(_) => {
                "Component defines multiple `text` properties"
            },
            IrGeneratorError::MultipleDefaultProperties(_) => {
                "Component defines multiple `default` properties"
            },
            IrGeneratorError::CircularDefinition(_) => {
                "Component definition contains reference to itself"
            },
            IrGeneratorError::DefaultPropertyWithValue(_) => "Default property has default value",
        }
    }
}

} // verus!
