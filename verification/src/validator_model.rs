//! What the validator decides, as functions on the values of trees.
//!
//! The tree is walked depth first: the items of a module in order, in a
//! component its own rules before its children. The first violation on that
//! way is the result.

use vstd::prelude::*;
use crate::ast::{
    ComponentDefinitionView, ComponentView, IdentifierView, ModuleItemView, ModuleView,
    PropertiesView, PropertyDefinitionKindView, PropertyDefinitionView, PropertyKindView,
    PropertyView, TypeKind,
};
use crate::names::first_duplicate;
use crate::span::Span;
use crate::validator_error::{
    MultipleDefaultPropsError, MultipleSlotListPropsError, MultipleSlotPropsError,
    MultipleTextPropsError, SlotAndSlotListPropsError, TextComponentWithChildrenError, Violation,
};

verus! {

/// The classes of property declarations of which a component definition may
/// hold one only.
#[derive(Debug, Clone, Copy, PartialEq, Eq, Structural)]
pub enum DeclarationClass {
    /// The declaration of the text.
    Text,
    /// The declaration of the default property.
    Default,
    /// A named property of the type `slot`.
    Slot,
    /// A named property of the type `slot[]`.
    SlotList,
}

/// The key of a property.
pub open spec fn property_key(property: PropertyView<Span>) -> IdentifierView<Span> {
    match property.kind {
        PropertyKindView::KeyValue { key, .. } => key,
        PropertyKindView::Flag { key } => key,
    }
}

/// The names of the keys of a list of properties.
pub open spec fn property_names(properties: Seq<PropertyView<Span>>) -> Seq<Seq<char>> {
    Seq::new(properties.len(), |i: int| property_key(properties[i]).name)
}

/// The name that a property declaration declares.
pub open spec fn declaration_name(declaration: PropertyDefinitionView<Span>) -> IdentifierView<
    Span,
> {
    match declaration.kind {
        PropertyDefinitionKindView::Text(text) => text.name,
        PropertyDefinitionKindView::Default(named) => named.name,
        PropertyDefinitionKindView::Named(named) => named.name,
    }
}

/// The names that a list of property declarations declares.
pub open spec fn declaration_names(declarations: Seq<PropertyDefinitionView<Span>>) -> Seq<
    Seq<char>,
> {
    Seq::new(declarations.len(), |i: int| declaration_name(declarations[i]).name)
}

/// Whether a property declaration belongs to a class.
pub open spec fn in_class(declaration: PropertyDefinitionView<Span>, class: DeclarationClass) -> bool {
    match (class, declaration.kind) {
        (DeclarationClass::Text, PropertyDefinitionKindView::Text(_)) => true,
        (DeclarationClass::Default, PropertyDefinitionKindView::Default(_)) => true,
        (DeclarationClass::Slot, PropertyDefinitionKindView::Named(named)) => named.ty.kind
            == TypeKind::Slot,
        (DeclarationClass::SlotList, PropertyDefinitionKindView::Named(named)) => named.ty.kind
            == TypeKind::SlotList,
        _ => false,
    }
}

/// The offset of the first declaration of a class from `from` on.
pub open spec fn first_in_class(
    declarations: Seq<PropertyDefinitionView<Span>>,
    class: DeclarationClass,
    from: int,
) -> Option<int>
    decreases declarations.len() - from,
{
    if from < 0 || from >= declarations.len() {
        None
    } else if in_class(declarations[from], class) {
        Some(from)
    } else {
        first_in_class(declarations, class, from + 1)
    }
}

/// The offsets of the first two declarations of a class, where there are
/// two.
pub open spec fn two_in_class(
    declarations: Seq<PropertyDefinitionView<Span>>,
    class: DeclarationClass,
) -> Option<(int, int)> {
    match first_in_class(declarations, class, 0) {
        Some(a) => match first_in_class(declarations, class, a + 1) {
            Some(b) => Some((a, b)),
            None => None,
        },
        None => None,
    }
}

/// The violation of a component that has a text and children.
pub open spec fn text_with_children(component: ComponentView<Span>) -> Option<Violation> {
    if component.text is Some && component.children is Some {
        Some(
            Violation::TextComponentWithChildren(
                TextComponentWithChildrenError {
                    component_name: component.name.span,
                    text: component.text->0.span,
                    children: component.children->0.span,
                },
            ),
        )
    } else {
        None
    }
}

/// The violation in the properties of a component: the first name that is
/// used twice.
pub open spec fn properties_violation(
    name: IdentifierView<Span>,
    properties: Option<PropertiesView<Span>>,
) -> Option<Violation> {
    match properties {
        None => None,
        Some(list) => match first_duplicate(property_names(list.properties), 0) {
            None => None,
            Some((i, j)) => Some(
                Violation::DuplicatedPropertyName {
                    component_name: name.span,
                    first: property_key(list.properties[i]).span,
                    second: property_key(list.properties[j]).span,
                    name: property_key(list.properties[j]).name,
                },
            ),
        },
    }
}

/// The first violation in a component and its children.
#[verifier::opaque]
pub open spec fn component_violation(component: ComponentView<Span>) -> Option<Violation>
    decreases component, 0int,
{
    match text_with_children(component) {
        Some(v) => Some(v),
        None => match properties_violation(component.name, component.properties) {
            Some(v) => Some(v),
            None => match component.children {
                Some(list) => components_violation(list.children, 0),
                None => None,
            },
        },
    }
}

/// The first violation in the components of a list from `from` on.
#[verifier::opaque]
pub open spec fn components_violation(components: Seq<ComponentView<Span>>, from: int) -> Option<
    Violation,
>
    decreases components, components.len() - from,
{
    if from < 0 || from >= components.len() {
        None
    } else {
        match component_violation(components[from]) {
            Some(v) => Some(v),
            None => components_violation(components, from + 1),
        }
    }
}

/// The violation of a class of declarations of which there are two.
pub open spec fn class_violation(
    name: IdentifierView<Span>,
    declarations: Seq<PropertyDefinitionView<Span>>,
    class: DeclarationClass,
) -> Option<Violation> {
    match two_in_class(declarations, class) {
        None => None,
        Some((a, b)) => {
            let component_name = name.span;
            let first = declarations[a].span;
            let second = declarations[b].span;
            Some(
                match class {
                    DeclarationClass::Text => Violation::MultipleTextProps(
                        MultipleTextPropsError { component_name, first, second },
                    ),
                    DeclarationClass::Default => Violation::MultipleDefaultProps(
                        MultipleDefaultPropsError { component_name, first, second },
                    ),
                    DeclarationClass::Slot => Violation::MultipleSlotProps(
                        MultipleSlotPropsError { component_name, first, second },
                    ),
                    DeclarationClass::SlotList => Violation::MultipleSlotListProps(
                        MultipleSlotListPropsError { component_name, first, second },
                    ),
                },
            )
        },
    }
}

/// The violation of declarations that hold a `slot` and a `slot[]`.
pub open spec fn slot_and_list_violation(
    name: IdentifierView<Span>,
    declarations: Seq<PropertyDefinitionView<Span>>,
) -> Option<Violation> {
    match (
        first_in_class(declarations, DeclarationClass::Slot, 0),
        first_in_class(declarations, DeclarationClass::SlotList, 0),
    ) {
        (Some(a), Some(b)) => Some(
            Violation::SlotAndSlotListProps(
                SlotAndSlotListPropsError {
                    component_name: name.span,
                    slot: declarations[a].span,
                    slot_list: declarations[b].span,
                },
            ),
        ),
        _ => None,
    }
}

/// The violation of declarations that declare a name twice.
pub open spec fn declared_twice_violation(
    name: IdentifierView<Span>,
    declarations: Seq<PropertyDefinitionView<Span>>,
) -> Option<Violation> {
    match first_duplicate(declaration_names(declarations), 0) {
        None => None,
        Some((i, j)) => Some(
            Violation::DuplicatedPropertyName {
                component_name: name.span,
                first: declaration_name(declarations[i]).span,
                second: declaration_name(declarations[j]).span,
                name: declaration_name(declarations[j]).name,
            },
        ),
    }
}

/// The first violation in the property declarations of a component
/// definition: two texts, two defaults, two slots, two slot lists, a slot
/// with a slot list, a name that is declared twice.
pub open spec fn declarations_violation(
    name: IdentifierView<Span>,
    declarations: Seq<PropertyDefinitionView<Span>>,
) -> Option<Violation> {
    if class_violation(name, declarations, DeclarationClass::Text) is Some {
        class_violation(name, declarations, DeclarationClass::Text)
    } else if class_violation(name, declarations, DeclarationClass::Default) is Some {
        class_violation(name, declarations, DeclarationClass::Default)
    } else if class_violation(name, declarations, DeclarationClass::Slot) is Some {
        class_violation(name, declarations, DeclarationClass::Slot)
    } else if class_violation(name, declarations, DeclarationClass::SlotList) is Some {
        class_violation(name, declarations, DeclarationClass::SlotList)
    } else if slot_and_list_violation(name, declarations) is Some {
        slot_and_list_violation(name, declarations)
    } else {
        declared_twice_violation(name, declarations)
    }
}

/// The first violation in a component definition and its body.
pub open spec fn definition_violation(definition: ComponentDefinitionView<Span>) -> Option<
    Violation,
> {
    let own = match definition.properties {
        Some(list) => declarations_violation(definition.name, list.properties),
        None => None,
    };
    match own {
        Some(v) => Some(v),
        None => match definition.children {
            Some(list) => components_violation(list.children, 0),
            None => None,
        },
    }
}

/// The first violation in an item of a module.
pub open spec fn item_violation(item: ModuleItemView<Span>) -> Option<Violation> {
    match item {
        ModuleItemView::Component(component) => component_violation(component),
        ModuleItemView::ComponentDefinition(definition) => definition_violation(definition),
    }
}

/// The first violation in the items of a module from `from` on.
pub open spec fn items_violation(items: Seq<ModuleItemView<Span>>, from: int) -> Option<Violation>
    decreases items.len() - from,
{
    if from < 0 || from >= items.len() {
        None
    } else {
        match item_violation(items[from]) {
            Some(v) => Some(v),
            None => items_violation(items, from + 1),
        }
    }
}

/// The first violation in a module, if there is one.
pub open spec fn module_violation(module: ModuleView<Span>) -> Option<Violation> {
    items_violation(module.items, 0)
}

} // verus!
