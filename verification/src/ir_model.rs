//! What the lowering computes, as functions on the values of trees.
//!
//! The lowering fails at the first rule that the tree breaks on the way
//! through it; else it gives the intermediate representation of the tree.

use vstd::prelude::*;
use crate::ast;
use crate::ast::{IdentifierView, NamedPropertyDefinitionView};
use crate::error::{
    CircularDefinitionError, DefaultPropertyWithValueError, LoweringError,
    MultipleDefaultPropertiesError, MultipleTextPropertiesError, TextComponentWithChildrenError,
};
use crate::ir::{
    ComponentDefinitionView, ComponentView, ModuleItemView, ModuleView, PropertiesDefinitionView,
    PropertiesView, PropertyDefinitionView, PropertyView,
};
use crate::names::{first_duplicate, index_of_name};
use crate::span::Span;
use crate::validator_model::{
    declaration_name, declaration_names, first_in_class, property_key, property_names,
    DeclarationClass,
};

verus! {

/// The flags among the first `upto` properties, in order.
pub open spec fn flags_of(properties: Seq<ast::PropertyView<Span>>, upto: int) -> Seq<
    IdentifierView<Span>,
>
    decreases upto,
{
    if upto <= 0 {
        seq![]
    } else {
        match properties[upto - 1].kind {
            ast::PropertyKindView::Flag { key } => flags_of(properties, upto - 1).push(key),
            ast::PropertyKindView::KeyValue { .. } => flags_of(properties, upto - 1),
        }
    }
}

/// The properties with a value among the first `upto` properties, in order.
pub open spec fn named_of(properties: Seq<ast::PropertyView<Span>>, upto: int) -> Seq<
    PropertyView<Span>,
>
    decreases upto,
{
    if upto <= 0 {
        seq![]
    } else {
        match properties[upto - 1].kind {
            ast::PropertyKindView::Flag { .. } => named_of(properties, upto - 1),
            ast::PropertyKindView::KeyValue { key, value } => named_of(properties, upto - 1).push(
                PropertyView { span: properties[upto - 1].span, key, value },
            ),
        }
    }
}

/// The error of a list of properties in which a name stands twice.
pub open spec fn duplicated_property(properties: Seq<ast::PropertyView<Span>>) -> Option<
    LoweringError,
> {
    match first_duplicate(property_names(properties), 0) {
        None => None,
        Some((i, j)) => Some(
            LoweringError::DuplicatedProperty {
                name: property_key(properties[j]).name,
                first: property_key(properties[i]).span,
                second: property_key(properties[j]).span,
            },
        ),
    }
}

/// The properties of a component, lowered: the flags and the properties
/// with a value apart. A name that stands twice is an error.
pub open spec fn lower_properties(properties: Option<ast::PropertiesView<Span>>) -> Result<
    PropertiesView<Span>,
    LoweringError,
> {
    match properties {
        None => Ok(
            PropertiesView { default: None, flag_properties: seq![], named_properties: seq![] },
        ),
        Some(list) => match duplicated_property(list.properties) {
            Some(e) => Err(e),
            None => Ok(
                PropertiesView {
                    default: list.default,
                    flag_properties: flags_of(list.properties, list.properties.len() as int),
                    named_properties: named_of(list.properties, list.properties.len() as int),
                },
            ),
        },
    }
}

/// The error of a component that has children and a text.
pub open spec fn text_with_children(component: ast::ComponentView<Span>) -> Option<LoweringError> {
    if component.children is Some && component.text is Some {
        Some(
            LoweringError::TextComponentWithChildren(
                TextComponentWithChildrenError {
                    component_name: component.name.span,
                    children: component.children->0.span,
                    text: component.text->0.span,
                },
            ),
        )
    } else {
        None
    }
}

/// A component, lowered. Its properties are lowered first, then it is
/// checked for children beside a text, then its children are lowered.
#[verifier::opaque]
pub open spec fn lower_component(component: ast::ComponentView<Span>) -> Result<
    ComponentView<Span>,
    LoweringError,
>
    decreases component, 0int,
{
    match lower_properties(component.properties) {
        Err(e) => Err(e),
        Ok(properties) => match text_with_children(component) {
            Some(e) => Err(e),
            None => match lower_children(component.children) {
                Err(e) => Err(e),
                Ok(children) => Ok(
                    ComponentView {
                        span: component.span,
                        name: component.name,
                        properties,
                        children,
                        text: component.text,
                    },
                ),
            },
        },
    }
}

/// The children of a component or of a component definition, lowered: an
/// empty list where there are none.
#[verifier::opaque]
pub open spec fn lower_children(children: Option<ast::ComponentChildrenView<Span>>) -> Result<
    Seq<ComponentView<Span>>,
    LoweringError,
>
    decreases children, 0int,
{
    match children {
        None => Ok(seq![]),
        Some(list) => lower_components(list.children, list.children.len() as int),
    }
}

/// The first `upto` components of a list, lowered; the error is that of the
/// first component that has one.
#[verifier::opaque]
pub open spec fn lower_components(components: Seq<ast::ComponentView<Span>>, upto: int) -> Result<
    Seq<ComponentView<Span>>,
    LoweringError,
>
    decreases components, upto,
{
    if upto <= 0 || upto > components.len() {
        Ok(seq![])
    } else {
        match lower_components(components, upto - 1) {
            Err(e) => Err(e),
            Ok(before) => match lower_component(components[upto - 1]) {
                Err(e) => Err(e),
                Ok(component) => Ok(before.push(component)),
            },
        }
    }
}

/// The offset of the first declaration of a class before `upto`.
pub open spec fn earlier_in_class(
    declarations: Seq<ast::PropertyDefinitionView<Span>>,
    class: DeclarationClass,
    upto: int,
) -> Option<int> {
    match first_in_class(declarations, class, 0) {
        Some(j) => if j < upto {
            Some(j)
        } else {
            None
        },
        None => None,
    }
}

/// The error of a declaration whose name was declared before.
pub open spec fn declared_before(
    declarations: Seq<ast::PropertyDefinitionView<Span>>,
    k: int,
) -> Option<LoweringError> {
    match index_of_name(
        declaration_names(declarations),
        declaration_name(declarations[k]).name,
        k,
    ) {
        Some(i) => Some(
            LoweringError::DuplicatedProperty {
                name: declaration_name(declarations[k]).name,
                first: declarations[i].span,
                second: declarations[k].span,
            },
        ),
        None => None,
    }
}

/// The error of the declaration at `k`, by what was declared before it: a
/// second default or a second text, a name that was declared before, a
/// default property with a default value.
pub open spec fn declaration_error(
    component_name: Span,
    declarations: Seq<ast::PropertyDefinitionView<Span>>,
    k: int,
) -> Option<LoweringError> {
    let declaration = declarations[k];
    match declaration.kind {
        ast::PropertyDefinitionKindView::Default(named) => {
            if let Some(j) = earlier_in_class(declarations, DeclarationClass::Default, k) {
                Some(
                    LoweringError::MultipleDefaultProperties(
                        MultipleDefaultPropertiesError {
                            component_name,
                            first: declarations[j].span,
                            second: declaration.span,
                        },
                    ),
                )
            } else if declared_before(declarations, k) is Some {
                declared_before(declarations, k)
            } else if named.default_value is Some {
                Some(
                    LoweringError::DefaultPropertyWithValue(
                        DefaultPropertyWithValueError {
                            component_name,
                            property: declaration.span,
                            default_value: named.default_value->0.span,
                        },
                    ),
                )
            } else {
                None
            }
        },
        ast::PropertyDefinitionKindView::Text(_) => {
            if let Some(j) = earlier_in_class(declarations, DeclarationClass::Text, k) {
                Some(
                    LoweringError::MultipleTextProperties(
                        MultipleTextPropertiesError {
                            component_name,
                            first: declarations[j].span,
                            second: declaration.span,
                        },
                    ),
                )
            } else {
                declared_before(declarations, k)
            }
        },
        ast::PropertyDefinitionKindView::Named(_) => declared_before(declarations, k),
    }
}

/// The error of the first declaration from `from` on that has one.
pub open spec fn first_declaration_error(
    component_name: Span,
    declarations: Seq<ast::PropertyDefinitionView<Span>>,
    from: int,
) -> Option<LoweringError>
    decreases declarations.len() - from,
{
    if from < 0 || from >= declarations.len() {
        None
    } else {
        match declaration_error(component_name, declarations, from) {
            Some(e) => Some(e),
            None => first_declaration_error(component_name, declarations, from + 1),
        }
    }
}

/// A declaration of a property, lowered.
pub open spec fn lower_declaration(span: Span, named: NamedPropertyDefinitionView<Span>) -> PropertyDefinitionView<
    Span,
> {
    PropertyDefinitionView {
        span,
        name: named.name,
        ty: named.ty,
        default_value: named.default_value,
    }
}

/// The named properties among the first `upto` declarations, lowered, in
/// order.
pub open spec fn named_declarations(
    declarations: Seq<ast::PropertyDefinitionView<Span>>,
    upto: int,
) -> Seq<PropertyDefinitionView<Span>>
    decreases upto,
{
    if upto <= 0 {
        seq![]
    } else {
        match declarations[upto - 1].kind {
            ast::PropertyDefinitionKindView::Named(named) => named_declarations(
                declarations,
                upto - 1,
            ).push(lower_declaration(declarations[upto - 1].span, named)),
            _ => named_declarations(declarations, upto - 1),
        }
    }
}

/// The name that the `text` declaration among the first `upto` declarations
/// declares, where there is one; the last one where there are more.
pub open spec fn text_declaration(
    declarations: Seq<ast::PropertyDefinitionView<Span>>,
    upto: int,
) -> Option<IdentifierView<Span>>
    decreases upto,
{
    if upto <= 0 {
        None
    } else {
        match declarations[upto - 1].kind {
            ast::PropertyDefinitionKindView::Text(text) => Some(text.name),
            _ => text_declaration(declarations, upto - 1),
        }
    }
}

/// The `default` declaration among the first `upto` declarations, lowered,
/// where there is one; the last one where there are more.
pub open spec fn default_declaration(
    declarations: Seq<ast::PropertyDefinitionView<Span>>,
    upto: int,
) -> Option<PropertyDefinitionView<Span>>
    decreases upto,
{
    if upto <= 0 {
        None
    } else {
        match declarations[upto - 1].kind {
            ast::PropertyDefinitionKindView::Default(named) => Some(
                lower_declaration(declarations[upto - 1].span, named),
            ),
            _ => default_declaration(declarations, upto - 1),
        }
    }
}

/// The declarations of a component definition, lowered: the text, the
/// default property and the named properties apart. Without declarations
/// the result is empty, with the span of the name of the definition.
pub open spec fn lower_declarations(
    name: IdentifierView<Span>,
    declarations: Option<ast::PropertiesDefinitionView<Span>>,
) -> Result<PropertiesDefinitionView<Span>, LoweringError> {
    match declarations {
        None => Ok(
            PropertiesDefinitionView {
                span: name.span,
                text_property: None,
                default_property: None,
                properties: seq![],
            },
        ),
        Some(list) => match first_declaration_error(name.span, list.properties, 0) {
            Some(e) => Err(e),
            None => Ok(
                PropertiesDefinitionView {
                    span: list.span,
                    text_property: text_declaration(list.properties, list.properties.len() as int),
                    default_property: default_declaration(
                        list.properties,
                        list.properties.len() as int,
                    ),
                    properties: named_declarations(list.properties, list.properties.len() as int),
                },
            ),
        },
    }
}

/// The offset of the first component from `from` on that has the given
/// name.
pub open spec fn first_named(components: Seq<ComponentView<Span>>, name: Seq<char>, from: int) -> Option<
    int,
>
    decreases components.len() - from,
{
    if from < 0 || from >= components.len() {
        None
    } else if components[from].name.name == name {
        Some(from)
    } else {
        first_named(components, name, from + 1)
    }
}

/// The error of a component definition that holds a child of its own name.
pub open spec fn circular_definition(
    name: IdentifierView<Span>,
    children: Seq<ComponentView<Span>>,
) -> Option<LoweringError> {
    match first_named(children, name.name, 0) {
        Some(k) => Some(
            LoweringError::CircularDefinition(
                CircularDefinitionError { component_name: name.span, circular: children[k].span },
            ),
        ),
        None => None,
    }
}

/// A component definition, lowered. Its children are lowered first, then it
/// is checked for a child of its own name, then its declarations are
/// lowered.
pub open spec fn lower_definition(definition: ast::ComponentDefinitionView<Span>) -> Result<
    ComponentDefinitionView<Span>,
    LoweringError,
> {
    match lower_children(definition.children) {
        Err(e) => Err(e),
        Ok(children) => match circular_definition(definition.name, children) {
            Some(e) => Err(e),
            None => match lower_declarations(definition.name, definition.properties) {
                Err(e) => Err(e),
                Ok(properties) => Ok(
                    ComponentDefinitionView {
                        span: definition.span,
                        name: definition.name,
                        properties,
                        children,
                    },
                ),
            },
        },
    }
}

/// An item of a module, lowered.
pub open spec fn lower_item(item: ast::ModuleItemView<Span>) -> Result<
    ModuleItemView<Span>,
    LoweringError,
> {
    match item {
        ast::ModuleItemView::Component(component) => match lower_component(component) {
            Err(e) => Err(e),
            Ok(c) => Ok(ModuleItemView::Component(c)),
        },
        ast::ModuleItemView::ComponentDefinition(definition) => match lower_definition(definition) {
            Err(e) => Err(e),
            Ok(d) => Ok(ModuleItemView::ComponentDefinition(d)),
        },
    }
}

/// The first `upto` items of a module, lowered; the error is that of the
/// first item that has one.
pub open spec fn lower_items(items: Seq<ast::ModuleItemView<Span>>, upto: int) -> Result<
    Seq<ModuleItemView<Span>>,
    LoweringError,
>
    decreases upto,
{
    if upto <= 0 || upto > items.len() {
        Ok(seq![])
    } else {
        match lower_items(items, upto - 1) {
            Err(e) => Err(e),
            Ok(before) => match lower_item(items[upto - 1]) {
                Err(e) => Err(e),
                Ok(item) => Ok(before.push(item)),
            },
        }
    }
}

/// A module, lowered.
pub open spec fn lower_module(module: ast::ModuleView<Span>) -> Result<
    ModuleView<Span>,
    LoweringError,
> {
    match lower_items(module.items, module.items.len() as int) {
        Err(e) => Err(e),
        Ok(items) => Ok(ModuleView { span: module.span, items }),
    }
}

} // verus!
