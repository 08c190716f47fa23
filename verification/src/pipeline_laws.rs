//! What holds between the validator and the lowering.

use vstd::prelude::*;
use crate::ast;
use crate::error::LoweringError;
use crate::ir_model::{
    declaration_error, declared_before, earlier_in_class, first_declaration_error,
    lower_children, lower_component, lower_components, lower_declarations, lower_definition,
    lower_items, lower_module, };
use crate::names::{lemma_first_duplicate, lemma_index_of_name};
use crate::span::Span;
use crate::validator_laws::lemma_first_in_class;
use crate::validator_model::{
    class_violation, component_violation, components_violation, declaration_names,
    declarations_violation, declared_twice_violation, definition_violation, first_in_class,
    in_class, item_violation, items_violation, module_violation, two_in_class, DeclarationClass,
};

verus! {

/// Whether an error of the lowering is one of the two that the validator
/// does not look for: a component definition that holds itself, and a
/// default property with a default value.
pub open spec fn beyond_validation(error: LoweringError) -> bool {
    error is CircularDefinition || error is DefaultPropertyWithValue
}

/// Whether the lowering gives a result, or fails with an error that the
/// validator does not look for.
pub open spec fn lowers_or_beyond<T>(result: Result<T, LoweringError>) -> bool {
    match result {
        Ok(_) => true,
        Err(e) => beyond_validation(e),
    }
}

/// Where no component from `from` on has a violation, none of them does.
proof fn lemma_no_component_violation(
    components: Seq<ast::ComponentView<Span>>,
    from: int,
    k: int,
)
    requires
        0 <= from <= k < components.len(),
        components_violation(components, from) is None,
    ensures
        component_violation(components[k]) is None,
    decreases k - from,
{
    reveal(component_violation);
    reveal(components_violation);
    if from < k {
        lemma_no_component_violation(components, from + 1, k);
    }
}

/// A component without a violation is lowered.
pub proof fn lemma_valid_component_is_lowered(component: ast::ComponentView<Span>)
    requires
        component_violation(component) is None,
    ensures
        lower_component(component) is Ok,
    decreases component, 0int,
{
    reveal(component_violation);
    reveal(components_violation);
    reveal(lower_component);
    reveal(lower_children);
    reveal(lower_components);
    match component.children {
        Some(list) => {
            lemma_valid_components_are_lowered(list.children, list.children.len() as int);
        },
        None => {},
    }
}

/// The first components of a list without a violation are lowered.
pub proof fn lemma_valid_components_are_lowered(
    components: Seq<ast::ComponentView<Span>>,
    upto: int,
)
    requires
        components_violation(components, 0) is None,
        0 <= upto <= components.len(),
    ensures
        lower_components(components, upto) is Ok,
    decreases components, upto,
{
    reveal(component_violation);
    reveal(components_violation);
    reveal(lower_component);
    reveal(lower_children);
    reveal(lower_components);
    if upto > 0 {
        lemma_valid_components_are_lowered(components, upto - 1);
        lemma_no_component_violation(components, 0, upto - 1);
        lemma_valid_component_is_lowered(components[upto - 1]);
    }
}

/// Where no two declarations belong to a class, a declaration of the class
/// has none of the class before it.
proof fn lemma_single_in_class(
    declarations: Seq<ast::PropertyDefinitionView<Span>>,
    class: DeclarationClass,
    k: int,
)
    requires
        two_in_class(declarations, class) is None,
        0 <= k < declarations.len(),
        in_class(declarations[k], class),
    ensures
        earlier_in_class(declarations, class, k) is None,
{
    lemma_first_in_class(declarations, class, 0);
    match first_in_class(declarations, class, 0) {
        Some(j) => {
            lemma_first_in_class(declarations, class, j + 1);
        },
        None => {},
    }
}

/// Declarations without a violation have no error at any declaration but a
/// default property with a default value.
proof fn lemma_valid_declaration(
    name: ast::IdentifierView<Span>,
    declarations: Seq<ast::PropertyDefinitionView<Span>>,
    k: int,
)
    requires
        declarations_violation(name, declarations) is None,
        0 <= k < declarations.len(),
    ensures
        match declaration_error(name.span, declarations, k) {
            None => true,
            Some(e) => e is DefaultPropertyWithValue,
        },
{
    assert(class_violation(name, declarations, DeclarationClass::Text) is None);
    assert(class_violation(name, declarations, DeclarationClass::Default) is None);
    assert(declared_twice_violation(name, declarations) is None);
    let names = declaration_names(declarations);
    lemma_first_duplicate(names, 0);
    lemma_index_of_name(names, names[k], k);
    assert(declared_before(declarations, k) is None);
    match declarations[k].kind {
        ast::PropertyDefinitionKindView::Default(_) => {
            lemma_single_in_class(declarations, DeclarationClass::Default, k);
        },
        ast::PropertyDefinitionKindView::Text(_) => {
            lemma_single_in_class(declarations, DeclarationClass::Text, k);
        },
        ast::PropertyDefinitionKindView::Named(_) => {},
    }
}

/// Declarations without a violation have no error from `from` on but a
/// default property with a default value.
proof fn lemma_valid_declarations(
    name: ast::IdentifierView<Span>,
    declarations: Seq<ast::PropertyDefinitionView<Span>>,
    from: int,
)
    requires
        declarations_violation(name, declarations) is None,
        0 <= from,
    ensures
        match first_declaration_error(name.span, declarations, from) {
            None => true,
            Some(e) => e is DefaultPropertyWithValue,
        },
    decreases declarations.len() - from,
{
    if from < declarations.len() {
        lemma_valid_declaration(name, declarations, from);
        lemma_valid_declarations(name, declarations, from + 1);
    }
}

/// A component definition without a violation is lowered, unless it holds
/// itself or its default property has a default value.
pub proof fn lemma_valid_definition_is_lowered(definition: ast::ComponentDefinitionView<Span>)
    requires
        definition_violation(definition) is None,
    ensures
        lowers_or_beyond(lower_definition(definition)),
{
    reveal(lower_component);
    reveal(lower_children);
    reveal(lower_components);
    match definition.children {
        Some(list) => {
            lemma_valid_components_are_lowered(list.children, list.children.len() as int);
        },
        None => {},
    }
    assert(lower_children(definition.children) is Ok);
    match definition.properties {
        Some(list) => {
            assert(declarations_violation(definition.name, list.properties) is None);
            lemma_valid_declarations(definition.name, list.properties, 0);
        },
        None => {},
    }
    assert(lowers_or_beyond(lower_declarations(definition.name, definition.properties)));
}

/// Where no item from `from` on has a violation, none of them does.
proof fn lemma_no_item_violation(items: Seq<ast::ModuleItemView<Span>>, from: int, k: int)
    requires
        0 <= from <= k < items.len(),
        items_violation(items, from) is None,
    ensures
        item_violation(items[k]) is None,
    decreases k - from,
{
    if from < k {
        lemma_no_item_violation(items, from + 1, k);
    }
}

/// The first items of a module without a violation are lowered, unless one
/// of them holds itself or has a default property with a default value.
proof fn lemma_valid_items_are_lowered(items: Seq<ast::ModuleItemView<Span>>, upto: int)
    requires
        items_violation(items, 0) is None,
        0 <= upto <= items.len(),
    ensures
        lowers_or_beyond(lower_items(items, upto)),
    decreases upto,
{
    if upto > 0 {
        lemma_valid_items_are_lowered(items, upto - 1);
        lemma_no_item_violation(items, 0, upto - 1);
        match items[upto - 1] {
            ast::ModuleItemView::Component(component) => {
                lemma_valid_component_is_lowered(component);
            },
            ast::ModuleItemView::ComponentDefinition(definition) => {
                lemma_valid_definition_is_lowered(definition);
            },
        }
    }
}

/// The lowering repeats the rules of the validator, and adds two: a module
/// in which the validator finds no violation is lowered, unless a component
/// definition holds itself or a default property has a default value.
pub proof fn lemma_valid_module_is_lowered(module: ast::ModuleView<Span>)
    requires
        module_violation(module) is None,
    ensures
        lowers_or_beyond(lower_module(module)),
{
    lemma_valid_items_are_lowered(module.items, module.items.len() as int);
}

} // verus!
