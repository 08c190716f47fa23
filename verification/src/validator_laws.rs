//! What holds of every tree in which the validator finds no violation.

use vstd::prelude::*;
use crate::ast;
use crate::names::{all_distinct, lemma_first_duplicate};
use crate::span::Span;
use crate::validator_error::{TextComponentWithChildrenError, Violation};
use crate::validator_model::{
    class_violation, component_violation, components_violation, declaration_names,
    declarations_violation, declared_twice_violation, definition_violation, first_in_class,
    in_class, item_violation, items_violation, module_violation, property_names,
    slot_and_list_violation, two_in_class, DeclarationClass,
};

verus! {

/// A component with a text and children violates the rules, whatever else
/// it holds, and that is the violation that is reported for it.
pub proof fn lemma_text_excludes_children(component: ast::ComponentView<Span>)
    requires
        component.text is Some,
        component.children is Some,
    ensures
        component_violation(component) == Some(
            Violation::TextComponentWithChildren(
                TextComponentWithChildrenError {
                    component_name: component.name.span,
                    text: component.text->0.span,
                    children: component.children->0.span,
                },
            ),
        ),
{
    reveal(component_violation);
    reveal(components_violation);
}

/// Whether a component and all components below it keep the rules: none
/// has a text and children, and in none a property name stands twice.
pub open spec fn component_valid(component: ast::ComponentView<Span>) -> bool
    decreases component,
{
    &&& !(component.text is Some && component.children is Some)
    &&& component.properties is Some ==> all_distinct(
        property_names(component.properties->0.properties),
    )
    &&& component.children is Some ==> forall|k: int|
        0 <= k < component.children->0.children.len() ==> component_valid(
            #[trigger] component.children->0.children[k],
        )
}

/// Whether at most one declaration of a list belongs to a class.
pub open spec fn at_most_one(
    declarations: Seq<ast::PropertyDefinitionView<Span>>,
    class: DeclarationClass,
) -> bool {
    forall|a: int, b: int|
        0 <= a < b < declarations.len() ==> !(in_class(declarations[a], class) && in_class(
            declarations[b],
            class,
        ))
}

/// Whether no declaration of a list belongs to a class.
pub open spec fn none_in_class(
    declarations: Seq<ast::PropertyDefinitionView<Span>>,
    class: DeclarationClass,
) -> bool {
    forall|a: int| 0 <= a < declarations.len() ==> !in_class(declarations[a], class)
}

/// Whether the declarations of a component definition keep the rules: at
/// most one text, one default property, one slot and one slot list, not a
/// slot and a slot list together, and no name declared twice.
pub open spec fn declarations_valid(declarations: Seq<ast::PropertyDefinitionView<Span>>) -> bool {
    &&& at_most_one(declarations, DeclarationClass::Text)
    &&& at_most_one(declarations, DeclarationClass::Default)
    &&& at_most_one(declarations, DeclarationClass::Slot)
    &&& at_most_one(declarations, DeclarationClass::SlotList)
    &&& none_in_class(declarations, DeclarationClass::Slot) || none_in_class(
        declarations,
        DeclarationClass::SlotList,
    )
    &&& all_distinct(declaration_names(declarations))
}

/// What `first_in_class` finds is the first declaration of the class from
/// `from` on, and it finds one where there is one.
pub proof fn lemma_first_in_class(
    declarations: Seq<ast::PropertyDefinitionView<Span>>,
    class: DeclarationClass,
    from: int,
)
    requires
        0 <= from,
    ensures
        match first_in_class(declarations, class, from) {
            Some(j) => from <= j < declarations.len() && in_class(declarations[j], class)
                && forall|t: int| from <= t < j ==> !in_class(declarations[t], class),
            None => forall|t: int|
                from <= t < declarations.len() ==> !in_class(declarations[t], class),
        },
    decreases declarations.len() - from,
{
    if from < declarations.len() && !in_class(declarations[from], class) {
        lemma_first_in_class(declarations, class, from + 1);
    }
}

/// Two declarations of a class are found exactly where there is more than
/// one.
proof fn lemma_two_in_class(
    declarations: Seq<ast::PropertyDefinitionView<Span>>,
    class: DeclarationClass,
)
    ensures
        two_in_class(declarations, class) is None <==> at_most_one(declarations, class),
{
    lemma_first_in_class(declarations, class, 0);
    match first_in_class(declarations, class, 0) {
        Some(a) => {
            lemma_first_in_class(declarations, class, a + 1);
            match first_in_class(declarations, class, a + 1) {
                Some(b) => {
                    assert(in_class(declarations[a], class) && in_class(declarations[b], class));
                },
                None => {},
            }
        },
        None => {},
    }
}

/// The validator finds a violation in the declarations of a component
/// definition exactly where they break a rule.
pub proof fn lemma_declarations_violation(
    name: ast::IdentifierView<Span>,
    declarations: Seq<ast::PropertyDefinitionView<Span>>,
)
    ensures
        declarations_violation(name, declarations) is None <==> declarations_valid(declarations),
{
    lemma_two_in_class(declarations, DeclarationClass::Text);
    lemma_two_in_class(declarations, DeclarationClass::Default);
    lemma_two_in_class(declarations, DeclarationClass::Slot);
    lemma_two_in_class(declarations, DeclarationClass::SlotList);
    lemma_first_in_class(declarations, DeclarationClass::Slot, 0);
    lemma_first_in_class(declarations, DeclarationClass::SlotList, 0);
    lemma_first_duplicate(declaration_names(declarations), 0);
    assert(class_violation(name, declarations, DeclarationClass::Text) is None <==> two_in_class(
        declarations,
        DeclarationClass::Text,
    ) is None);
    assert(class_violation(name, declarations, DeclarationClass::Default) is None
        <==> two_in_class(declarations, DeclarationClass::Default) is None);
    assert(class_violation(name, declarations, DeclarationClass::Slot) is None <==> two_in_class(
        declarations,
        DeclarationClass::Slot,
    ) is None);
    assert(class_violation(name, declarations, DeclarationClass::SlotList) is None
        <==> two_in_class(declarations, DeclarationClass::SlotList) is None);
    assert(slot_and_list_violation(name, declarations) is None <==> (none_in_class(
        declarations,
        DeclarationClass::Slot,
    ) || none_in_class(declarations, DeclarationClass::SlotList)));
    assert(declared_twice_violation(name, declarations) is None <==> all_distinct(
        declaration_names(declarations),
    ));
}

/// The validator finds a violation in a component exactly where the
/// component or a component below it breaks a rule.
pub proof fn lemma_component_violation(component: ast::ComponentView<Span>)
    ensures
        component_violation(component) is None <==> component_valid(component),
    decreases component, 0int,
{
    reveal(component_violation);
    reveal(components_violation);
    match component.properties {
        Some(list) => {
            lemma_first_duplicate(property_names(list.properties), 0);
        },
        None => {},
    }
    match component.children {
        Some(list) => {
            lemma_components_violation(list.children, 0);
        },
        None => {},
    }
}

/// The validator finds a violation among the components from `from` on
/// exactly where one of them breaks a rule.
pub proof fn lemma_components_violation(components: Seq<ast::ComponentView<Span>>, from: int)
    requires
        0 <= from,
    ensures
        components_violation(components, from) is None <==> forall|k: int|
            from <= k < components.len() ==> component_valid(#[trigger] components[k]),
    decreases components, components.len() - from,
{
    reveal(component_violation);
    reveal(components_violation);
    if from < components.len() {
        lemma_component_violation(components[from]);
        lemma_components_violation(components, from + 1);
        if components_violation(components, from) is None {
            assert forall|k: int| from <= k < components.len() implies component_valid(
                #[trigger] components[k],
            ) by {
                if k > from {
                    assert(component_valid(components[k]));
                }
            }
        }
    }
}

/// Whether an item of a module keeps the rules.
pub open spec fn item_valid(item: ast::ModuleItemView<Span>) -> bool {
    match item {
        ast::ModuleItemView::Component(component) => component_valid(component),
        ast::ModuleItemView::ComponentDefinition(definition) => {
            &&& definition.properties is Some ==> declarations_valid(
                definition.properties->0.properties,
            )
            &&& definition.children is Some ==> forall|k: int|
                0 <= k < definition.children->0.children.len() ==> component_valid(
                    #[trigger] definition.children->0.children[k],
                )
        },
    }
}

/// The validator finds a violation in an item of a module exactly where the
/// item breaks a rule.
pub proof fn lemma_item_violation(item: ast::ModuleItemView<Span>)
    ensures
        item_violation(item) is None <==> item_valid(item),
{
    match item {
        ast::ModuleItemView::Component(component) => {
            lemma_component_violation(component);
        },
        ast::ModuleItemView::ComponentDefinition(definition) => {
            match definition.properties {
                Some(list) => {
                    lemma_declarations_violation(definition.name, list.properties);
                },
                None => {},
            }
            match definition.children {
                Some(list) => {
                    lemma_components_violation(list.children, 0);
                },
                None => {},
            }
        },
    }
}

/// The validator finds a violation among the items from `from` on exactly
/// where one of them breaks a rule.
proof fn lemma_items_violation(items: Seq<ast::ModuleItemView<Span>>, from: int)
    requires
        0 <= from,
    ensures
        items_violation(items, from) is None <==> forall|k: int|
            from <= k < items.len() ==> item_valid(#[trigger] items[k]),
    decreases items.len() - from,
{
    if from < items.len() {
        lemma_item_violation(items[from]);
        lemma_items_violation(items, from + 1);
        if items_violation(items, from) is None {
            assert forall|k: int| from <= k < items.len() implies item_valid(
                #[trigger] items[k],
            ) by {
                if k > from {
                    assert(item_valid(items[k]));
                }
            }
        }
    }
}

/// The validator accepts a module exactly where every item of the module
/// keeps the rules: no component has a text and children, in no component a
/// property name stands twice, and the declarations of every component
/// definition hold at most one text, one default property, one slot and one
/// slot list, not a slot and a slot list together, and no name twice.
pub proof fn lemma_module_violation(module: ast::ModuleView<Span>)
    ensures
        module_violation(module) is None <==> forall|k: int|
            0 <= k < module.items.len() ==> item_valid(#[trigger] module.items[k]),
{
    lemma_items_violation(module.items, 0);
}

} // verus!
