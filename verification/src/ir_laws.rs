//! What holds of every tree that the lowering gives.

use vstd::prelude::*;
use crate::ast;
use crate::ir::{
    declared_names, identifier_names, key_names, optional_name, ComponentView,
    PropertyDefinitionView,
};
use crate::ir_model::{
    declaration_error, declared_before, default_declaration, first_declaration_error, first_named,
    flags_of, lower_children, lower_component, lower_components, lower_declarations,
    lower_definition, lower_items, lower_module, lower_properties, named_declarations, named_of,
    text_declaration,
};
use crate::names::{
    all_distinct, first_duplicate, index_of_name, lemma_first_duplicate, lemma_found_stays,
    lemma_index_of_name,
};
use crate::span::Span;
use crate::error::{CircularDefinitionError, LoweringError};
use crate::validator_model::{declaration_name, declaration_names, property_key, property_names};

verus! {

/// Whether a name stands among the first `upto` names.
pub open spec fn occurs(names: Seq<Seq<char>>, name: Seq<char>, upto: int) -> bool {
    index_of_name(names, name, upto) is Some
}

/// Whether every name of a list stands among the first `upto` names.
pub open spec fn all_occur(names: Seq<Seq<char>>, list: Seq<Seq<char>>, upto: int) -> bool {
    forall|k: int| 0 <= k < list.len() ==> occurs(names, #[trigger] list[k], upto)
}

/// A name that stands among the first names stands among more of them.
proof fn lemma_occurs_later(names: Seq<Seq<char>>, list: Seq<Seq<char>>, upto: int)
    requires
        all_occur(names, list, upto),
    ensures
        all_occur(names, list, upto + 1),
{
    assert forall|k: int| 0 <= k < list.len() implies occurs(names, #[trigger] list[k], upto + 1) by {
        lemma_found_stays(names, list[k], upto, upto + 1);
    }
}

/// In a list of distinct names, the name at an offset does not stand before
/// that offset, and stands among the names up to and with that offset.
proof fn lemma_fresh_name(names: Seq<Seq<char>>, u: int)
    requires
        all_distinct(names),
        0 <= u < names.len(),
    ensures
        !occurs(names, names[u], u),
        occurs(names, names[u], u + 1),
{
    lemma_index_of_name(names, names[u], u);
}

/// Distinct names with one more name that differs from all of them are
/// distinct.
proof fn lemma_distinct_push(list: Seq<Seq<char>>, name: Seq<char>)
    requires
        all_distinct(list),
        forall|k: int| 0 <= k < list.len() ==> list[k] != name,
    ensures
        all_distinct(list.push(name)),
{
}

/// The flags and the properties with a value among the first `upto` of a
/// list of properties with distinct names have distinct names, each of which
/// stands among the first `upto` names of the list.
proof fn lemma_split_distinct(properties: Seq<ast::PropertyView<Span>>, upto: int)
    requires
        all_distinct(property_names(properties)),
        0 <= upto <= properties.len(),
    ensures
        ({
            let names = property_names(properties);
            let flags = identifier_names(flags_of(properties, upto));
            let keys = key_names(named_of(properties, upto));
            &&& all_occur(names, flags, upto)
            &&& all_occur(names, keys, upto)
            &&& all_distinct(flags + keys)
        }),
    decreases upto,
{
    let names = property_names(properties);
    if upto > 0 {
        let u = upto - 1;
        lemma_split_distinct(properties, u);
        let flags = identifier_names(flags_of(properties, u));
        let keys = key_names(named_of(properties, u));
        lemma_occurs_later(names, flags, u);
        lemma_occurs_later(names, keys, u);
        lemma_fresh_name(names, u);
        let name = names[u];
        assert forall|k: int| 0 <= k < (flags + keys).len() implies (flags + keys)[k] != name by {
            if k < flags.len() {
                assert((flags + keys)[k] == flags[k]);
                assert(occurs(names, flags[k], u));
            } else {
                assert((flags + keys)[k] == keys[k - flags.len()]);
                assert(occurs(names, keys[k - flags.len()], u));
            }
        }
        match properties[u].kind {
            ast::PropertyKindView::Flag { key } => {
                let more = identifier_names(flags_of(properties, upto));
                assert(more =~= flags.push(name));
                assert(key_names(named_of(properties, upto)) =~= keys);
                assert forall|a: int, b: int| 0 <= a < b < (more + keys).len() implies (more
                    + keys)[a] != (more + keys)[b] by {
                    let old = flags + keys;
                    let at = flags.len() as int;
                    if b < at {
                        assert(old[a] != old[b]);
                    } else if b == at {
                        assert(old[a] != name);
                    } else if a < at {
                        assert(old[a] != old[b - 1]);
                    } else if a == at {
                        assert(old[b - 1] != name);
                    } else {
                        assert(old[a - 1] != old[b - 1]);
                    }
                }
                assert forall|k: int| 0 <= k < more.len() implies occurs(
                    names,
                    #[trigger] more[k],
                    upto,
                ) by {
                    if k < flags.len() {
                        assert(more[k] == flags[k]);
                    }
                }
            },
            ast::PropertyKindView::KeyValue { key, value } => {
                let more = key_names(named_of(properties, upto));
                assert(more =~= keys.push(name));
                assert(identifier_names(flags_of(properties, upto)) =~= flags);
                assert((flags + more) =~= (flags + keys).push(name));
                lemma_distinct_push(flags + keys, name);
                assert forall|k: int| 0 <= k < more.len() implies occurs(
                    names,
                    #[trigger] more[k],
                    upto,
                ) by {
                    if k < keys.len() {
                        assert(more[k] == keys[k]);
                    }
                }
            },
        }
    } else {
        assert(identifier_names(flags_of(properties, upto)) + key_names(
            named_of(properties, upto),
        ) =~= Seq::<Seq<char>>::empty());
    }
}

/// The properties that the lowering gives are well formed: no name stands
/// twice among the flags and the keys.
pub proof fn lemma_lowered_properties_well_formed(properties: Option<ast::PropertiesView<Span>>)
    ensures
        lower_properties(properties) is Ok ==> lower_properties(properties)->Ok_0.well_formed(),
{
    match properties {
        None => {
            assert(identifier_names(Seq::<ast::IdentifierView<Span>>::empty()) + key_names(
                Seq::<crate::ir::PropertyView<Span>>::empty(),
            ) =~= Seq::<Seq<char>>::empty());
        },
        Some(list) => {
            if lower_properties(properties) is Ok {
                lemma_first_duplicate(property_names(list.properties), 0);
                lemma_split_distinct(list.properties, list.properties.len() as int);
            }
        },
    }
}

/// Properties in which a name stands twice are not lowered, whether the two
/// are flags, properties with a value, or one of each: the error names the
/// first name that is repeated, with the span of its first occurrence and
/// the span of its second one.
pub proof fn lemma_duplicate_is_rejected(properties: ast::PropertiesView<Span>, i: int, j: int)
    requires
        0 <= i < j < properties.properties.len(),
        property_key(properties.properties[i]).name == property_key(properties.properties[j]).name,
    ensures
        lower_properties(Some(properties)) is Err,
        match first_duplicate(property_names(properties.properties), 0) {
            None => false,
            Some((first, second)) => {
                &&& first < second <= j
                &&& lower_properties(Some(properties)) == Err::<
                    crate::ir::PropertiesView<Span>,
                    LoweringError,
                >(
                    LoweringError::DuplicatedProperty {
                        name: property_key(properties.properties[second]).name,
                        first: property_key(properties.properties[first]).span,
                        second: property_key(properties.properties[second]).span,
                    },
                )
            },
        },
{
    let names = property_names(properties.properties);
    lemma_first_duplicate(names, 0);
    assert(names[i] == names[j]);
}

/// A component definition whose children can be lowered and hold a child of
/// the name of the definition is not lowered: the error is a circular
/// definition, with the span of the name and the span of the first such
/// child.
pub proof fn lemma_self_reference_is_rejected(definition: ast::ComponentDefinitionView<Span>, k: int)
    requires
        lower_children(definition.children) is Ok,
        0 <= k < lower_children(definition.children)->Ok_0.len(),
        lower_children(definition.children)->Ok_0[k].name.name == definition.name.name,
    ensures
        ({
            let children = lower_children(definition.children)->Ok_0;
            let first = first_named(children, definition.name.name, 0);
            &&& first is Some
            &&& first->0 <= k
            &&& lower_definition(definition) == Err::<
                crate::ir::ComponentDefinitionView<Span>,
                LoweringError,
            >(
                LoweringError::CircularDefinition(
                    CircularDefinitionError {
                        component_name: definition.name.span,
                        circular: children[first->0].span,
                    },
                ),
            )
        }),
{
    let children = lower_children(definition.children)->Ok_0;
    lemma_first_named(children, definition.name.name, 0, k);
}

/// Where a component from `from` on has a name, the first one that has it is
/// found, and it stands at that component or before it.
proof fn lemma_first_named(components: Seq<ComponentView<Span>>, name: Seq<char>, from: int, k: int)
    requires
        0 <= from <= k < components.len(),
        components[k].name.name == name,
    ensures
        first_named(components, name, from) is Some,
        from <= first_named(components, name, from)->0 <= k,
    decreases k - from,
{
    if components[from].name.name != name {
        lemma_first_named(components, name, from + 1, k);
    }
}

/// Where no declaration from `from` on has an error, none of them does.
proof fn lemma_no_declaration_error(
    component_name: Span,
    declarations: Seq<ast::PropertyDefinitionView<Span>>,
    from: int,
    k: int,
)
    requires
        0 <= from <= k < declarations.len(),
        first_declaration_error(component_name, declarations, from) is None,
    ensures
        declaration_error(component_name, declarations, k) is None,
    decreases k - from,
{
    if from < k {
        lemma_no_declaration_error(component_name, declarations, from + 1, k);
    }
}

/// The names of the text, of the default property and of the named
/// properties among the first `upto` declarations.
pub open spec fn lowered_names(
    declarations: Seq<ast::PropertyDefinitionView<Span>>,
    upto: int,
) -> Seq<Seq<char>> {
    optional_name(text_declaration(declarations, upto)) + optional_name(
        match default_declaration(declarations, upto) {
            Some(d) => Some(d.name),
            None => None,
        },
    ) + declared_names(named_declarations(declarations, upto))
}

/// The names that are lowered from the first `upto` of a list of
/// declarations without an error are distinct, each of them stands among the
/// first `upto` names of the list, and the default property has no default
/// value.
proof fn lemma_declarations_distinct(
    component_name: Span,
    declarations: Seq<ast::PropertyDefinitionView<Span>>,
    upto: int,
)
    requires
        first_declaration_error(component_name, declarations, 0) is None,
        0 <= upto <= declarations.len(),
    ensures
        all_occur(declaration_names(declarations), lowered_names(declarations, upto), upto),
        all_distinct(lowered_names(declarations, upto)),
        default_declaration(declarations, upto) is Some ==> default_declaration(
            declarations,
            upto,
        )->0.default_value is None,
    decreases upto,
{
    let names = declaration_names(declarations);
    if upto > 0 {
        let u = upto - 1;
        lemma_declarations_distinct(component_name, declarations, u);
        lemma_no_declaration_error(component_name, declarations, 0, u);
        let before = lowered_names(declarations, u);
        let after = lowered_names(declarations, upto);
        lemma_occurs_later(names, before, u);
        let name = names[u];
        assert(name == declaration_name(declarations[u]).name);
        assert(declared_before(declarations, u) is None);
        assert(!occurs(names, name, u));
        lemma_index_of_name(names, name, u);
        lemma_index_of_name(names, name, upto);
        assert(occurs(names, name, upto));
        assert forall|k: int| 0 <= k < before.len() implies before[k] != name by {
            assert(occurs(names, before[k], u));
        }
        let texts = optional_name(text_declaration(declarations, u));
        let defaults = optional_name(
            match default_declaration(declarations, u) {
                Some(d) => Some(d.name),
                None => None,
            },
        );
        let named = declared_names(named_declarations(declarations, u));
        assert(before == texts + defaults + named);
        match declarations[u].kind {
            ast::PropertyDefinitionKindView::Text(text) => {
                assert(after =~= seq![name] + defaults + named);
                assert forall|a: int, b: int| 0 <= a < b < after.len() implies after[a]
                    != after[b] by {
                    let shift = texts.len() as int - 1;
                    if a == 0 {
                        assert(after[b] == before[b + shift]);
                    } else {
                        assert(after[a] == before[a + shift]);
                        assert(after[b] == before[b + shift]);
                    }
                }
                assert forall|k: int| 0 <= k < after.len() implies occurs(
                    names,
                    #[trigger] after[k],
                    upto,
                ) by {
                    if k > 0 {
                        assert(after[k] == before[k + texts.len() - 1]);
                    }
                }
            },
            ast::PropertyDefinitionKindView::Default(declared) => {
                assert(after =~= texts + seq![name] + named);
                assert forall|a: int, b: int| 0 <= a < b < after.len() implies after[a]
                    != after[b] by {
                    let at = texts.len() as int;
                    let shift = defaults.len() as int - 1;
                    if b < at {
                        assert(after[a] == before[a]);
                        assert(after[b] == before[b]);
                    } else if b == at {
                        assert(after[a] == before[a]);
                    } else if a < at {
                        assert(after[a] == before[a]);
                        assert(after[b] == before[b + shift]);
                    } else if a == at {
                        assert(after[b] == before[b + shift]);
                    } else {
                        assert(after[a] == before[a + shift]);
                        assert(after[b] == before[b + shift]);
                    }
                }
                assert forall|k: int| 0 <= k < after.len() implies occurs(
                    names,
                    #[trigger] after[k],
                    upto,
                ) by {
                    let at = texts.len() as int;
                    if k < at {
                        assert(after[k] == before[k]);
                    } else if k > at {
                        assert(after[k] == before[k + defaults.len() - 1]);
                    }
                }
            },
            ast::PropertyDefinitionKindView::Named(declared) => {
                assert(declared_names(named_declarations(declarations, upto)) =~= named.push(name));
                assert(after =~= before.push(name));
                lemma_distinct_push(before, name);
                assert forall|k: int| 0 <= k < after.len() implies occurs(
                    names,
                    #[trigger] after[k],
                    upto,
                ) by {
                    if k < before.len() {
                        assert(after[k] == before[k]);
                    }
                }
            },
        }
    } else {
        assert(lowered_names(declarations, upto) =~= Seq::<Seq<char>>::empty());
    }
}

/// The declarations that the lowering gives are well formed: no name is
/// declared twice, and the default property has no default value.
pub proof fn lemma_lowered_declarations_well_formed(
    name: ast::IdentifierView<Span>,
    declarations: Option<ast::PropertiesDefinitionView<Span>>,
)
    ensures
        lower_declarations(name, declarations) is Ok ==> lower_declarations(
            name,
            declarations,
        )->Ok_0.well_formed(),
{
    match declarations {
        None => {
            let lowered = lower_declarations(name, declarations)->Ok_0;
            assert(lowered.names() =~= Seq::<Seq<char>>::empty());
        },
        Some(list) => {
            if lower_declarations(name, declarations) is Ok {
                lemma_declarations_distinct(
                    name.span,
                    list.properties,
                    list.properties.len() as int,
                );
                let lowered = lower_declarations(name, declarations)->Ok_0;
                assert(lowered.names() == lowered_names(
                    list.properties,
                    list.properties.len() as int,
                ));
            }
        },
    }
}

/// Whether every component of a list is well formed.
pub open spec fn all_well_formed(components: Seq<ComponentView<Span>>) -> bool {
    forall|i: int| 0 <= i < components.len() ==> (#[trigger] components[i]).well_formed()
}

/// The component that the lowering gives is well formed.
pub proof fn lemma_lowered_component_well_formed(component: ast::ComponentView<Span>)
    ensures
        lower_component(component) is Ok ==> lower_component(component)->Ok_0.well_formed(),
    decreases component, 0int,
{
    reveal(lower_component);
    reveal(lower_children);
    reveal(lower_components);
    if lower_component(component) is Ok {
        lemma_lowered_properties_well_formed(component.properties);
        lemma_lowered_children_well_formed(component.children);
    }
}

/// The children that the lowering gives are well formed; there are none
/// where the tree has none.
pub proof fn lemma_lowered_children_well_formed(
    children: Option<ast::ComponentChildrenView<Span>>,
)
    ensures
        lower_children(children) is Ok ==> all_well_formed(lower_children(children)->Ok_0),
        children is None ==> lower_children(children) == Ok::<
            Seq<ComponentView<Span>>,
            crate::error::LoweringError,
        >(seq![]),
    decreases children, 0int,
{
    reveal(lower_component);
    reveal(lower_children);
    reveal(lower_components);
    match children {
        None => {},
        Some(list) => {
            lemma_lowered_components_well_formed(list.children, list.children.len() as int);
        },
    }
}

/// The first `upto` components that the lowering gives are well formed.
pub proof fn lemma_lowered_components_well_formed(
    components: Seq<ast::ComponentView<Span>>,
    upto: int,
)
    ensures
        lower_components(components, upto) is Ok ==> all_well_formed(
            lower_components(components, upto)->Ok_0,
        ),
    decreases components, upto,
{
    reveal(lower_component);
    reveal(lower_children);
    reveal(lower_components);
    if 0 < upto <= components.len() {
        lemma_lowered_components_well_formed(components, upto - 1);
        lemma_lowered_component_well_formed(components[upto - 1]);
    }
}

/// Where no component from `from` on has a name, none of them has it.
proof fn lemma_none_named(components: Seq<ComponentView<Span>>, name: Seq<char>, from: int, k: int)
    requires
        0 <= from <= k < components.len(),
        first_named(components, name, from) is None,
    ensures
        components[k].name.name != name,
    decreases k - from,
{
    if from < k {
        lemma_none_named(components, name, from + 1, k);
    }
}

/// The component definition that the lowering gives is well formed: its
/// declarations and its children are, and no child has its name.
pub proof fn lemma_lowered_definition_well_formed(definition: ast::ComponentDefinitionView<Span>)
    ensures
        lower_definition(definition) is Ok ==> lower_definition(definition)->Ok_0.well_formed(),
{
    if lower_definition(definition) is Ok {
        lemma_lowered_children_well_formed(definition.children);
        lemma_lowered_declarations_well_formed(definition.name, definition.properties);
        let children = lower_children(definition.children)->Ok_0;
        assert forall|i: int| 0 <= i < children.len() implies (#[trigger] children[i]).name.name
            != definition.name.name by {
            lemma_none_named(children, definition.name.name, 0, i);
        }
    }
}

/// The first `upto` items that the lowering gives are well formed.
proof fn lemma_lowered_items_well_formed(items: Seq<ast::ModuleItemView<Span>>, upto: int)
    ensures
        lower_items(items, upto) is Ok ==> forall|i: int|
            0 <= i < lower_items(items, upto)->Ok_0.len() ==> (#[trigger] lower_items(
                items,
                upto,
            )->Ok_0[i]).well_formed(),
    decreases upto,
{
    if 0 < upto <= items.len() {
        lemma_lowered_items_well_formed(items, upto - 1);
        match items[upto - 1] {
            ast::ModuleItemView::Component(component) => {
                lemma_lowered_component_well_formed(component);
            },
            ast::ModuleItemView::ComponentDefinition(definition) => {
                lemma_lowered_definition_well_formed(definition);
            },
        }
    }
}

/// Every module that the lowering gives is well formed: in no collection of
/// properties or declarations a name stands twice, no component has a text
/// and children, no default property has a default value, and no component
/// definition holds a child of its own name.
pub proof fn lemma_lowered_module_well_formed(module: ast::ModuleView<Span>)
    ensures
        lower_module(module) is Ok ==> lower_module(module)->Ok_0.well_formed(),
{
    lemma_lowered_items_well_formed(module.items, module.items.len() as int);
}

} // verus!
