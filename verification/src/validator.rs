//! The validator: rules of the language that the grammar does not enforce.
//!
//! The validator reads the tree and reports the first violation that it
//! meets; it changes nothing.

use vstd::prelude::*;
use crate::ast::{
    lemma_component_children_view, option_view, views, Component, ComponentChildren,
    ComponentDefinition, Identifier, Module, ModuleItem, PropertiesDefinition, Property,
    PropertyDefinition, PropertyDefinitionKind, PropertyKind, TypeKind,
};
use crate::names::{find_duplicate, name_views};
use crate::span::Span;
use crate::validator_error::{
    DuplicatedPropertyNameError, MultipleDefaultPropsError, MultipleSlotListPropsError,
    MultipleSlotPropsError, MultipleTextPropsError, SlotAndSlotListPropsError,
    TextComponentWithChildrenError, ValidatorError, Violation,
};
use crate::validator_model::{
    class_violation, component_violation, components_violation, declaration_name, declaration_names,
    declarations_violation, definition_violation, first_in_class, in_class, item_violation,
    items_violation, module_violation, properties_violation, property_key, property_names,
    two_in_class, DeclarationClass,
};

verus! {

/// The validator of a module.
pub struct Validator<'a> {
    ast: &'a Module<Span>,
}

/// The violation that the outcome of a validation stands for.
pub open spec fn outcome(result: Result<(), ValidatorError>) -> Option<Violation> {
    match result {
        Ok(_) => None,
        Err(e) => Some(e@),
    }
}

pub(crate) fn key_of(property: &Property<Span>) -> (r: &Identifier<Span>)
    ensures
        r@ == property_key(property@),
{
    match &property.kind {
        PropertyKind::KeyValue { key, .. } => key,
        PropertyKind::Flag { key } => key,
    }
}

pub(crate) fn name_of(declaration: &PropertyDefinition<Span>) -> (r: &Identifier<Span>)
    ensures
        r@ == declaration_name(declaration@),
{
    match &declaration.kind {
        PropertyDefinitionKind::Text(text) => &text.name,
        PropertyDefinitionKind::Default(named) => &named.name,
        PropertyDefinitionKind::Named(named) => &named.name,
    }
}

pub(crate) fn is_in_class(declaration: &PropertyDefinition<Span>, class: DeclarationClass) -> (r: bool)
    ensures
        r == in_class(declaration@, class),
{
    match (class, &declaration.kind) {
        (DeclarationClass::Text, PropertyDefinitionKind::Text(_)) => true,
        (DeclarationClass::Default, PropertyDefinitionKind::Default(_)) => true,
        (DeclarationClass::Slot, PropertyDefinitionKind::Named(named)) => match named.ty.kind {
            TypeKind::Slot => true,
            _ => false,
        },
        (DeclarationClass::SlotList, PropertyDefinitionKind::Named(named)) => match named.ty.kind {
            TypeKind::SlotList => true,
            _ => false,
        },
        _ => false,
    }
}

pub(crate) fn find_in_class(declarations: &Vec<PropertyDefinition<Span>>, class: DeclarationClass, from: usize) -> (r:
    Option<usize>)
    ensures
        match r {
            Some(k) => first_in_class(views(declarations@), class, from as int) == Some(k as int)
                && from <= k < declarations@.len(),
            None => first_in_class(views(declarations@), class, from as int) is None,
        },
{
    let ghost all = views(declarations@);
    let mut k: usize = from;
    while k < declarations.len()
        invariant
            from <= k,
            all == views(declarations@),
            first_in_class(all, class, from as int) == first_in_class(all, class, k as int),
        decreases declarations@.len() - k,
    {
        if is_in_class(&declarations[k], class) {
            return Some(k);
        }
        k += 1;
    }
    None
}

pub(crate) fn find_two_in_class(declarations: &Vec<PropertyDefinition<Span>>, class: DeclarationClass) -> (r:
    Option<(usize, usize)>)
    ensures
        match r {
            Some((a, b)) => two_in_class(views(declarations@), class) == Some((a as int, b as int))
                && a < b < declarations@.len(),
            None => two_in_class(views(declarations@), class) is None,
        },
{
    let count = declarations.len();
    match find_in_class(declarations, class, 0) {
        Some(a) => match find_in_class(declarations, class, a + 1) {
            Some(b) => Some((a, b)),
            None => None,
        },
        None => None,
    }
}

pub(crate) fn property_key_names(properties: &Vec<Property<Span>>) -> (r: Vec<String>)
    ensures
        name_views(r@) == property_names(views(properties@)),
        r@.len() == properties@.len(),
{
    let mut names: Vec<String> = Vec::new();
    let mut k: usize = 0;
    while k < properties.len()
        invariant
            k <= properties@.len(),
            names@.len() == k,
            forall|j: int| 0 <= j < k ==> names@[j]@ == property_key(properties@[j]@).name,
        decreases properties@.len() - k,
    {
        names.push(key_of(&properties[k]).name.clone());
        k += 1;
    }
    assert(name_views(names@) =~= property_names(views(properties@)));
    names
}

pub(crate) fn declared_names(declarations: &Vec<PropertyDefinition<Span>>) -> (r: Vec<String>)
    ensures
        name_views(r@) == declaration_names(views(declarations@)),
        r@.len() == declarations@.len(),
{
    let mut names: Vec<String> = Vec::new();
    let mut k: usize = 0;
    while k < declarations.len()
        invariant
            k <= declarations@.len(),
            names@.len() == k,
            forall|j: int| 0 <= j < k ==> names@[j]@ == declaration_name(declarations@[j]@).name,
        decreases declarations@.len() - k,
    {
        names.push(name_of(&declarations[k]).name.clone());
        k += 1;
    }
    assert(name_views(names@) =~= declaration_names(views(declarations@)));
    names
}

fn class_error(class: DeclarationClass, component_name: Span, first: Span, second: Span) -> (r:
    ValidatorError)
    ensures
        r@ == (match class {
            DeclarationClass::Text => Violation::MultipleTextProps(
                MultipleTextPropsError { component_name, first, second },
            ),
            DeclarationClass::Default => Violation::MultipleDefaultProps(
                MultipleDefaultPropsError { component_name, first, second },
            ),
            DeclarationClass::Slot => Violation::MultipleSlotProps(
                MultipleSlotPropsError { component_name, first, second },
            ),
            DeclarationClass::SlotList => Violation::MultipleSlotListProps(
                MultipleSlotListPropsError { component_name, first, second },
            ),
        }),
{
    match class {
        DeclarationClass::Text => ValidatorError::MultipleTextProps(
            MultipleTextPropsError { component_name, first, second },
        ),
        DeclarationClass::Default => ValidatorError::MultipleDefaultProps(
            MultipleDefaultPropsError { component_name, first, second },
        ),
        DeclarationClass::Slot => ValidatorError::MultipleSlotProps(
            MultipleSlotPropsError { component_name, first, second },
        ),
        DeclarationClass::SlotList => ValidatorError::MultipleSlotListProps(
            MultipleSlotListPropsError { component_name, first, second },
        ),
    }
}

fn check_class(
    declarations: &Vec<PropertyDefinition<Span>>,
    class: DeclarationClass,
    name: &Identifier<Span>,
) -> (r: Result<(), ValidatorError>)
    ensures
        outcome(r) == class_violation(name@, views(declarations@), class),
{
    match find_two_in_class(declarations, class) {
        Some((a, b)) => Err(
            class_error(class, name.span, declarations[a].span, declarations[b].span),
        ),
        None => Ok(()),
    }
}

impl<'a> Validator<'a> {
    /// The value of the module that the validator reads.
    pub closed spec fn module(&self) -> crate::ast::ModuleView<Span> {
        self.ast@
    }

    /// Creates a validator for the given module.
    pub fn new(ast: &'a Module<Span>) -> (r: Validator<'a>)
        ensures
            r.module() == ast@,
    {
        Validator { ast }
    }

    /// Checks the module. The result is the first violation on the way
    /// through the tree, or nothing where there is none.
    pub fn validate(self) -> (r: Result<(), ValidatorError>)
        ensures
            outcome(r) == module_violation(self.module()),
    {
        self.validate_module(self.ast)
    }

    fn validate_module(&self, module: &Module<Span>) -> (r: Result<(), ValidatorError>)
        ensures
            outcome(r) == module_violation(module@),
    {
        let ghost items = views(module.items@);
        let mut k: usize = 0;
        while k < module.items.len()
            invariant
                k <= module.items@.len(),
                items == views(module.items@),
                items_violation(items, 0) == items_violation(items, k as int),
            decreases module.items@.len() - k,
        {
            match self.validate_module_item(&module.items[k]) {
                Ok(_) => {},
                Err(e) => {
                    return Err(e);
                },
            }
            k += 1;
        }
        Ok(())
    }

    fn validate_module_item(&self, item: &ModuleItem<Span>) -> (r: Result<(), ValidatorError>)
        ensures
            outcome(r) == item_violation(item@),
    {
        match item {
            ModuleItem::Component(component) => self.validate_component(component),
            ModuleItem::ComponentDefinition(definition) => self.validate_component_definition(
                definition,
            ),
        }
    }

    fn validate_component(&self, component: &Component<Span>) -> (r: Result<(), ValidatorError>)
        ensures
            outcome(r) == component_violation(component@),
        decreases component,
    {
        reveal(component_violation);
        reveal(components_violation);
        proof {
            lemma_component_children_view(*component);
        }
        match (&component.text, &component.children) {
            (Some(text), Some(children)) => {
                return Err(
                    ValidatorError::TextComponentWithChildren(
                        TextComponentWithChildrenError {
                            component_name: component.name.span,
                            text: text.span,
                            children: children.span,
                        },
                    ),
                );
            },
            _ => {},
        }
        match &component.properties {
            Some(properties) => {
                match self.validate_component_properties(&properties.properties, component) {
                    Ok(_) => {},
                    Err(e) => {
                        return Err(e);
                    },
                }
            },
            None => {},
        }
        match &component.children {
            Some(list) => {
                assert(decreases_to!(component => component.children));
                assert(component.children->0 == *list);
                assert(decreases_to!(component.children => component.children->0));
                self.validate_children(list)
            },
            None => Ok(()),
        }
    }

    fn validate_children(&self, list: &ComponentChildren<Span>) -> (r: Result<(), ValidatorError>)
        ensures
            outcome(r) == components_violation(views(list.children@), 0),
        decreases list,
    {
        let ghost all = views(list.children@);
        let mut k: usize = 0;
        while k < list.children.len()
            invariant
                k <= list.children@.len(),
                all == views(list.children@),
                components_violation(all, 0) == components_violation(all, k as int),
            decreases list.children@.len() - k,
        {
            reveal(component_violation);
            reveal(components_violation);
            assert(decreases_to!(list => list.children));
            assert(decreases_to!(list.children => list.children[k as int]));
            match self.validate_component(&list.children[k]) {
                Ok(_) => {},
                Err(e) => {
                    return Err(e);
                },
            }
            k += 1;
        }
        reveal(component_violation);
        reveal(components_violation);
        Ok(())
    }

    fn validate_component_properties(
        &self,
        properties: &Vec<Property<Span>>,
        component: &Component<Span>,
    ) -> (r: Result<(), ValidatorError>)
        requires
            component.properties is Some,
            component.properties->0.properties == *properties,
        ensures
            outcome(r) == properties_violation(component.name@, option_view(component.properties)),
    {
        let names = property_key_names(properties);
        match find_duplicate(&names) {
            Some((i, j)) => {
                let first = key_of(&properties[i]);
                let second = key_of(&properties[j]);
                Err(
                    ValidatorError::DuplicatedPropertyName(
                        DuplicatedPropertyNameError {
                            component_name: component.name.span,
                            first: first.span,
                            second: second.span,
                            name: second.name.clone(),
                        },
                    ),
                )
            },
            None => Ok(()),
        }
    }

    fn validate_component_definition(&self, definition: &ComponentDefinition<Span>) -> (r: Result<
        (),
        ValidatorError,
    >)
        ensures
            outcome(r) == definition_violation(definition@),
    {
        match &definition.properties {
            Some(properties) => {
                match self.validate_component_definition_properties(properties, definition) {
                    Ok(_) => {},
                    Err(e) => {
                        return Err(e);
                    },
                }
            },
            None => {},
        }
        match &definition.children {
            Some(list) => self.validate_children(list),
            None => Ok(()),
        }
    }

    fn validate_component_definition_properties(
        &self,
        properties: &PropertiesDefinition<Span>,
        component: &ComponentDefinition<Span>,
    ) -> (r: Result<(), ValidatorError>)
        ensures
            outcome(r) == declarations_violation(component.name@, views(properties.properties@)),
    {
        let declarations = &properties.properties;
        let component_name = component.name.span;
        let ghost all = views(declarations@);
        let ghost name = component.name@;
        match check_class(declarations, DeclarationClass::Text, &component.name) {
            Ok(_) => {},
            Err(e) => {
                return Err(e);
            },
        }
        match check_class(declarations, DeclarationClass::Default, &component.name) {
            Ok(_) => {},
            Err(e) => {
                return Err(e);
            },
        }
        match check_class(declarations, DeclarationClass::Slot, &component.name) {
            Ok(_) => {},
            Err(e) => {
                return Err(e);
            },
        }
        match check_class(declarations, DeclarationClass::SlotList, &component.name) {
            Ok(_) => {},
            Err(e) => {
                return Err(e);
            },
        }
        let slot = find_in_class(declarations, DeclarationClass::Slot, 0);
        let slot_list = find_in_class(declarations, DeclarationClass::SlotList, 0);
        match (slot, slot_list) {
            (Some(a), Some(b)) => {
                return Err(
                    ValidatorError::SlotAndSlotListProps(
                        SlotAndSlotListPropsError {
                            component_name,
                            slot: declarations[a].span,
                            slot_list: declarations[b].span,
                        },
                    ),
                );
            },
            _ => {},
        }
        let names = declared_names(declarations);
        match find_duplicate(&names) {
            Some((i, j)) => {
                let first = name_of(&declarations[i]);
                let second = name_of(&declarations[j]);
                Err(
                    ValidatorError::DuplicatedPropertyName(
                        DuplicatedPropertyNameError {
                            component_name,
                            first: first.span,
                            second: second.span,
                            name: second.name.clone(),
                        },
                    ),
                )
            },
            None => Ok(()),
        }
    }
}

} // verus!
