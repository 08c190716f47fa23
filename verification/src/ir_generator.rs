//! The lowering: from the syntax tree to the intermediate representation.
//!
//! The lowering takes the tree by value and moves its parts into the
//! result. It fails at the first rule that the tree breaks.

use vstd::prelude::*;
use crate::ast;
use crate::ast::{option_view, views};
use crate::error::{
    CircularDefinitionError, DefaultPropertyWithValueError, DuplicatedPropertyError,
    IrGeneratorError, LoweringError, MultipleDefaultPropertiesError, MultipleTextPropertiesError,
    TextComponentWithChildrenError,
};
use crate::ir;
use crate::ir_laws::lemma_lowered_module_well_formed;
use crate::ir_model::{
    declaration_error, declared_before, default_declaration, first_declaration_error, first_named,
    flags_of, lower_children, lower_component, lower_components, lower_declaration,
    lower_declarations, lower_definition, lower_item, lower_items, lower_module, lower_properties,
    named_declarations, named_of, text_declaration,
};
use crate::names::{find_duplicate, find_earlier, name_views};
use crate::span::Span;
use crate::validator::{declared_names, find_in_class, key_of, property_key_names};
use crate::validator_model::{declaration_names, DeclarationClass};

verus! {

/// The generator of the intermediate representation of a module.
pub struct IrGenerator {
    ast: ast::Module<Span>,
}

/// The mathematical value of the outcome of a lowering.
pub open spec fn lowered<T: View>(result: Result<T, IrGeneratorError>) -> Result<T::V, LoweringError> {
    match result {
        Ok(tree) => Ok(tree@),
        Err(e) => Err(e@),
    }
}

/// The mathematical value of the outcome of the lowering of a list.
pub open spec fn lowered_list<T: View>(result: Result<Vec<T>, IrGeneratorError>) -> Result<
    Seq<T::V>,
    LoweringError,
> {
    match result {
        Ok(list) => Ok(views(list@)),
        Err(e) => Err(e@),
    }
}

impl IrGenerator {
    /// The value of the module that the generator lowers.
    pub closed spec fn module(&self) -> ast::ModuleView<Span> {
        self.ast@
    }

    /// Creates a generator for the given module.
    pub fn new(ast: ast::Module<Span>) -> (r: IrGenerator)
        ensures
            r.module() == ast@,
    {
        IrGenerator { ast }
    }

    /// Lowers the module. The result is the intermediate representation of
    /// the module, or the first error on the way through the tree.
    pub fn generate(self) -> (r: Result<ir::Module<Span>, IrGeneratorError>)
        ensures
            lowered(r) == lower_module(self.module()),
            r matches Ok(module) ==> module@.well_formed(),
    {
        proof {
            lemma_lowered_module_well_formed(self.ast@);
        }
        Self::generate_module(self.ast)
    }

    fn generate_module(module: ast::Module<Span>) -> (r: Result<ir::Module<Span>, IrGeneratorError>)
        ensures
            lowered(r) == lower_module(module@),
    {
        let ghost all = views(module.items@);
        let span = module.span;
        let mut items: Vec<ir::ModuleItem<Span>> = Vec::new();
        assert(views(items@) =~= Seq::<ir::ModuleItemView<Span>>::empty());
        for item in it: module.items
            invariant
                it.seq() == module.items@,
                all == views(module.items@),
                lower_items(all, it.index() as int) == Ok::<
                    Seq<ir::ModuleItemView<Span>>,
                    LoweringError,
                >(views(items@)),
        {
            let ghost before = views(items@);
            match Self::generate_module_item(item) {
                Ok(lowered_item) => {
                    items.push(lowered_item);
                    assert(views(items@) =~= before.push(lowered_item@));
                },
                Err(e) => {
                    proof {
                        lemma_items_error_stays(all, it.index() as int + 1, all.len() as int);
                    }
                    return Err(e);
                },
            }
        }
        Ok(ir::Module { span, items })
    }

    fn generate_module_item(item: ast::ModuleItem<Span>) -> (r: Result<
        ir::ModuleItem<Span>,
        IrGeneratorError,
    >)
        ensures
            lowered(r) == lower_item(item@),
    {
        match item {
            ast::ModuleItem::Component(component) => match Self::generate_component(component) {
                Ok(c) => Ok(ir::ModuleItem::Component(c)),
                Err(e) => Err(e),
            },
            ast::ModuleItem::ComponentDefinition(definition) => {
                match Self::generate_component_definition(definition) {
                    Ok(d) => Ok(ir::ModuleItem::ComponentDefinition(d)),
                    Err(e) => Err(e),
                }
            },
        }
    }

    fn generate_component(component: ast::Component<Span>) -> (r: Result<
        ir::Component<Span>,
        IrGeneratorError,
    >)
        ensures
            lowered(r) == lower_component(component@),
        decreases component,
    {
        reveal(lower_component);
        reveal(lower_children);
        reveal(lower_components);
        proof {
            ast::lemma_component_children_view(component);
        }
        let ghost whole = component;
        let ast::Component { span, name, properties, children, text } = component;
        let properties = match properties {
            Some(list) => match Self::generate_properties(list) {
                Ok(lowered_properties) => lowered_properties,
                Err(e) => {
                    return Err(e);
                },
            },
            None => ir::Properties::empty(),
        };
        match (&children, &text) {
            (Some(list), Some(content)) => {
                return Err(
                    IrGeneratorError::TextComponentWithChildren(
                        TextComponentWithChildrenError {
                            component_name: name.span,
                            children: list.span,
                            text: content.span,
                        },
                    ),
                );
            },
            _ => {},
        }
        let children = match children {
            Some(list) => {
                assert(decreases_to!(whole => whole.children));
                assert(whole.children->0 == list);
                assert(decreases_to!(whole.children => whole.children->0));
                match Self::generate_children(list) {
                    Ok(lowered_children) => lowered_children,
                    Err(e) => {
                        return Err(e);
                    },
                }
            },
            None => {
                let none: Vec<ir::Component<Span>> = Vec::new();
                assert(views(none@) =~= Seq::<ir::ComponentView<Span>>::empty());
                none
            },
        };
        let result = ir::Component { span, name, properties, children, text };
        proof {
            ir::lemma_component_children_view(result);
        }
        Ok(result)
    }

    fn generate_children(children: ast::ComponentChildren<Span>) -> (r: Result<
        Vec<ir::Component<Span>>,
        IrGeneratorError,
    >)
        ensures
            lowered_list(r) == lower_children(Some(children@)),
        decreases children,
    {
        reveal(lower_component);
        reveal(lower_children);
        reveal(lower_components);
        let ghost whole = children;
        let ghost all = views(children.children@);
        let mut list: Vec<ir::Component<Span>> = Vec::new();
        assert(views(list@) =~= Seq::<ir::ComponentView<Span>>::empty());
        for child in it: children.children
            invariant
                it.seq() == whole.children@,
                all == views(whole.children@),
                lower_components(all, it.index() as int) == Ok::<
                    Seq<ir::ComponentView<Span>>,
                    LoweringError,
                >(views(list@)),
        {
            reveal(lower_component);
            reveal(lower_children);
            reveal(lower_components);
            let ghost before = views(list@);
            assert(decreases_to!(whole => whole.children));
            assert(decreases_to!(whole.children => whole.children[it.index() as int]));
            match Self::generate_component(child) {
                Ok(lowered_child) => {
                    list.push(lowered_child);
                    assert(views(list@) =~= before.push(lowered_child@));
                },
                Err(e) => {
                    proof {
                        lemma_components_error_stays(all, it.index() as int + 1, all.len() as int);
                    }
                    return Err(e);
                },
            }
        }
        Ok(list)
    }

    fn generate_properties(properties: ast::Properties<Span>) -> (r: Result<
        ir::Properties<Span>,
        IrGeneratorError,
    >)
        ensures
            lowered(r) == lower_properties(Some(properties@)),
    {
        let ghost all = views(properties.properties@);
        let names = property_key_names(&properties.properties);
        match find_duplicate(&names) {
            Some((i, j)) => {
                let first = key_of(&properties.properties[i]);
                let second = key_of(&properties.properties[j]);
                return Err(
                    IrGeneratorError::DuplicatedProperty(
                        DuplicatedPropertyError {
                            name: second.name.clone(),
                            first: first.span,
                            second: second.span,
                        },
                    ),
                );
            },
            None => {},
        }
        let ast::Properties { span, default, properties: list } = properties;
        let mut flag_properties: Vec<ir::Identifier<Span>> = Vec::new();
        let mut named_properties: Vec<ir::Property<Span>> = Vec::new();
        assert(views(flag_properties@) =~= flags_of(all, 0));
        assert(views(named_properties@) =~= named_of(all, 0));
        for property in it: list
            invariant
                it.seq() == list@,
                all == views(list@),
                views(flag_properties@) == flags_of(all, it.index() as int),
                views(named_properties@) == named_of(all, it.index() as int),
        {
            let ghost flags = views(flag_properties@);
            let ghost named = views(named_properties@);
            let ast::Property { span: property_span, kind } = property;
            match kind {
                ast::PropertyKind::KeyValue { key, value } => {
                    let lowered_property = ir::Property { span: property_span, key, value };
                    named_properties.push(lowered_property);
                    assert(views(named_properties@) =~= named.push(lowered_property@));
                },
                ast::PropertyKind::Flag { key } => {
                    flag_properties.push(key);
                    assert(views(flag_properties@) =~= flags.push(key@));
                },
            }
        }
        Ok(ir::Properties { default, flag_properties, named_properties })
    }

    fn generate_component_definition(definition: ast::ComponentDefinition<Span>) -> (r: Result<
        ir::ComponentDefinition<Span>,
        IrGeneratorError,
    >)
        ensures
            lowered(r) == lower_definition(definition@),
    {
        reveal(lower_children);
        let ast::ComponentDefinition { span, name, properties, children } = definition;
        let children = match children {
            Some(list) => match Self::generate_children(list) {
                Ok(lowered_children) => lowered_children,
                Err(e) => {
                    return Err(e);
                },
            },
            None => {
                let none: Vec<ir::Component<Span>> = Vec::new();
                assert(views(none@) =~= Seq::<ir::ComponentView<Span>>::empty());
                none
            },
        };
        match find_named(&children, &name) {
            Some(k) => {
                return Err(
                    IrGeneratorError::CircularDefinition(
                        CircularDefinitionError {
                            component_name: name.span,
                            circular: children[k].span,
                        },
                    ),
                );
            },
            None => {},
        }
        let properties = match properties {
            Some(list) => match Self::generate_properties_definition(&name, list) {
                Ok(lowered_properties) => lowered_properties,
                Err(e) => {
                    return Err(e);
                },
            },
            None => {
                let none: Vec<ir::PropertyDefinition<Span>> = Vec::new();
                assert(views(none@) =~= Seq::<ir::PropertyDefinitionView<Span>>::empty());
                ir::PropertiesDefinition {
                    span: name.span,
                    text_property: None,
                    default_property: None,
                    properties: none,
                }
            },
        };
        Ok(ir::ComponentDefinition { span, name, properties, children })
    }

    fn generate_properties_definition(
        name: &ast::Identifier<Span>,
        definition: ast::PropertiesDefinition<Span>,
    ) -> (r: Result<ir::PropertiesDefinition<Span>, IrGeneratorError>)
        ensures
            lowered(r) == lower_declarations(name@, Some(definition@)),
    {
        let ghost all = views(definition.properties@);
        match check_declarations(name.span, &definition.properties) {
            Ok(_) => {},
            Err(e) => {
                return Err(e);
            },
        }
        let ast::PropertiesDefinition { span, properties: list } = definition;
        let mut text_property: Option<ir::Identifier<Span>> = None;
        let mut default_property: Option<ir::PropertyDefinition<Span>> = None;
        let mut properties: Vec<ir::PropertyDefinition<Span>> = Vec::new();
        assert(views(properties@) =~= named_declarations(all, 0));
        for declaration in it: list
            invariant
                it.seq() == list@,
                all == views(list@),
                option_view(text_property) == text_declaration(all, it.index() as int),
                option_view(default_property) == default_declaration(all, it.index() as int),
                views(properties@) == named_declarations(all, it.index() as int),
        {
            let ghost named = views(properties@);
            let ast::PropertyDefinition { span: declaration_span, kind } = declaration;
            match kind {
                ast::PropertyDefinitionKind::Default(declared) => {
                    default_property = Some(Self::generate_declaration(declaration_span, declared));
                },
                ast::PropertyDefinitionKind::Text(declared) => {
                    text_property = Some(declared.name);
                },
                ast::PropertyDefinitionKind::Named(declared) => {
                    let lowered_declaration = Self::generate_declaration(
                        declaration_span,
                        declared,
                    );
                    properties.push(lowered_declaration);
                    assert(views(properties@) =~= named.push(lowered_declaration@));
                },
            }
        }
        Ok(ir::PropertiesDefinition { span, text_property, default_property, properties })
    }

    fn generate_declaration(span: Span, declared: ast::NamedPropertyDefinition<Span>) -> (r:
        ir::PropertyDefinition<Span>)
        ensures
            r@ == lower_declaration(span, declared@),
    {
        let ast::NamedPropertyDefinition { name, ty, default_value } = declared;
        ir::PropertyDefinition { span, name, ty, default_value }
    }
}

fn find_named(children: &Vec<ir::Component<Span>>, name: &ast::Identifier<Span>) -> (r: Option<
    usize,
>)
    ensures
        match r {
            Some(k) => first_named(views(children@), name@.name, 0) == Some(k as int) && k
                < children@.len(),
            None => first_named(views(children@), name@.name, 0) is None,
        },
{
    let ghost all = views(children@);
    let mut k: usize = 0;
    while k < children.len()
        invariant
            k <= children@.len(),
            all == views(children@),
            first_named(all, name@.name, 0) == first_named(all, name@.name, k as int),
        decreases children@.len() - k,
    {
        if children[k].name.name == name.name {
            return Some(k);
        }
        k += 1;
    }
    None
}

fn check_declaration(
    component_name: Span,
    declarations: &Vec<ast::PropertyDefinition<Span>>,
    names: &Vec<String>,
    k: usize,
) -> (r: Result<(), IrGeneratorError>)
    requires
        k < declarations@.len(),
        name_views(names@) == declaration_names(views(declarations@)),
        names@.len() == declarations@.len(),
    ensures
        match r {
            Ok(_) => declaration_error(component_name, views(declarations@), k as int) is None,
            Err(e) => declaration_error(component_name, views(declarations@), k as int) == Some(e@),
        },
{
    let declaration = &declarations[k];
    assert(name_views(names@)[k as int] == declaration_names(views(declarations@))[k as int]);
    assert(names@[k as int]@ == crate::validator_model::declaration_name(
        views(declarations@)[k as int],
    ).name);
    let duplicate = match find_earlier(names, k) {
        Some(i) => Some(
            IrGeneratorError::DuplicatedProperty(
                DuplicatedPropertyError {
                    name: names[k].clone(),
                    first: declarations[i].span,
                    second: declaration.span,
                },
            ),
        ),
        None => None,
    };
    assert(match duplicate {
        Some(e) => declared_before(views(declarations@), k as int) == Some(e@),
        None => declared_before(views(declarations@), k as int) is None,
    });
    match &declaration.kind {
        ast::PropertyDefinitionKind::Default(named) => {
            match find_in_class(declarations, DeclarationClass::Default, 0) {
                Some(j) => {
                    if j < k {
                        return Err(
                            IrGeneratorError::MultipleDefaultProperties(
                                MultipleDefaultPropertiesError {
                                    component_name,
                                    first: declarations[j].span,
                                    second: declaration.span,
                                },
                            ),
                        );
                    }
                },
                None => {},
            }
            match duplicate {
                Some(e) => {
                    return Err(e);
                },
                None => {},
            }
            match &named.default_value {
                Some(value) => Err(
                    IrGeneratorError::DefaultPropertyWithValue(
                        DefaultPropertyWithValueError {
                            component_name,
                            property: declaration.span,
                            default_value: value.span,
                        },
                    ),
                ),
                None => Ok(()),
            }
        },
        ast::PropertyDefinitionKind::Text(_) => {
            match find_in_class(declarations, DeclarationClass::Text, 0) {
                Some(j) => {
                    if j < k {
                        return Err(
                            IrGeneratorError::MultipleTextProperties(
                                MultipleTextPropertiesError {
                                    component_name,
                                    first: declarations[j].span,
                                    second: declaration.span,
                                },
                            ),
                        );
                    }
                },
                None => {},
            }
            match duplicate {
                Some(e) => Err(e),
                None => Ok(()),
            }
        },
        ast::PropertyDefinitionKind::Named(_) => match duplicate {
            Some(e) => Err(e),
            None => Ok(()),
        },
    }
}

fn check_declarations(component_name: Span, declarations: &Vec<ast::PropertyDefinition<Span>>) -> (r:
    Result<(), IrGeneratorError>)
    ensures
        match r {
            Ok(_) => first_declaration_error(component_name, views(declarations@), 0) is None,
            Err(e) => first_declaration_error(component_name, views(declarations@), 0) == Some(e@),
        },
{
    let names = declared_names(declarations);
    let ghost all = views(declarations@);
    let mut k: usize = 0;
    while k < declarations.len()
        invariant
            k <= declarations@.len(),
            all == views(declarations@),
            name_views(names@) == declaration_names(all),
            names@.len() == declarations@.len(),
            first_declaration_error(component_name, all, 0) == first_declaration_error(
                component_name,
                all,
                k as int,
            ),
        decreases declarations@.len() - k,
    {
        match check_declaration(component_name, declarations, &names, k) {
            Ok(_) => {},
            Err(e) => {
                return Err(e);
            },
        }
        k += 1;
    }
    Ok(())
}

/// Once the lowering of the first components of a list has failed, the
/// lowering of more of them fails with the same error.
proof fn lemma_components_error_stays(
    components: Seq<ast::ComponentView<Span>>,
    upto: int,
    later: int,
)
    requires
        0 <= upto <= later <= components.len(),
        lower_components(components, upto) is Err,
    ensures
        lower_components(components, later) == lower_components(components, upto),
    decreases later - upto,
{
    reveal(lower_components);
    if upto < later {
        lemma_components_error_stays(components, upto, later - 1);
    }
}

/// Once the lowering of the first items of a module has failed, the lowering
/// of more of them fails with the same error.
proof fn lemma_items_error_stays(items: Seq<ast::ModuleItemView<Span>>, upto: int, later: int)
    requires
        0 <= upto <= later <= items.len(),
        lower_items(items, upto) is Err,
    ensures
        lower_items(items, later) == lower_items(items, upto),
    decreases later - upto,
{
    if upto < later {
        lemma_items_error_stays(items, upto, later - 1);
    }
}

/// The module, lowered to the intermediate representation, or the first
/// error on the way through the tree.
pub fn generate_ir(ast: ast::Module<Span>) -> (r: Result<ir::Module<Span>, IrGeneratorError>)
    ensures
        lowered(r) == lower_module(ast@),
        r matches Ok(module) ==> module@.well_formed(),
{
    IrGenerator::new(ast).generate()
}

} // verus!
