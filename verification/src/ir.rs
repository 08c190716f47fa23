//! The intermediate representation.
//!
//! It follows the syntax tree, with the properties of a component split into
//! flags and properties with a value, and the declarations of a component
//! definition split into the text, the default property and the named
//! properties. The collections are keyed by name: no name stands twice in
//! them. Values, texts, identifiers and types are those of the syntax tree.

use vstd::prelude::*;
use vstd::std_specs::convert::FromSpecImpl;
use crate::ast::{option_view, views, IdentifierView, TextView, TypeView, ValueView};
pub use crate::ast::{
    Identifier, InterpolationSegment, InterpolationSegmentKind, StringValue, Text, Type, TypeKind,
    Value, ValueKind,
};
use crate::names::all_distinct;

verus! {

/// A module: its items in order.
#[derive(Debug, Clone, PartialEq, Eq)]
pub struct Module<SpanT> {
    pub span: SpanT,
    pub items: Vec<ModuleItem<SpanT>>,
}

/// An item of a module: a component or a component definition.
#[derive(Debug, Clone, PartialEq, Eq)]
pub enum ModuleItem<SpanT> {
    Component(Component<SpanT>),
    ComponentDefinition(ComponentDefinition<SpanT>),
}

/// A component. A component without children has an empty list.
#[derive(Debug, PartialEq, Eq)]
pub struct Component<SpanT> {
    pub span: SpanT,
    pub name: Identifier<SpanT>,
    pub properties: Properties<SpanT>,
    pub children: Vec<Component<SpanT>>,
    pub text: Option<Text<SpanT>>,
}

/// The properties of a component: the default value, the flags and the
/// properties with a value. No name stands twice among the flags and the
/// keys.
#[derive(Debug, Clone, PartialEq, Eq)]
pub struct Properties<SpanT> {
    pub default: Option<Value<SpanT>>,
    pub flag_properties: Vec<Identifier<SpanT>>,
    pub named_properties: Vec<Property<SpanT>>,
}

/// A property with a value.
#[derive(Debug, Clone, PartialEq, Eq)]
pub struct Property<SpanT> {
    pub span: SpanT,
    pub key: Identifier<SpanT>,
    pub value: Value<SpanT>,
}

/// A component definition. A definition without a body has an empty list
/// of children.
#[derive(Debug, Clone, PartialEq, Eq)]
pub struct ComponentDefinition<SpanT> {
    pub span: SpanT,
    pub name: Identifier<SpanT>,
    pub properties: PropertiesDefinition<SpanT>,
    pub children: Vec<Component<SpanT>>,
}

/// The declarations of a component definition: the text, the default
/// property, and the named properties. No name is declared twice.
#[derive(Debug, Clone, PartialEq, Eq)]
pub struct PropertiesDefinition<SpanT> {
    pub span: SpanT,
    pub text_property: Option<Identifier<SpanT>>,
    pub default_property: Option<PropertyDefinition<SpanT>>,
    pub properties: Vec<PropertyDefinition<SpanT>>,
}

/// The declaration of a property.
#[derive(Debug, Clone, PartialEq, Eq)]
pub struct PropertyDefinition<SpanT> {
    pub span: SpanT,
    pub name: Identifier<SpanT>,
    pub ty: Type<SpanT>,
    pub default_value: Option<Value<SpanT>>,
}

/// The mathematical value of [`Module`].
pub struct ModuleView<SpanT> {
    pub span: SpanT,
    pub items: Seq<ModuleItemView<SpanT>>,
}

/// The mathematical value of [`ModuleItem`].
pub enum ModuleItemView<SpanT> {
    Component(ComponentView<SpanT>),
    ComponentDefinition(ComponentDefinitionView<SpanT>),
}

/// The mathematical value of [`Component`].
pub struct ComponentView<SpanT> {
    pub span: SpanT,
    pub name: IdentifierView<SpanT>,
    pub properties: PropertiesView<SpanT>,
    pub children: Seq<ComponentView<SpanT>>,
    pub text: Option<TextView<SpanT>>,
}

/// The mathematical value of [`Properties`].
pub struct PropertiesView<SpanT> {
    pub default: Option<ValueView<SpanT>>,
    pub flag_properties: Seq<IdentifierView<SpanT>>,
    pub named_properties: Seq<PropertyView<SpanT>>,
}

/// The mathematical value of [`Property`].
pub struct PropertyView<SpanT> {
    pub span: SpanT,
    pub key: IdentifierView<SpanT>,
    pub value: ValueView<SpanT>,
}

/// The mathematical value of [`ComponentDefinition`].
pub struct ComponentDefinitionView<SpanT> {
    pub span: SpanT,
    pub name: IdentifierView<SpanT>,
    pub properties: PropertiesDefinitionView<SpanT>,
    pub children: Seq<ComponentView<SpanT>>,
}

/// The mathematical value of [`PropertiesDefinition`].
pub struct PropertiesDefinitionView<SpanT> {
    pub span: SpanT,
    pub text_property: Option<IdentifierView<SpanT>>,
    pub default_property: Option<PropertyDefinitionView<SpanT>>,
    pub properties: Seq<PropertyDefinitionView<SpanT>>,
}

/// The mathematical value of [`PropertyDefinition`].
pub struct PropertyDefinitionView<SpanT> {
    pub span: SpanT,
    pub name: IdentifierView<SpanT>,
    pub ty: TypeView<SpanT>,
    pub default_value: Option<ValueView<SpanT>>,
}

impl<SpanT> View for Property<SpanT> {
    type V = PropertyView<SpanT>;

    open spec fn view(&self) -> PropertyView<SpanT> {
        PropertyView { span: self.span, key: self.key@, value: self.value@ }
    }
}

impl<SpanT> View for Properties<SpanT> {
    type V = PropertiesView<SpanT>;

    open spec fn view(&self) -> PropertiesView<SpanT> {
        PropertiesView {
            default: option_view(self.default),
            flag_properties: views(self.flag_properties@),
            named_properties: views(self.named_properties@),
        }
    }
}

impl<SpanT> View for PropertyDefinition<SpanT> {
    type V = PropertyDefinitionView<SpanT>;

    open spec fn view(&self) -> PropertyDefinitionView<SpanT> {
        PropertyDefinitionView {
            span: self.span,
            name: self.name@,
            ty: self.ty@,
            default_value: option_view(self.default_value),
        }
    }
}

impl<SpanT> View for PropertiesDefinition<SpanT> {
    type V = PropertiesDefinitionView<SpanT>;

    open spec fn view(&self) -> PropertiesDefinitionView<SpanT> {
        PropertiesDefinitionView {
            span: self.span,
            text_property: option_view(self.text_property),
            default_property: option_view(self.default_property),
            properties: views(self.properties@),
        }
    }
}

/// The value of a component, with the values of its children.
pub open spec fn component_view<SpanT>(component: Component<SpanT>) -> ComponentView<SpanT>
    decreases component,
{
    ComponentView {
        span: component.span,
        name: component.name@,
        properties: component.properties@,
        children: Seq::new(
            component.children@.len(),
            |i: int|
                if 0 <= i < component.children@.len() {
                    component_view(component.children@[i])
                } else {
                    arbitrary()
                },
        ),
        text: option_view(component.text),
    }
}

impl<SpanT> View for Component<SpanT> {
    type V = ComponentView<SpanT>;

    open spec fn view(&self) -> ComponentView<SpanT> {
        component_view(*self)
    }
}

impl<SpanT> View for ComponentDefinition<SpanT> {
    type V = ComponentDefinitionView<SpanT>;

    open spec fn view(&self) -> ComponentDefinitionView<SpanT> {
        ComponentDefinitionView {
            span: self.span,
            name: self.name@,
            properties: self.properties@,
            children: views(self.children@),
        }
    }
}

impl<SpanT> View for ModuleItem<SpanT> {
    type V = ModuleItemView<SpanT>;

    open spec fn view(&self) -> ModuleItemView<SpanT> {
        match *self {
            ModuleItem::Component(c) => ModuleItemView::Component(c@),
            ModuleItem::ComponentDefinition(d) => ModuleItemView::ComponentDefinition(d@),
        }
    }
}

impl<SpanT> View for Module<SpanT> {
    type V = ModuleView<SpanT>;

    open spec fn view(&self) -> ModuleView<SpanT> {
        ModuleView { span: self.span, items: views(self.items@) }
    }
}

/// The value of a component holds the values of its children.
pub proof fn lemma_component_children_view<SpanT>(component: Component<SpanT>)
    ensures
        component@.children == views(component.children@),
{
    let mine = component@.children;
    assert(mine.len() == component.children@.len());
    assert forall|i: int| 0 <= i < mine.len() implies mine[i] == views(component.children@)[i] by {}
    assert(mine =~= views(component.children@));
}

/// The names of a list of identifiers.
pub open spec fn identifier_names<SpanT>(identifiers: Seq<IdentifierView<SpanT>>) -> Seq<Seq<char>> {
    Seq::new(identifiers.len(), |i: int| identifiers[i].name)
}

/// The names of the keys of a list of properties.
pub open spec fn key_names<SpanT>(properties: Seq<PropertyView<SpanT>>) -> Seq<Seq<char>> {
    Seq::new(properties.len(), |i: int| properties[i].key.name)
}

/// The names that a list of declarations declares.
pub open spec fn declared_names<SpanT>(declarations: Seq<PropertyDefinitionView<SpanT>>) -> Seq<
    Seq<char>,
> {
    Seq::new(declarations.len(), |i: int| declarations[i].name.name)
}

/// The name of what an option holds, as a list of none or one.
pub open spec fn optional_name<SpanT>(identifier: Option<IdentifierView<SpanT>>) -> Seq<Seq<char>> {
    match identifier {
        Some(i) => seq![i.name],
        None => seq![],
    }
}

impl<SpanT> PropertiesView<SpanT> {
    /// All names of the properties: the flags, then the keys.
    pub open spec fn names(self) -> Seq<Seq<char>> {
        identifier_names(self.flag_properties) + key_names(self.named_properties)
    }

    /// No name stands twice among the flags and the keys.
    pub open spec fn well_formed(self) -> bool {
        all_distinct(self.names())
    }

    /// Whether there is a flag of the given name.
    pub open spec fn has_flag(self, name: Seq<char>) -> bool {
        exists|i: int| 0 <= i < self.flag_properties.len() && self.flag_properties[i].name == name
    }

    /// Whether there is a property with a value of the given name.
    pub open spec fn has_named(self, name: Seq<char>) -> bool {
        exists|i: int|
            0 <= i < self.named_properties.len() && self.named_properties[i].key.name == name
    }
}

impl<SpanT> PropertiesDefinitionView<SpanT> {
    /// All names that are declared: the text, the default property, then the
    /// named properties.
    pub open spec fn names(self) -> Seq<Seq<char>> {
        optional_name(self.text_property) + optional_name(
            match self.default_property {
                Some(d) => Some(d.name),
                None => None,
            },
        ) + declared_names(self.properties)
    }

    /// No name is declared twice, and the default property has no default
    /// value.
    pub open spec fn well_formed(self) -> bool {
        &&& all_distinct(self.names())
        &&& self.default_property is Some ==> self.default_property->0.default_value is None
    }
}

impl<SpanT> ComponentView<SpanT> {
    /// The properties are well formed, a component with a text has no
    /// children, and every child is well formed.
    pub open spec fn well_formed(self) -> bool
        decreases self,
    {
        &&& self.properties.well_formed()
        &&& self.text is Some ==> self.children.len() == 0
        &&& forall|i: int|
            0 <= i < self.children.len() ==> (#[trigger] self.children[i]).well_formed()
    }
}

impl<SpanT> ComponentDefinitionView<SpanT> {
    /// The declarations are well formed, every child is well formed, and no
    /// child has the name of the definition.
    pub open spec fn well_formed(self) -> bool {
        &&& self.properties.well_formed()
        &&& forall|i: int|
            0 <= i < self.children.len() ==> (#[trigger] self.children[i]).well_formed()
        &&& forall|i: int|
            0 <= i < self.children.len() ==> (#[trigger] self.children[i]).name.name
                != self.name.name
    }
}

impl<SpanT> ModuleItemView<SpanT> {
    /// The item is well formed.
    pub open spec fn well_formed(self) -> bool {
        match self {
            ModuleItemView::Component(c) => c.well_formed(),
            ModuleItemView::ComponentDefinition(d) => d.well_formed(),
        }
    }
}

impl<SpanT> ModuleView<SpanT> {
    /// Every item is well formed.
    pub open spec fn well_formed(self) -> bool {
        forall|i: int| 0 <= i < self.items.len() ==> (#[trigger] self.items[i]).well_formed()
    }
}

/// Tells whether two strings hold the same characters.
pub fn same_text(a: &str, b: &str) -> (r: bool)
    ensures
        r == (a@ == b@),
{
    let left = a.to_owned();
    let right = b.to_owned();
    left == right
}

impl<SpanT> Properties<SpanT> {
    /// Properties without a default value, flags or properties with a value.
    pub fn empty() -> (r: Self)
        ensures
            r@ == (PropertiesView::<SpanT> {
                default: None,
                flag_properties: seq![],
                named_properties: seq![],
            }),
            r@.well_formed(),
    {
        let r = Properties {
            default: None,
            flag_properties: Vec::new(),
            named_properties: Vec::new(),
        };
        assert(r@.flag_properties =~= Seq::<IdentifierView<SpanT>>::empty());
        assert(r@.named_properties =~= Seq::<PropertyView<SpanT>>::empty());
        r
    }

    /// Tells whether there is a flag of the given name.
    pub fn get_flag_property(&self, name: &str) -> (r: bool)
        ensures
            r == self@.has_flag(name@),
    {
        let mut k: usize = 0;
        while k < self.flag_properties.len()
            invariant
                k <= self.flag_properties@.len(),
                forall|i: int| 0 <= i < k ==> self.flag_properties@[i]@.name != name@,
            decreases self.flag_properties@.len() - k,
        {
            if same_text(self.flag_properties[k].as_str(), name) {
                assert(self@.flag_properties[k as int].name == name@);
                return true;
            }
            k += 1;
        }
        false
    }

    /// The value of the first property with the given name, if there is
    /// one. In well-formed properties there is one at most.
    pub fn try_get_named_property(&self, name: &str) -> (r: Option<&Value<SpanT>>)
        ensures
            r is Some == self@.has_named(name@),
            r is Some ==> exists|i: int|
                0 <= i < self.named_properties@.len() && self.named_properties@[i].key.name@
                    == name@ && *r->0 == self.named_properties@[i].value && forall|j: int|
                    0 <= j < i ==> self.named_properties@[j].key.name@ != name@,
    {
        let mut k: usize = 0;
        while k < self.named_properties.len()
            invariant
                k <= self.named_properties@.len(),
                forall|i: int| 0 <= i < k ==> self.named_properties@[i]@.key.name != name@,
            decreases self.named_properties@.len() - k,
        {
            if same_text(self.named_properties[k].key.as_str(), name) {
                assert(self@.named_properties[k as int].key.name == name@);
                return Some(&self.named_properties[k].value);
            }
            k += 1;
        }
        None
    }
}

impl<SpanT> From<Component<SpanT>> for ModuleItem<SpanT> {
    fn from(component: Component<SpanT>) -> (r: Self)
        ensures
            r == ModuleItem::Component(component),
    {
        ModuleItem::Component(component)
    }
}

impl<SpanT> FromSpecImpl<Component<SpanT>> for ModuleItem<SpanT> {
    open spec fn obeys_from_spec() -> bool {
        true
    }

    open spec fn from_spec(component: Component<SpanT>) -> Self {
        ModuleItem::Component(component)
    }
}

impl<SpanT> From<ComponentDefinition<SpanT>> for ModuleItem<SpanT> {
    fn from(definition: ComponentDefinition<SpanT>) -> (r: Self)
        ensures
            r == ModuleItem::ComponentDefinition(definition),
    {
        ModuleItem::ComponentDefinition(definition)
    }
}

impl<SpanT> FromSpecImpl<ComponentDefinition<SpanT>> for ModuleItem<SpanT> {
    open spec fn obeys_from_spec() -> bool {
        true
    }

    open spec fn from_spec(definition: ComponentDefinition<SpanT>) -> Self {
        ModuleItem::ComponentDefinition(definition)
    }
}

impl<SpanT: Clone> Clone for Component<SpanT> {
    /// A copy of the component with a copy of each of its parts.
    fn clone(&self) -> (r: Self)
        decreases self,
    {
        let mut copies: Vec<Component<SpanT>> = Vec::new();
        let mut i: usize = 0;
        while i < self.children.len()
            invariant
                i <= self.children.len(),
            decreases self.children.len() - i,
        {
            assert(decreases_to!(self => self.children));
            assert(decreases_to!(self.children => self.children[i as int]));
            copies.push(self.children[i].clone());
            i += 1;
        }
        Component {
            span: self.span.clone(),
            name: self.name.clone(),
            properties: self.properties.clone(),
            children: copies,
            text: self.text.clone(),
        }
    }
}

} // verus!
