//! The syntax tree.
//!
//! Every node carries a span; the type of the span is a parameter, so that a
//! tree can be compared without its spans. Each type has a mathematical
//! value, in which strings are sequences of characters and lists are
//! sequences.

use vstd::prelude::*;
use vstd::std_specs::convert::FromSpecImpl;

verus! {

/// A module: the items of a source text, in order.
#[derive(Debug, Clone, PartialEq, Eq)]
pub struct Module<SpanT> {
    pub span: SpanT,
    pub items: Vec<ModuleItem<SpanT>>,
}

/// An item of a module: a component or a component definition.
#[derive(Debug, Clone, PartialEq, Eq)]
pub enum ModuleItem<SpanT> {
    Component(Component<SpanT>),
    ComponentDefinition(ComponentDefinition<SpanT>),
}

/// A component: a name with optional properties, children and text.
#[derive(Debug, PartialEq, Eq)]
pub struct Component<SpanT> {
    pub span: SpanT,
    pub name: Identifier<SpanT>,
    pub properties: Option<Properties<SpanT>>,
    pub children: Option<ComponentChildren<SpanT>>,
    pub text: Option<Text<SpanT>>,
}

/// The properties of a component: an optional default value, then named
/// and flag properties in order.
#[derive(Debug, Clone, PartialEq, Eq)]
pub struct Properties<SpanT> {
    pub span: SpanT,
    pub default: Option<Value<SpanT>>,
    pub properties: Vec<Property<SpanT>>,
}

/// A named or flag property with its span.
#[derive(Debug, Clone, PartialEq, Eq)]
pub struct Property<SpanT> {
    pub span: SpanT,
    pub kind: PropertyKind<SpanT>,
}

/// A property with a value, or a flag.
#[derive(Debug, Clone, PartialEq, Eq)]
pub enum PropertyKind<SpanT> {
    KeyValue { key: Identifier<SpanT>, value: Value<SpanT> },
    Flag { key: Identifier<SpanT> },
}

/// The children of a component, in order.
#[derive(Debug, PartialEq, Eq)]
pub struct ComponentChildren<SpanT> {
    pub span: SpanT,
    pub children: Vec<Component<SpanT>>,
}

/// The definition of a component: a name with optional property
/// declarations and an optional body.
#[derive(Debug, Clone, PartialEq, Eq)]
pub struct ComponentDefinition<SpanT> {
    pub span: SpanT,
    pub name: Identifier<SpanT>,
    pub properties: Option<PropertiesDefinition<SpanT>>,
    pub children: Option<ComponentChildren<SpanT>>,
}

/// The property declarations of a component definition, in order.
#[derive(Debug, Clone, PartialEq, Eq)]
pub struct PropertiesDefinition<SpanT> {
    pub span: SpanT,
    pub properties: Vec<PropertyDefinition<SpanT>>,
}

/// A property declaration with its span.
#[derive(Debug, Clone, PartialEq, Eq)]
pub struct PropertyDefinition<SpanT> {
    pub span: SpanT,
    pub kind: PropertyDefinitionKind<SpanT>,
}

/// A property declaration: the text, the default property or a named one.
#[derive(Debug, Clone, PartialEq, Eq)]
pub enum PropertyDefinitionKind<SpanT> {
    Text(TextPropertyDefinition<SpanT>),
    Default(NamedPropertyDefinition<SpanT>),
    Named(NamedPropertyDefinition<SpanT>),
}

/// The declaration of the text of a component.
#[derive(Debug, Clone, PartialEq, Eq)]
pub struct TextPropertyDefinition<SpanT> {
    pub name: Identifier<SpanT>,
}

/// The declaration of a property with its type and an optional default
/// value.
#[derive(Debug, Clone, PartialEq, Eq)]
pub struct NamedPropertyDefinition<SpanT> {
    pub name: Identifier<SpanT>,
    pub ty: Type<SpanT>,
    pub default_value: Option<Value<SpanT>>,
}

/// A value with its span.
#[derive(Debug, Clone, PartialEq, Eq)]
pub struct Value<SpanT> {
    pub span: SpanT,
    pub kind: ValueKind<SpanT>,
}

/// A value: a string, an integer, a boolean or a variable.
#[derive(Debug, Clone, PartialEq, Eq)]
pub enum ValueKind<SpanT> {
    String(StringValue<SpanT>),
    Integer(i64),
    Bool(bool),
    Variable(Identifier<SpanT>),
}

/// A string: literal segments and interpolated variables, in order.
#[derive(Debug, Clone, PartialEq, Eq)]
pub struct StringValue<SpanT> {
    pub span: SpanT,
    pub segments: Vec<InterpolationSegment<SpanT>>,
}

/// The text of a component: literal segments and interpolated variables,
/// in order.
#[derive(Debug, Clone, PartialEq, Eq)]
pub struct Text<SpanT> {
    pub span: SpanT,
    pub segments: Vec<InterpolationSegment<SpanT>>,
}

/// A segment of a string or of a text, with its span.
#[derive(Debug, Clone, PartialEq, Eq)]
pub struct InterpolationSegment<SpanT> {
    pub span: SpanT,
    pub kind: InterpolationSegmentKind<SpanT>,
}

/// A literal segment or an interpolated variable.
#[derive(Debug, Clone, PartialEq, Eq)]
pub enum InterpolationSegmentKind<SpanT> {
    Literal(String),
    Variable(Identifier<SpanT>),
}

/// An identifier with its span. Where identifiers are compared, only the
/// name counts.
#[derive(Debug, Clone, PartialEq, Eq)]
pub struct Identifier<SpanT> {
    pub span: SpanT,
    pub name: String,
}

/// A type with its span.
#[derive(Debug, Clone, PartialEq, Eq)]
pub struct Type<SpanT> {
    pub span: SpanT,
    pub kind: TypeKind,
}

/// A type of a property.
#[derive(Debug, Clone, Copy, PartialEq, Eq, Structural)]
pub enum TypeKind {
    String,
    Integer,
    Bool,
    Slot,
    SlotList,
}

/// The mathematical value of [`Module`].
pub struct ModuleView<SpanT> {
    pub span: SpanT,
    pub items: Seq<ModuleItemView<SpanT>>,
}

/// The mathematical value of [`ModuleItem`].
pub enum ModuleItemView<SpanT> {
    Component(ComponentView<SpanT>),
    ComponentDefinition(ComponentDefinitionView<SpanT>),
}

/// The mathematical value of [`Component`].
pub struct ComponentView<SpanT> {
    pub span: SpanT,
    pub name: IdentifierView<SpanT>,
    pub properties: Option<PropertiesView<SpanT>>,
    pub children: Option<ComponentChildrenView<SpanT>>,
    pub text: Option<TextView<SpanT>>,
}

/// The mathematical value of [`Properties`].
pub struct PropertiesView<SpanT> {
    pub span: SpanT,
    pub default: Option<ValueView<SpanT>>,
    pub properties: Seq<PropertyView<SpanT>>,
}

/// The mathematical value of [`Property`].
pub struct PropertyView<SpanT> {
    pub span: SpanT,
    pub kind: PropertyKindView<SpanT>,
}

/// The mathematical value of [`PropertyKind`].
pub enum PropertyKindView<SpanT> {
    KeyValue { key: IdentifierView<SpanT>, value: ValueView<SpanT> },
    Flag { key: IdentifierView<SpanT> },
}

/// The mathematical value of [`ComponentChildren`].
pub struct ComponentChildrenView<SpanT> {
    pub span: SpanT,
    pub children: Seq<ComponentView<SpanT>>,
}

/// The mathematical value of [`ComponentDefinition`].
pub struct ComponentDefinitionView<SpanT> {
    pub span: SpanT,
    pub name: IdentifierView<SpanT>,
    pub properties: Option<PropertiesDefinitionView<SpanT>>,
    pub children: Option<ComponentChildrenView<SpanT>>,
}

/// The mathematical value of [`PropertiesDefinition`].
pub struct PropertiesDefinitionView<SpanT> {
    pub span: SpanT,
    pub properties: Seq<PropertyDefinitionView<SpanT>>,
}

/// The mathematical value of [`PropertyDefinition`].
pub struct PropertyDefinitionView<SpanT> {
    pub span: SpanT,
    pub kind: PropertyDefinitionKindView<SpanT>,
}

/// The mathematical value of [`PropertyDefinitionKind`].
pub enum PropertyDefinitionKindView<SpanT> {
    Text(TextPropertyDefinitionView<SpanT>),
    Default(NamedPropertyDefinitionView<SpanT>),
    Named(NamedPropertyDefinitionView<SpanT>),
}

/// The mathematical value of [`TextPropertyDefinition`].
pub struct TextPropertyDefinitionView<SpanT> {
    pub name: IdentifierView<SpanT>,
}

/// The mathematical value of [`NamedPropertyDefinition`].
pub struct NamedPropertyDefinitionView<SpanT> {
    pub name: IdentifierView<SpanT>,
    pub ty: TypeView<SpanT>,
    pub default_value: Option<ValueView<SpanT>>,
}

/// The mathematical value of [`Value`].
pub struct ValueView<SpanT> {
    pub span: SpanT,
    pub kind: ValueKindView<SpanT>,
}

/// The mathematical value of [`ValueKind`].
pub enum ValueKindView<SpanT> {
    String(StringValueView<SpanT>),
    Integer(i64),
    Bool(bool),
    Variable(IdentifierView<SpanT>),
}

/// The mathematical value of [`StringValue`].
pub struct StringValueView<SpanT> {
    pub span: SpanT,
    pub segments: Seq<InterpolationSegmentView<SpanT>>,
}

/// The mathematical value of [`Text`].
pub struct TextView<SpanT> {
    pub span: SpanT,
    pub segments: Seq<InterpolationSegmentView<SpanT>>,
}

/// The mathematical value of [`InterpolationSegment`].
pub struct InterpolationSegmentView<SpanT> {
    pub span: SpanT,
    pub kind: InterpolationSegmentKindView<SpanT>,
}

/// The mathematical value of [`InterpolationSegmentKind`].
pub enum InterpolationSegmentKindView<SpanT> {
    Literal(Seq<char>),
    Variable(IdentifierView<SpanT>),
}

/// The mathematical value of [`Identifier`].
pub struct IdentifierView<SpanT> {
    pub span: SpanT,
    pub name: Seq<char>,
}

/// The mathematical value of [`Type`].
pub struct TypeView<SpanT> {
    pub span: SpanT,
    pub kind: TypeKind,
}

/// The values of the elements of a sequence.
pub open spec fn views<T: View>(items: Seq<T>) -> Seq<T::V> {
    Seq::new(items.len(), |i: int| items[i]@)
}

/// The value of what an option holds.
pub open spec fn option_view<T: View>(item: Option<T>) -> Option<T::V> {
    match item {
        Some(inner) => Some(inner@),
        None => None,
    }
}

impl<SpanT> View for Identifier<SpanT> {
    type V = IdentifierView<SpanT>;

    open spec fn view(&self) -> IdentifierView<SpanT> {
        IdentifierView { span: self.span, name: self.name@ }
    }
}

impl<SpanT> View for Type<SpanT> {
    type V = TypeView<SpanT>;

    open spec fn view(&self) -> TypeView<SpanT> {
        TypeView { span: self.span, kind: self.kind }
    }
}

impl<SpanT> View for InterpolationSegmentKind<SpanT> {
    type V = InterpolationSegmentKindView<SpanT>;

    open spec fn view(&self) -> InterpolationSegmentKindView<SpanT> {
        match *self {
            InterpolationSegmentKind::Literal(s) => InterpolationSegmentKindView::Literal(s@),
            InterpolationSegmentKind::Variable(i) => InterpolationSegmentKindView::Variable(i@),
        }
    }
}

impl<SpanT> View for InterpolationSegment<SpanT> {
    type V = InterpolationSegmentView<SpanT>;

    open spec fn view(&self) -> InterpolationSegmentView<SpanT> {
        InterpolationSegmentView { span: self.span, kind: self.kind@ }
    }
}

impl<SpanT> View for Text<SpanT> {
    type V = TextView<SpanT>;

    open spec fn view(&self) -> TextView<SpanT> {
        TextView { span: self.span, segments: views(self.segments@) }
    }
}

impl<SpanT> View for StringValue<SpanT> {
    type V = StringValueView<SpanT>;

    open spec fn view(&self) -> StringValueView<SpanT> {
        StringValueView { span: self.span, segments: views(self.segments@) }
    }
}

impl<SpanT> View for ValueKind<SpanT> {
    type V = ValueKindView<SpanT>;

    open spec fn view(&self) -> ValueKindView<SpanT> {
        match *self {
            ValueKind::String(s) => ValueKindView::String(s@),
            ValueKind::Integer(n) => ValueKindView::Integer(n),
            ValueKind::Bool(b) => ValueKindView::Bool(b),
            ValueKind::Variable(i) => ValueKindView::Variable(i@),
        }
    }
}

impl<SpanT> View for Value<SpanT> {
    type V = ValueView<SpanT>;

    open spec fn view(&self) -> ValueView<SpanT> {
        ValueView { span: self.span, kind: self.kind@ }
    }
}

impl<SpanT> View for NamedPropertyDefinition<SpanT> {
    type V = NamedPropertyDefinitionView<SpanT>;

    open spec fn view(&self) -> NamedPropertyDefinitionView<SpanT> {
        NamedPropertyDefinitionView {
            name: self.name@,
            ty: self.ty@,
            default_value: option_view(self.default_value),
        }
    }
}

impl<SpanT> View for TextPropertyDefinition<SpanT> {
    type V = TextPropertyDefinitionView<SpanT>;

    open spec fn view(&self) -> TextPropertyDefinitionView<SpanT> {
        TextPropertyDefinitionView { name: self.name@ }
    }
}

impl<SpanT> View for PropertyDefinitionKind<SpanT> {
    type V = PropertyDefinitionKindView<SpanT>;

    open spec fn view(&self) -> PropertyDefinitionKindView<SpanT> {
        match *self {
            PropertyDefinitionKind::Text(d) => PropertyDefinitionKindView::Text(d@),
            PropertyDefinitionKind::Default(d) => PropertyDefinitionKindView::Default(d@),
            PropertyDefinitionKind::Named(d) => PropertyDefinitionKindView::Named(d@),
        }
    }
}

impl<SpanT> View for PropertyDefinition<SpanT> {
    type V = PropertyDefinitionView<SpanT>;

    open spec fn view(&self) -> PropertyDefinitionView<SpanT> {
        PropertyDefinitionView { span: self.span, kind: self.kind@ }
    }
}

impl<SpanT> View for PropertiesDefinition<SpanT> {
    type V = PropertiesDefinitionView<SpanT>;

    open spec fn view(&self) -> PropertiesDefinitionView<SpanT> {
        PropertiesDefinitionView { span: self.span, properties: views(self.properties@) }
    }
}

impl<SpanT> View for PropertyKind<SpanT> {
    type V = PropertyKindView<SpanT>;

    open spec fn view(&self) -> PropertyKindView<SpanT> {
        match *self {
            PropertyKind::KeyValue { key, value } => PropertyKindView::KeyValue {
                key: key@,
                value: value@,
            },
            PropertyKind::Flag { key } => PropertyKindView::Flag { key: key@ },
        }
    }
}

impl<SpanT> View for Property<SpanT> {
    type V = PropertyView<SpanT>;

    open spec fn view(&self) -> PropertyView<SpanT> {
        PropertyView { span: self.span, kind: self.kind@ }
    }
}

impl<SpanT> View for Properties<SpanT> {
    type V = PropertiesView<SpanT>;

    open spec fn view(&self) -> PropertiesView<SpanT> {
        PropertiesView {
            span: self.span,
            default: option_view(self.default),
            properties: views(self.properties@),
        }
    }
}

/// The value of a component, with the values of its children.
pub open spec fn component_view<SpanT>(component: Component<SpanT>) -> ComponentView<SpanT>
    decreases component,
{
    ComponentView {
        span: component.span,
        name: component.name@,
        properties: option_view(component.properties),
        children: match component.children {
            Some(list) => Some(
                ComponentChildrenView {
                    span: list.span,
                    children: Seq::new(
                        list.children@.len(),
                        |i: int|
                            if 0 <= i < list.children@.len() {
                                component_view(list.children@[i])
                            } else {
                                arbitrary()
                            },
                    ),
                },
            ),
            None => None,
        },
        text: option_view(component.text),
    }
}

impl<SpanT> View for Component<SpanT> {
    type V = ComponentView<SpanT>;

    open spec fn view(&self) -> ComponentView<SpanT> {
        component_view(*self)
    }
}

impl<SpanT> View for ComponentChildren<SpanT> {
    type V = ComponentChildrenView<SpanT>;

    open spec fn view(&self) -> ComponentChildrenView<SpanT> {
        ComponentChildrenView { span: self.span, children: views(self.children@) }
    }
}

impl<SpanT> View for ComponentDefinition<SpanT> {
    type V = ComponentDefinitionView<SpanT>;

    open spec fn view(&self) -> ComponentDefinitionView<SpanT> {
        ComponentDefinitionView {
            span: self.span,
            name: self.name@,
            properties: option_view(self.properties),
            children: option_view(self.children),
        }
    }
}

impl<SpanT> View for ModuleItem<SpanT> {
    type V = ModuleItemView<SpanT>;

    open spec fn view(&self) -> ModuleItemView<SpanT> {
        match *self {
            ModuleItem::Component(c) => ModuleItemView::Component(c@),
            ModuleItem::ComponentDefinition(d) => ModuleItemView::ComponentDefinition(d@),
        }
    }
}

impl<SpanT> View for Module<SpanT> {
    type V = ModuleView<SpanT>;

    open spec fn view(&self) -> ModuleView<SpanT> {
        ModuleView { span: self.span, items: views(self.items@) }
    }
}

/// The value of a component holds the value of its children.
pub proof fn lemma_component_children_view<SpanT>(component: Component<SpanT>)
    ensures
        component@.children == option_view(component.children),
{
    match component.children {
        Some(list) => {
            let mine = component@.children->0;
            assert(mine.span == list.span);
            assert(mine.children.len() == list.children@.len());
            assert forall|i: int| 0 <= i < mine.children.len() implies mine.children[i] == views(
                list.children@,
            )[i] by {}
            assert(mine.children =~= views(list.children@));
        },
        None => {},
    }
}

impl<SpanT> Identifier<SpanT> {
    /// The name of the identifier.
    pub fn as_str(&self) -> (r: &str)
        ensures
            r@ == self.name@,
    {
        self.name.as_str()
    }
}

impl<SpanT: Default> Identifier<SpanT> {
    /// Creates an identifier with a default span.
    pub fn from_literal(name: &str) -> (r: Self)
        ensures
            r.name@ == name@,
            call_ensures(SpanT::default, (), r.span),
    {
        Identifier { span: Default::default(), name: name.to_owned() }
    }
}

impl<SpanT: Default> Text<SpanT> {
    /// Creates a text of one literal segment, with default spans.
    pub fn from_literal(string: &str) -> (r: Self)
        ensures
            r.segments@.len() == 1,
            r.segments@[0].kind@ == InterpolationSegmentKindView::<SpanT>::Literal(string@),
            call_ensures(SpanT::default, (), r.span),
            call_ensures(SpanT::default, (), r.segments@[0].span),
    {
        let mut segments: Vec<InterpolationSegment<SpanT>> = Vec::new();
        segments.push(
            InterpolationSegmentKind::Literal(string.to_owned()).spanned(Default::default()),
        );
        Text { span: Default::default(), segments }
    }
}

impl<SpanT: Default> StringValue<SpanT> {
    /// Creates a string of one literal segment, with default spans.
    pub fn from_literal(string: &str) -> (r: Self)
        ensures
            r.segments@.len() == 1,
            r.segments@[0].kind@ == InterpolationSegmentKindView::<SpanT>::Literal(string@),
            call_ensures(SpanT::default, (), r.span),
            call_ensures(SpanT::default, (), r.segments@[0].span),
    {
        let mut segments: Vec<InterpolationSegment<SpanT>> = Vec::new();
        segments.push(
            InterpolationSegmentKind::Literal(string.to_owned()).spanned(Default::default()),
        );
        StringValue { span: Default::default(), segments }
    }
}

impl<SpanT> PropertyKind<SpanT> {
    /// Creates a property from its kind and a span.
    pub fn spanned(self, span: SpanT) -> (r: Property<SpanT>)
        ensures
            r == (Property { span, kind: self }),
    {
        Property { span, kind: self }
    }
}

impl<SpanT> PropertyDefinitionKind<SpanT> {
    /// Creates a property declaration from its kind and a span.
    pub fn spanned(self, span: SpanT) -> (r: PropertyDefinition<SpanT>)
        ensures
            r == (PropertyDefinition { span, kind: self }),
    {
        PropertyDefinition { span, kind: self }
    }
}

impl<SpanT> ValueKind<SpanT> {
    /// Creates a value from its kind and a span.
    pub fn spanned(self, span: SpanT) -> (r: Value<SpanT>)
        ensures
            r == (Value { span, kind: self }),
    {
        Value { span, kind: self }
    }
}

impl<SpanT> InterpolationSegmentKind<SpanT> {
    /// Creates a segment from its kind and a span.
    pub fn spanned(self, span: SpanT) -> (r: InterpolationSegment<SpanT>)
        ensures
            r == (InterpolationSegment { span, kind: self }),
    {
        InterpolationSegment { span, kind: self }
    }
}

impl TypeKind {
    /// Creates a type from its kind and a span.
    pub fn spanned<SpanT>(self, span: SpanT) -> (r: Type<SpanT>)
        ensures
            r == (Type { span, kind: self }),
    {
        Type { span, kind: self }
    }
}

impl<SpanT> From<Identifier<SpanT>> for String {
    fn from(identifier: Identifier<SpanT>) -> (r: String)
        ensures
            r == identifier.name,
    {
        identifier.name
    }
}

impl<SpanT> FromSpecImpl<Identifier<SpanT>> for String {
    open spec fn obeys_from_spec() -> bool {
        true
    }

    open spec fn from_spec(identifier: Identifier<SpanT>) -> String {
        identifier.name
    }
}

impl<SpanT> From<Component<SpanT>> for ModuleItem<SpanT> {
    fn from(component: Component<SpanT>) -> (r: Self)
        ensures
            r == ModuleItem::Component(component),
    {
        ModuleItem::Component(component)
    }
}

impl<SpanT> FromSpecImpl<Component<SpanT>> for ModuleItem<SpanT> {
    open spec fn obeys_from_spec() -> bool {
        true
    }

    open spec fn from_spec(component: Component<SpanT>) -> Self {
        ModuleItem::Component(component)
    }
}

impl<SpanT> From<ComponentDefinition<SpanT>> for ModuleItem<SpanT> {
    fn from(definition: ComponentDefinition<SpanT>) -> (r: Self)
        ensures
            r == ModuleItem::ComponentDefinition(definition),
    {
        ModuleItem::ComponentDefinition(definition)
    }
}

impl<SpanT> FromSpecImpl<ComponentDefinition<SpanT>> for ModuleItem<SpanT> {
    open spec fn obeys_from_spec() -> bool {
        true
    }

    open spec fn from_spec(definition: ComponentDefinition<SpanT>) -> Self {
        ModuleItem::ComponentDefinition(definition)
    }
}

impl<SpanT> From<StringValue<SpanT>> for ValueKind<SpanT> {
    fn from(value: StringValue<SpanT>) -> (r: Self)
        ensures
            r == ValueKind::String(value),
    {
        ValueKind::String(value)
    }
}

impl<SpanT> FromSpecImpl<StringValue<SpanT>> for ValueKind<SpanT> {
    open spec fn obeys_from_spec() -> bool {
        true
    }

    open spec fn from_spec(value: StringValue<SpanT>) -> Self {
        ValueKind::String(value)
    }
}

impl<SpanT: Default> From<StringValue<SpanT>> for Value<SpanT> {
    fn from(value: StringValue<SpanT>) -> (r: Self)
        ensures
            r.kind == ValueKind::String(value),
            call_ensures(SpanT::default, (), r.span),
    {
        ValueKind::String(value).spanned(Default::default())
    }
}

impl<SpanT: Default> FromSpecImpl<StringValue<SpanT>> for Value<SpanT> {
    open spec fn obeys_from_spec() -> bool {
        false
    }

    open spec fn from_spec(value: StringValue<SpanT>) -> Self {
        arbitrary()
    }
}

impl<SpanT: Default> From<PropertyKind<SpanT>> for Property<SpanT> {
    fn from(value: PropertyKind<SpanT>) -> (r: Self)
        ensures
            r.kind == value,
            call_ensures(SpanT::default, (), r.span),
    {
        value.spanned(Default::default())
    }
}

impl<SpanT: Default> FromSpecImpl<PropertyKind<SpanT>> for Property<SpanT> {
    open spec fn obeys_from_spec() -> bool {
        false
    }

    open spec fn from_spec(value: PropertyKind<SpanT>) -> Self {
        arbitrary()
    }
}

impl<SpanT: Default> From<ValueKind<SpanT>> for Value<SpanT> {
    fn from(value: ValueKind<SpanT>) -> (r: Self)
        ensures
            r.kind == value,
            call_ensures(SpanT::default, (), r.span),
    {
        value.spanned(Default::default())
    }
}

impl<SpanT: Default> FromSpecImpl<ValueKind<SpanT>> for Value<SpanT> {
    open spec fn obeys_from_spec() -> bool {
        false
    }

    open spec fn from_spec(value: ValueKind<SpanT>) -> Self {
        arbitrary()
    }
}

impl<SpanT: Default> From<TypeKind> for Type<SpanT> {
    fn from(value: TypeKind) -> (r: Self)
        ensures
            r.kind == value,
            call_ensures(SpanT::default, (), r.span),
    {
        value.spanned(Default::default())
    }
}

impl<SpanT: Default> FromSpecImpl<TypeKind> for Type<SpanT> {
    open spec fn obeys_from_spec() -> bool {
        false
    }

    open spec fn from_spec(value: TypeKind) -> Self {
        arbitrary()
    }
}

impl<SpanT: Default> From<PropertyDefinitionKind<SpanT>> for PropertyDefinition<SpanT> {
    fn from(value: PropertyDefinitionKind<SpanT>) -> (r: Self)
        ensures
            r.kind == value,
            call_ensures(SpanT::default, (), r.span),
    {
        value.spanned(Default::default())
    }
}

impl<SpanT: Default> FromSpecImpl<PropertyDefinitionKind<SpanT>> for PropertyDefinition<SpanT> {
    open spec fn obeys_from_spec() -> bool {
        false
    }

    open spec fn from_spec(value: PropertyDefinitionKind<SpanT>) -> Self {
        arbitrary()
    }
}

impl<SpanT: Clone> Clone for Component<SpanT> {
    /// A copy of the component with a copy of each of its parts.
    fn clone(&self) -> (r: Self)
        decreases self,
    {
        let children = match &self.children {
            Some(list) => {
                let mut copies: Vec<Component<SpanT>> = Vec::new();
                let mut i: usize = 0;
                while i < list.children.len()
                    invariant
                        i <= list.children.len(),
                        self.children == Some(*list),
                    decreases list.children.len() - i,
                {
                    assert(decreases_to!(self => self.children));
                    assert(self.children->0 == *list);
                    assert(decreases_to!(self.children => self.children->0));
                    assert(decreases_to!(list => list.children));
                    assert(decreases_to!(list.children => list.children[i as int]));
                    copies.push(list.children[i].clone());
                    i += 1;
                }
                Some(ComponentChildren { span: list.span.clone(), children: copies })
            },
            None => None,
        };
        Component {
            span: self.span.clone(),
            name: self.name.clone(),
            properties: self.properties.clone(),
            children,
            text: self.text.clone(),
        }
    }
}

impl<SpanT: Clone> Clone for ComponentChildren<SpanT> {
    /// A copy of the list with a copy of each child.
    fn clone(&self) -> (r: Self) {
        let mut copies: Vec<Component<SpanT>> = Vec::new();
        let mut i: usize = 0;
        while i < self.children.len()
            invariant
                i <= self.children.len(),
            decreases self.children.len() - i,
        {
            copies.push(self.children[i].clone());
            i += 1;
        }
        ComponentChildren { span: self.span.clone(), children: copies }
    }
}

} // verus!
