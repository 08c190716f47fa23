//! Replacing the spans of a tree.
//!
//! A tree can be given other spans, or none, so that trees can be compared
//! without regard to where they were read.

use vstd::prelude::*;
use crate::ast::{
    lemma_component_children_view, Component, ComponentChildren, ComponentChildrenView,
    ComponentDefinition, ComponentDefinitionView, ComponentView, Identifier, IdentifierView,
    InterpolationSegment, InterpolationSegmentKind, InterpolationSegmentKindView,
    InterpolationSegmentView, Module, ModuleItem, ModuleItemView, ModuleView,
    NamedPropertyDefinition, NamedPropertyDefinitionView, Properties, PropertiesDefinition,
    PropertiesDefinitionView, PropertiesView, Property, PropertyDefinition,
    PropertyDefinitionKind, PropertyDefinitionKindView, PropertyDefinitionView, PropertyKind,
    PropertyKindView, PropertyView, StringValue, StringValueView, Text, TextPropertyDefinition,
    TextPropertyDefinitionView, TextView, Type, TypeView, Value, ValueKind, ValueKindView,
    ValueView,
};

verus! {

/// Whether `to` is `from` with each span replaced by what `f` makes of it.
pub open spec fn identifier_mapped<A, B, F: Fn(A) -> B>(f: F, from: IdentifierView<A>, to: IdentifierView<B>) -> bool {
    &&& call_ensures(f, (from.span,), to.span)
    &&& from.name == to.name
}

/// Whether `to` is `from` with each span replaced by what `f` makes of it.
pub open spec fn type_mapped<A, B, F: Fn(A) -> B>(f: F, from: TypeView<A>, to: TypeView<B>) -> bool {
    &&& call_ensures(f, (from.span,), to.span)
    &&& from.kind == to.kind
}

/// Whether `to` is `from` with each span replaced by what `f` makes of it.
pub open spec fn interpolation_segment_kind_mapped<A, B, F: Fn(A) -> B>(f: F, from: InterpolationSegmentKindView<A>, to: InterpolationSegmentKindView<B>) -> bool {
    match (from, to) {
        (InterpolationSegmentKindView::Literal(a), InterpolationSegmentKindView::Literal(b)) => a == b,
        (InterpolationSegmentKindView::Variable(a), InterpolationSegmentKindView::Variable(b)) => identifier_mapped(f, a, b),
        _ => false,
    }
}

/// Whether `to` is `from` with each span replaced by what `f` makes of it.
pub open spec fn interpolation_segment_mapped<A, B, F: Fn(A) -> B>(f: F, from: InterpolationSegmentView<A>, to: InterpolationSegmentView<B>) -> bool {
    &&& call_ensures(f, (from.span,), to.span)
    &&& interpolation_segment_kind_mapped(f, from.kind, to.kind)
}

/// Whether `to` is `from` with each span replaced by what `f` makes of it.
pub open spec fn text_mapped<A, B, F: Fn(A) -> B>(f: F, from: TextView<A>, to: TextView<B>) -> bool {
    &&& call_ensures(f, (from.span,), to.span)
    &&& from.segments.len() == to.segments.len()
    &&& forall|i: int| 0 <= i < from.segments.len() ==> #[trigger] interpolation_segment_mapped(f, from.segments[i], to.segments[i])
}

/// Whether `to` is `from` with each span replaced by what `f` makes of it.
pub open spec fn string_value_mapped<A, B, F: Fn(A) -> B>(f: F, from: StringValueView<A>, to: StringValueView<B>) -> bool {
    &&& call_ensures(f, (from.span,), to.span)
    &&& from.segments.len() == to.segments.len()
    &&& forall|i: int| 0 <= i < from.segments.len() ==> #[trigger] interpolation_segment_mapped(f, from.segments[i], to.segments[i])
}

/// Whether `to` is `from` with each span replaced by what `f` makes of it.
pub open spec fn value_kind_mapped<A, B, F: Fn(A) -> B>(f: F, from: ValueKindView<A>, to: ValueKindView<B>) -> bool {
    match (from, to) {
        (ValueKindView::String(a), ValueKindView::String(b)) => string_value_mapped(f, a, b),
        (ValueKindView::Integer(a), ValueKindView::Integer(b)) => a == b,
        (ValueKindView::Bool(a), ValueKindView::Bool(b)) => a == b,
        (ValueKindView::Variable(a), ValueKindView::Variable(b)) => identifier_mapped(f, a, b),
        _ => false,
    }
}

/// Whether `to` is `from` with each span replaced by what `f` makes of it.
pub open spec fn value_mapped<A, B, F: Fn(A) -> B>(f: F, from: ValueView<A>, to: ValueView<B>) -> bool {
    &&& call_ensures(f, (from.span,), to.span)
    &&& value_kind_mapped(f, from.kind, to.kind)
}

/// Whether `to` is `from` with each span replaced by what `f` makes of it.
pub open spec fn named_property_definition_mapped<A, B, F: Fn(A) -> B>(f: F, from: NamedPropertyDefinitionView<A>, to: NamedPropertyDefinitionView<B>) -> bool {
    &&& identifier_mapped(f, from.name, to.name)
    &&& type_mapped(f, from.ty, to.ty)
    &&& match (from.default_value, to.default_value) {
        (Some(a), Some(b)) => value_mapped(f, a, b),
        (None, None) => true,
        _ => false,
    }
}

/// Whether `to` is `from` with each span replaced by what `f` makes of it.
pub open spec fn text_property_definition_mapped<A, B, F: Fn(A) -> B>(f: F, from: TextPropertyDefinitionView<A>, to: TextPropertyDefinitionView<B>) -> bool {
    &&& identifier_mapped(f, from.name, to.name)
}

/// Whether `to` is `from` with each span replaced by what `f` makes of it.
pub open spec fn property_definition_kind_mapped<A, B, F: Fn(A) -> B>(f: F, from: PropertyDefinitionKindView<A>, to: PropertyDefinitionKindView<B>) -> bool {
    match (from, to) {
        (PropertyDefinitionKindView::Text(a), PropertyDefinitionKindView::Text(b)) => text_property_definition_mapped(f, a, b),
        (PropertyDefinitionKindView::Default(a), PropertyDefinitionKindView::Default(b)) => named_property_definition_mapped(f, a, b),
        (PropertyDefinitionKindView::Named(a), PropertyDefinitionKindView::Named(b)) => named_property_definition_mapped(f, a, b),
        _ => false,
    }
}

/// Whether `to` is `from` with each span replaced by what `f` makes of it.
pub open spec fn property_definition_mapped<A, B, F: Fn(A) -> B>(f: F, from: PropertyDefinitionView<A>, to: PropertyDefinitionView<B>) -> bool {
    &&& call_ensures(f, (from.span,), to.span)
    &&& property_definition_kind_mapped(f, from.kind, to.kind)
}

/// Whether `to` is `from` with each span replaced by what `f` makes of it.
pub open spec fn properties_definition_mapped<A, B, F: Fn(A) -> B>(f: F, from: PropertiesDefinitionView<A>, to: PropertiesDefinitionView<B>) -> bool {
    &&& call_ensures(f, (from.span,), to.span)
    &&& from.properties.len() == to.properties.len()
    &&& forall|i: int| 0 <= i < from.properties.len() ==> #[trigger] property_definition_mapped(f, from.properties[i], to.properties[i])
}

/// Whether `to` is `from` with each span replaced by what `f` makes of it.
pub open spec fn property_kind_mapped<A, B, F: Fn(A) -> B>(f: F, from: PropertyKindView<A>, to: PropertyKindView<B>) -> bool {
    match (from, to) {
        (PropertyKindView::KeyValue { key: key_a, value: value_a }, PropertyKindView::KeyValue { key: key_b, value: value_b }) => identifier_mapped(f, key_a, key_b) && value_mapped(f, value_a, value_b),
        (PropertyKindView::Flag { key: key_a }, PropertyKindView::Flag { key: key_b }) => identifier_mapped(f, key_a, key_b),
        _ => false,
    }
}

/// Whether `to` is `from` with each span replaced by what `f` makes of it.
pub open spec fn property_mapped<A, B, F: Fn(A) -> B>(f: F, from: PropertyView<A>, to: PropertyView<B>) -> bool {
    &&& call_ensures(f, (from.span,), to.span)
    &&& property_kind_mapped(f, from.kind, to.kind)
}

/// Whether `to` is `from` with each span replaced by what `f` makes of it.
pub open spec fn properties_mapped<A, B, F: Fn(A) -> B>(f: F, from: PropertiesView<A>, to: PropertiesView<B>) -> bool {
    &&& call_ensures(f, (from.span,), to.span)
    &&& match (from.default, to.default) {
        (Some(a), Some(b)) => value_mapped(f, a, b),
        (None, None) => true,
        _ => false,
    }
    &&& from.properties.len() == to.properties.len()
    &&& forall|i: int| 0 <= i < from.properties.len() ==> #[trigger] property_mapped(f, from.properties[i], to.properties[i])
}

/// Whether `to` is `from` with each span replaced by what `f` makes of it.
pub open spec fn component_mapped<A, B, F: Fn(A) -> B>(f: F, from: ComponentView<A>, to: ComponentView<B>) -> bool
    decreases from,
{
    &&& call_ensures(f, (from.span,), to.span)
    &&& identifier_mapped(f, from.name, to.name)
    &&& match (from.properties, to.properties) {
        (Some(a), Some(b)) => properties_mapped(f, a, b),
        (None, None) => true,
        _ => false,
    }
    &&& match (from.children, to.children) {
        (Some(a), Some(b)) => {
            &&& call_ensures(f, (a.span,), b.span)
            &&& a.children.len() == b.children.len()
            &&& forall|i: int|
                0 <= i < a.children.len() ==> #[trigger] component_mapped(
                    f,
                    a.children[i],
                    b.children[i],
                )
        },
        (None, None) => true,
        _ => false,
    }
    &&& match (from.text, to.text) {
        (Some(a), Some(b)) => text_mapped(f, a, b),
        (None, None) => true,
        _ => false,
    }
}

/// Whether `to` is `from` with each span replaced by what `f` makes of it.
pub open spec fn component_children_mapped<A, B, F: Fn(A) -> B>(f: F, from: ComponentChildrenView<A>, to: ComponentChildrenView<B>) -> bool {
    &&& call_ensures(f, (from.span,), to.span)
    &&& from.children.len() == to.children.len()
    &&& forall|i: int| 0 <= i < from.children.len() ==> #[trigger] component_mapped(f, from.children[i], to.children[i])
}

/// Whether `to` is `from` with each span replaced by what `f` makes of it.
pub open spec fn component_definition_mapped<A, B, F: Fn(A) -> B>(f: F, from: ComponentDefinitionView<A>, to: ComponentDefinitionView<B>) -> bool {
    &&& call_ensures(f, (from.span,), to.span)
    &&& identifier_mapped(f, from.name, to.name)
    &&& match (from.properties, to.properties) {
        (Some(a), Some(b)) => properties_definition_mapped(f, a, b),
        (None, None) => true,
        _ => false,
    }
    &&& match (from.children, to.children) {
        (Some(a), Some(b)) => component_children_mapped(f, a, b),
        (None, None) => true,
        _ => false,
    }
}

/// Whether `to` is `from` with each span replaced by what `f` makes of it.
pub open spec fn module_item_mapped<A, B, F: Fn(A) -> B>(f: F, from: ModuleItemView<A>, to: ModuleItemView<B>) -> bool {
    match (from, to) {
        (ModuleItemView::Component(a), ModuleItemView::Component(b)) => component_mapped(f, a, b),
        (ModuleItemView::ComponentDefinition(a), ModuleItemView::ComponentDefinition(b)) => component_definition_mapped(f, a, b),
        _ => false,
    }
}

/// Whether `to` is `from` with each span replaced by what `f` makes of it.
pub open spec fn module_mapped<A, B, F: Fn(A) -> B>(f: F, from: ModuleView<A>, to: ModuleView<B>) -> bool {
    &&& call_ensures(f, (from.span,), to.span)
    &&& from.items.len() == to.items.len()
    &&& forall|i: int| 0 <= i < from.items.len() ==> #[trigger] module_item_mapped(f, from.items[i], to.items[i])
}

impl<SpanT> Identifier<SpanT> {
    /// Replaces each span by what `f` makes of it.
    pub fn map_span<B, F: Fn(SpanT) -> B>(self, f: &F) -> (r: Identifier<B>)
        requires
            forall|a: SpanT| call_requires(f, (a,)),
        ensures
            identifier_mapped(*f, self@, r@),
    {
        let Identifier { span, name } = self;
        let span = f(span);
        let r = Identifier { span, name };
        r
    }
}

impl<SpanT> Type<SpanT> {
    /// Replaces each span by what `f` makes of it.
    pub fn map_span<B, F: Fn(SpanT) -> B>(self, f: &F) -> (r: Type<B>)
        requires
            forall|a: SpanT| call_requires(f, (a,)),
        ensures
            type_mapped(*f, self@, r@),
    {
        let Type { span, kind } = self;
        let span = f(span);
        let r = Type { span, kind };
        r
    }
}

impl<SpanT> InterpolationSegmentKind<SpanT> {
    /// Replaces each span by what `f` makes of it.
    pub fn map_span<B, F: Fn(SpanT) -> B>(self, f: &F) -> (r: InterpolationSegmentKind<B>)
        requires
            forall|a: SpanT| call_requires(f, (a,)),
        ensures
            interpolation_segment_kind_mapped(*f, self@, r@),
    {
        match self {
            InterpolationSegmentKind::Literal(inner) => InterpolationSegmentKind::Literal(inner),
            InterpolationSegmentKind::Variable(inner) => InterpolationSegmentKind::Variable(inner.map_span(f)),
        }
    }
}

impl<SpanT> InterpolationSegment<SpanT> {
    /// Replaces each span by what `f` makes of it.
    pub fn map_span<B, F: Fn(SpanT) -> B>(self, f: &F) -> (r: InterpolationSegment<B>)
        requires
            forall|a: SpanT| call_requires(f, (a,)),
        ensures
            interpolation_segment_mapped(*f, self@, r@),
    {
        let InterpolationSegment { span, kind } = self;
        let span = f(span);
        let kind = kind.map_span(f);
        let r = InterpolationSegment { span, kind };
        r
    }
}

impl<SpanT> Text<SpanT> {
    /// Replaces each span by what `f` makes of it.
    pub fn map_span<B, F: Fn(SpanT) -> B>(self, f: &F) -> (r: Text<B>)
        requires
            forall|a: SpanT| call_requires(f, (a,)),
        ensures
            text_mapped(*f, self@, r@),
    {
        let Text { span, segments } = self;
        let span = f(span);
        let ghost all_segments = segments@;
        let mut mapped_segments: Vec<InterpolationSegment<B>> = Vec::new();
        for item in it: segments
            invariant
                it.seq() == all_segments,
                forall|a: SpanT| call_requires(f, (a,)),
                mapped_segments@.len() == it.index(),
                forall|j: int|
                    0 <= j < mapped_segments@.len() ==> #[trigger] interpolation_segment_mapped(
                        *f,
                        all_segments[j]@,
                        mapped_segments@[j]@,
                    ),
        {
            let new_item = item.map_span(f);
            mapped_segments.push(new_item);
        }
        let segments = mapped_segments;
        let r = Text { span, segments };
        r
    }
}

impl<SpanT> StringValue<SpanT> {
    /// Replaces each span by what `f` makes of it.
    pub fn map_span<B, F: Fn(SpanT) -> B>(self, f: &F) -> (r: StringValue<B>)
        requires
            forall|a: SpanT| call_requires(f, (a,)),
        ensures
            string_value_mapped(*f, self@, r@),
    {
        let StringValue { span, segments } = self;
        let span = f(span);
        let ghost all_segments = segments@;
        let mut mapped_segments: Vec<InterpolationSegment<B>> = Vec::new();
        for item in it: segments
            invariant
                it.seq() == all_segments,
                forall|a: SpanT| call_requires(f, (a,)),
                mapped_segments@.len() == it.index(),
                forall|j: int|
                    0 <= j < mapped_segments@.len() ==> #[trigger] interpolation_segment_mapped(
                        *f,
                        all_segments[j]@,
                        mapped_segments@[j]@,
                    ),
        {
            let new_item = item.map_span(f);
            mapped_segments.push(new_item);
        }
        let segments = mapped_segments;
        let r = StringValue { span, segments };
        r
    }
}

impl<SpanT> ValueKind<SpanT> {
    /// Replaces each span by what `f` makes of it.
    pub fn map_span<B, F: Fn(SpanT) -> B>(self, f: &F) -> (r: ValueKind<B>)
        requires
            forall|a: SpanT| call_requires(f, (a,)),
        ensures
            value_kind_mapped(*f, self@, r@),
    {
        match self {
            ValueKind::String(inner) => ValueKind::String(inner.map_span(f)),
            ValueKind::Integer(inner) => ValueKind::Integer(inner),
            ValueKind::Bool(inner) => ValueKind::Bool(inner),
            ValueKind::Variable(inner) => ValueKind::Variable(inner.map_span(f)),
        }
    }
}

impl<SpanT> Value<SpanT> {
    /// Replaces each span by what `f` makes of it.
    pub fn map_span<B, F: Fn(SpanT) -> B>(self, f: &F) -> (r: Value<B>)
        requires
            forall|a: SpanT| call_requires(f, (a,)),
        ensures
            value_mapped(*f, self@, r@),
    {
        let Value { span, kind } = self;
        let span = f(span);
        let kind = kind.map_span(f);
        let r = Value { span, kind };
        r
    }
}

impl<SpanT> NamedPropertyDefinition<SpanT> {
    /// Replaces each span by what `f` makes of it.
    pub fn map_span<B, F: Fn(SpanT) -> B>(self, f: &F) -> (r: NamedPropertyDefinition<B>)
        requires
            forall|a: SpanT| call_requires(f, (a,)),
        ensures
            named_property_definition_mapped(*f, self@, r@),
    {
        let NamedPropertyDefinition { name, ty, default_value } = self;
        let name = name.map_span(f);
        let ty = ty.map_span(f);
        let default_value = match default_value {
            Some(inner) => Some(inner.map_span(f)),
            None => None,
        };
        let r = NamedPropertyDefinition { name, ty, default_value };
        r
    }
}

impl<SpanT> TextPropertyDefinition<SpanT> {
    /// Replaces each span by what `f` makes of it.
    pub fn map_span<B, F: Fn(SpanT) -> B>(self, f: &F) -> (r: TextPropertyDefinition<B>)
        requires
            forall|a: SpanT| call_requires(f, (a,)),
        ensures
            text_property_definition_mapped(*f, self@, r@),
    {
        let TextPropertyDefinition { name } = self;
        let name = name.map_span(f);
        let r = TextPropertyDefinition { name };
        r
    }
}

impl<SpanT> PropertyDefinitionKind<SpanT> {
    /// Replaces each span by what `f` makes of it.
    pub fn map_span<B, F: Fn(SpanT) -> B>(self, f: &F) -> (r: PropertyDefinitionKind<B>)
        requires
            forall|a: SpanT| call_requires(f, (a,)),
        ensures
            property_definition_kind_mapped(*f, self@, r@),
    {
        match self {
            PropertyDefinitionKind::Text(inner) => PropertyDefinitionKind::Text(inner.map_span(f)),
            PropertyDefinitionKind::Default(inner) => PropertyDefinitionKind::Default(inner.map_span(f)),
            PropertyDefinitionKind::Named(inner) => PropertyDefinitionKind::Named(inner.map_span(f)),
        }
    }
}

impl<SpanT> PropertyDefinition<SpanT> {
    /// Replaces each span by what `f` makes of it.
    pub fn map_span<B, F: Fn(SpanT) -> B>(self, f: &F) -> (r: PropertyDefinition<B>)
        requires
            forall|a: SpanT| call_requires(f, (a,)),
        ensures
            property_definition_mapped(*f, self@, r@),
    {
        let PropertyDefinition { span, kind } = self;
        let span = f(span);
        let kind = kind.map_span(f);
        let r = PropertyDefinition { span, kind };
        r
    }
}

impl<SpanT> PropertiesDefinition<SpanT> {
    /// Replaces each span by what `f` makes of it.
    pub fn map_span<B, F: Fn(SpanT) -> B>(self, f: &F) -> (r: PropertiesDefinition<B>)
        requires
            forall|a: SpanT| call_requires(f, (a,)),
        ensures
            properties_definition_mapped(*f, self@, r@),
    {
        let PropertiesDefinition { span, properties } = self;
        let span = f(span);
        let ghost all_properties = properties@;
        let mut mapped_properties: Vec<PropertyDefinition<B>> = Vec::new();
        for item in it: properties
            invariant
                it.seq() == all_properties,
                forall|a: SpanT| call_requires(f, (a,)),
                mapped_properties@.len() == it.index(),
                forall|j: int|
                    0 <= j < mapped_properties@.len() ==> #[trigger] property_definition_mapped(
                        *f,
                        all_properties[j]@,
                        mapped_properties@[j]@,
                    ),
        {
            let new_item = item.map_span(f);
            mapped_properties.push(new_item);
        }
        let properties = mapped_properties;
        let r = PropertiesDefinition { span, properties };
        r
    }
}

impl<SpanT> PropertyKind<SpanT> {
    /// Replaces each span by what `f` makes of it.
    pub fn map_span<B, F: Fn(SpanT) -> B>(self, f: &F) -> (r: PropertyKind<B>)
        requires
            forall|a: SpanT| call_requires(f, (a,)),
        ensures
            property_kind_mapped(*f, self@, r@),
    {
        match self {
            PropertyKind::KeyValue { key, value } => PropertyKind::KeyValue { key: key.map_span(f), value: value.map_span(f) },
            PropertyKind::Flag { key } => PropertyKind::Flag { key: key.map_span(f) },
        }
    }
}

impl<SpanT> Property<SpanT> {
    /// Replaces each span by what `f` makes of it.
    pub fn map_span<B, F: Fn(SpanT) -> B>(self, f: &F) -> (r: Property<B>)
        requires
            forall|a: SpanT| call_requires(f, (a,)),
        ensures
            property_mapped(*f, self@, r@),
    {
        let Property { span, kind } = self;
        let span = f(span);
        let kind = kind.map_span(f);
        let r = Property { span, kind };
        r
    }
}

impl<SpanT> Properties<SpanT> {
    /// Replaces each span by what `f` makes of it.
    pub fn map_span<B, F: Fn(SpanT) -> B>(self, f: &F) -> (r: Properties<B>)
        requires
            forall|a: SpanT| call_requires(f, (a,)),
        ensures
            properties_mapped(*f, self@, r@),
    {
        let Properties { span, default, properties } = self;
        let span = f(span);
        let default = match default {
            Some(inner) => Some(inner.map_span(f)),
            None => None,
        };
        let ghost all_properties = properties@;
        let mut mapped_properties: Vec<Property<B>> = Vec::new();
        for item in it: properties
            invariant
                it.seq() == all_properties,
                forall|a: SpanT| call_requires(f, (a,)),
                mapped_properties@.len() == it.index(),
                forall|j: int|
                    0 <= j < mapped_properties@.len() ==> #[trigger] property_mapped(
                        *f,
                        all_properties[j]@,
                        mapped_properties@[j]@,
                    ),
        {
            let new_item = item.map_span(f);
            mapped_properties.push(new_item);
        }
        let properties = mapped_properties;
        let r = Properties { span, default, properties };
        r
    }
}

impl<SpanT> Component<SpanT> {
    /// Replaces each span by what `f` makes of it.
    pub fn map_span<B, F: Fn(SpanT) -> B>(self, f: &F) -> (r: Component<B>)
        requires
            forall|a: SpanT| call_requires(f, (a,)),
        ensures
            component_mapped(*f, self@, r@),
        decreases self,
    {
        let ghost whole = self;
        let Component { span, name, properties, children, text } = self;
        let span = f(span);
        let name = name.map_span(f);
        let properties = match properties {
            Some(inner) => Some(inner.map_span(f)),
            None => None,
        };
        let children = match children {
            Some(list) => {
                assert(decreases_to!(whole => whole.children));
                assert(whole.children->0 == list);
                assert(decreases_to!(whole.children => whole.children->0));
                let ghost all = list;
                let ComponentChildren { span: list_span, children: old_children } = list;
                let mut mapped: Vec<Component<B>> = Vec::new();
                for child in it: old_children
                    invariant
                        it.seq() == all.children@,
                        whole == self,
                        whole.children == Some(all),
                        forall|a: SpanT| call_requires(f, (a,)),
                        mapped@.len() == it.index(),
                        forall|j: int|
                            0 <= j < mapped@.len() ==> #[trigger] component_mapped(
                                *f,
                                all.children@[j]@,
                                mapped@[j]@,
                            ),
                {
                    assert(decreases_to!(whole => whole.children));
                    assert(decreases_to!(whole.children => whole.children->0));
                    assert(decreases_to!(all => all.children));
                    assert(decreases_to!(all.children => all.children[it.index() as int]));
                    let new_child = child.map_span(f);
                    mapped.push(new_child);
                }
                Some(ComponentChildren { span: f(list_span), children: mapped })
            },
            None => None,
        };
        assert(match (whole.children, children) {
            (Some(a), Some(b)) => {
                &&& call_ensures(*f, (a.span,), b.span)
                &&& a.children@.len() == b.children@.len()
                &&& forall|j: int|
                    0 <= j < a.children@.len() ==> #[trigger] component_mapped(
                        *f,
                        a.children@[j]@,
                        b.children@[j]@,
                    )
            },
            (None, None) => true,
            _ => false,
        });
        let text = match text {
            Some(inner) => Some(inner.map_span(f)),
            None => None,
        };
        let r = Component { span, name, properties, children, text };
        let ghost done = r;
        proof {
            lemma_component_children_view(whole);
            lemma_component_children_view(done);
            match (whole@.children, done@.children) {
                (Some(a), Some(b)) => {
                    assert forall|i: int| 0 <= i < a.children.len() implies component_mapped(
                        *f,
                        #[trigger] a.children[i],
                        b.children[i],
                    ) by {
                        assert(component_mapped(
                            *f,
                            whole.children->0.children@[i]@,
                            done.children->0.children@[i]@,
                        ));
                    }
                },
                _ => {},
            }
        }
        r
    }
}

impl<SpanT> ComponentChildren<SpanT> {
    /// Replaces each span by what `f` makes of it.
    pub fn map_span<B, F: Fn(SpanT) -> B>(self, f: &F) -> (r: ComponentChildren<B>)
        requires
            forall|a: SpanT| call_requires(f, (a,)),
        ensures
            component_children_mapped(*f, self@, r@),
    {
        let ComponentChildren { span, children } = self;
        let span = f(span);
        let ghost all_children = children@;
        let mut mapped_children: Vec<Component<B>> = Vec::new();
        for item in it: children
            invariant
                it.seq() == all_children,
                forall|a: SpanT| call_requires(f, (a,)),
                mapped_children@.len() == it.index(),
                forall|j: int|
                    0 <= j < mapped_children@.len() ==> #[trigger] component_mapped(
                        *f,
                        all_children[j]@,
                        mapped_children@[j]@,
                    ),
        {
            let new_item = item.map_span(f);
            mapped_children.push(new_item);
        }
        let children = mapped_children;
        let r = ComponentChildren { span, children };
        r
    }
}

impl<SpanT> ComponentDefinition<SpanT> {
    /// Replaces each span by what `f` makes of it.
    pub fn map_span<B, F: Fn(SpanT) -> B>(self, f: &F) -> (r: ComponentDefinition<B>)
        requires
            forall|a: SpanT| call_requires(f, (a,)),
        ensures
            component_definition_mapped(*f, self@, r@),
    {
        let ComponentDefinition { span, name, properties, children } = self;
        let span = f(span);
        let name = name.map_span(f);
        let properties = match properties {
            Some(inner) => Some(inner.map_span(f)),
            None => None,
        };
        let children = match children {
            Some(inner) => Some(inner.map_span(f)),
            None => None,
        };
        let r = ComponentDefinition { span, name, properties, children };
        r
    }
}

impl<SpanT> ModuleItem<SpanT> {
    /// Replaces each span by what `f` makes of it.
    pub fn map_span<B, F: Fn(SpanT) -> B>(self, f: &F) -> (r: ModuleItem<B>)
        requires
            forall|a: SpanT| call_requires(f, (a,)),
        ensures
            module_item_mapped(*f, self@, r@),
    {
        match self {
            ModuleItem::Component(inner) => ModuleItem::Component(inner.map_span(f)),
            ModuleItem::ComponentDefinition(inner) => ModuleItem::ComponentDefinition(inner.map_span(f)),
        }
    }
}

impl<SpanT> Module<SpanT> {
    /// Replaces each span by what `f` makes of it.
    pub fn map_span<B, F: Fn(SpanT) -> B>(self, f: &F) -> (r: Module<B>)
        requires
            forall|a: SpanT| call_requires(f, (a,)),
        ensures
            module_mapped(*f, self@, r@),
    {
        let Module { span, items } = self;
        let span = f(span);
        let ghost all_items = items@;
        let mut mapped_items: Vec<ModuleItem<B>> = Vec::new();
        for item in it: items
            invariant
                it.seq() == all_items,
                forall|a: SpanT| call_requires(f, (a,)),
                mapped_items@.len() == it.index(),
                forall|j: int|
                    0 <= j < mapped_items@.len() ==> #[trigger] module_item_mapped(
                        *f,
                        all_items[j]@,
                        mapped_items@[j]@,
                    ),
        {
            let new_item = item.map_span(f);
            mapped_items.push(new_item);
        }
        let items = mapped_items;
        let r = Module { span, items };
        r
    }
}

} // verus!
