//! What the HTML backend makes of the intermediate representation, as
//! functions on the values of trees.

use vstd::prelude::*;
use crate::ast::{InterpolationSegmentKindView, InterpolationSegmentView, ValueKindView, ValueView};
use crate::backend_error::{BackendFailure, TextMissingError};
use crate::html::{HtmlTag, HtmlView};
use crate::ir::{ComponentView, ModuleItemView, ModuleView, PropertiesView};
use crate::span::Span;

verus! {

/// The text of the segments of a string or of a text: the literal segments
/// joined; a variable gives nothing.
pub open spec fn interpolated(segments: Seq<InterpolationSegmentView<Span>>) -> Seq<char>
    decreases segments.len(),
{
    if segments.len() == 0 {
        seq![]
    } else {
        interpolated(segments.drop_last()) + (match segments.last().kind {
            InterpolationSegmentKindView::Literal(content) => content,
            InterpolationSegmentKindView::Variable(_) => seq![],
        })
    }
}

/// The name of the type of a value.
pub open spec fn value_kind_name(kind: ValueKindView<Span>) -> Seq<char> {
    match kind {
        ValueKindView::String(_) => "string"@,
        ValueKindView::Integer(_) => "int"@,
        ValueKindView::Variable(_) => "variable"@,
        ValueKindView::Bool(_) => "bool"@,
    }
}

/// A value as a string: the text of a string; a value of another type is an
/// error.
pub open spec fn as_string(value: ValueView<Span>) -> Result<Seq<char>, BackendFailure> {
    match value.kind {
        ValueKindView::String(string) => Ok(interpolated(string.segments)),
        kind => Err(
            BackendFailure::TypeMismatch {
                expected: "string"@,
                got: value_kind_name(kind),
                span: value.span,
            },
        ),
    }
}

/// A value as an integer; a value of another type is an error.
pub open spec fn as_int(value: ValueView<Span>) -> Result<i64, BackendFailure> {
    match value.kind {
        ValueKindView::Integer(n) => Ok(n),
        kind => Err(
            BackendFailure::TypeMismatch {
                expected: "int"@,
                got: value_kind_name(kind),
                span: value.span,
            },
        ),
    }
}

/// The offset of the first property with a value that has the given name.
pub open spec fn named_index(properties: PropertiesView<Span>, name: Seq<char>, from: int) -> Option<
    int,
>
    decreases properties.named_properties.len() - from,
{
    if from < 0 || from >= properties.named_properties.len() {
        None
    } else if properties.named_properties[from].key.name == name {
        Some(from)
    } else {
        named_index(properties, name, from + 1)
    }
}

/// The value of the property with the given name, if there is one.
pub open spec fn named_value(properties: PropertiesView<Span>, name: Seq<char>) -> Option<
    ValueView<Span>,
> {
    match named_index(properties, name, 0) {
        Some(i) => Some(properties.named_properties[i].value),
        None => None,
    }
}

/// The default value, or else the value of the property with the given
/// name, if there is one.
pub open spec fn default_or_named(properties: PropertiesView<Span>, name: Seq<char>) -> Option<
    ValueView<Span>,
> {
    match properties.default {
        Some(value) => Some(value),
        None => named_value(properties, name),
    }
}

/// The default value, or else the value of the property with the given
/// name; an error where there is neither.
pub open spec fn required(component: ComponentView<Span>, name: Seq<char>) -> Result<
    ValueView<Span>,
    BackendFailure,
> {
    match default_or_named(component.properties, name) {
        Some(value) => Ok(value),
        None => Err(
            BackendFailure::RequiredDefaultPropertyMissing { name, span: component.span },
        ),
    }
}

/// The text of a component; an error where it has none.
pub open spec fn text_of(component: ComponentView<Span>) -> Result<Seq<char>, BackendFailure> {
    match component.text {
        Some(text) => Ok(interpolated(text.segments)),
        None => Err(BackendFailure::TextMissing(TextMissingError { span: component.span })),
    }
}

/// Whether an alignment is one of `start`, `center` and `end`.
pub open spec fn align_allowed(align: Seq<char>) -> bool {
    align == "start"@ || align == "center"@ || align == "end"@
}

/// The choice between two flags of which the first is the default: whether
/// the first holds; an error where both are set.
pub open spec fn first_of_two(properties: PropertiesView<Span>, first: Seq<char>, second: Seq<char>) -> Result<
    bool,
    BackendFailure,
> {
    if properties.has_flag(first) && properties.has_flag(second) {
        Err(BackendFailure::InvalidProperty)
    } else {
        Ok(!properties.has_flag(second))
    }
}

/// The alignment that a property gives, if the property is there: the text
/// of its string.
pub open spec fn alignment(properties: PropertiesView<Span>, name: Seq<char>) -> Result<
    Option<Seq<char>>,
    BackendFailure,
> {
    match named_value(properties, name) {
        None => Ok(None),
        Some(value) => match as_string(value) {
            Err(e) => Err(e),
            Ok(text) => Ok(Some(text)),
        },
    }
}

/// One declaration of a style with a semicolon in front of it, where the
/// value is there.
pub open spec fn style_part(name: Seq<char>, value: Option<Seq<char>>) -> Seq<char> {
    match value {
        Some(text) => "; "@ + name + ": "@ + text,
        None => seq![],
    }
}

/// The style of a box: a flexible box in the given direction, with the
/// alignment along the direction and the alignment across it.
pub open spec fn box_style(vertical: bool, x_align: Option<Seq<char>>, y_align: Option<Seq<char>>) -> Seq<
    char,
> {
    let direction = if vertical {
        "column"@
    } else {
        "row"@
    };
    let justify_content = if vertical {
        y_align
    } else {
        x_align
    };
    let align_items = if vertical {
        x_align
    } else {
        y_align
    };
    "display: flex; flex-direction: "@ + direction + style_part(
        "justify-content"@,
        justify_content,
    ) + style_part("align-items"@, align_items)
}

/// The style of a box by its properties: an error where it is vertical and
/// horizontal, where an alignment is no string, or where an alignment is
/// not allowed.
pub open spec fn box_style_of(properties: PropertiesView<Span>) -> Result<Seq<char>, BackendFailure> {
    match first_of_two(properties, "vertical"@, "horizontal"@) {
        Err(e) => Err(e),
        Ok(vertical) => match alignment(properties, "x_align"@) {
            Err(e) => Err(e),
            Ok(x_align) => match alignment(properties, "y_align"@) {
                Err(e) => Err(e),
                Ok(y_align) => if x_align is Some && !align_allowed(x_align->0) {
                    Err(BackendFailure::InvalidProperty)
                } else if y_align is Some && !align_allowed(y_align->0) {
                    Err(BackendFailure::InvalidProperty)
                } else {
                    Ok(box_style(vertical, x_align, y_align))
                },
            },
        },
    }
}

/// The tag of a header of a level from one to six.
pub open spec fn heading_tag(level: i64) -> Option<HtmlTag> {
    if level == 1 {
        Some(HtmlTag::Heading1)
    } else if level == 2 {
        Some(HtmlTag::Heading2)
    } else if level == 3 {
        Some(HtmlTag::Heading3)
    } else if level == 4 {
        Some(HtmlTag::Heading4)
    } else if level == 5 {
        Some(HtmlTag::Heading5)
    } else if level == 6 {
        Some(HtmlTag::Heading6)
    } else {
        None
    }
}

/// The level of a header: its default value or its property `level`, or one
/// where it has neither.
pub open spec fn header_level(properties: PropertiesView<Span>) -> Result<i64, BackendFailure> {
    match default_or_named(properties, "level"@) {
        None => Ok(1i64),
        Some(value) => as_int(value),
    }
}

/// An element without attributes that holds a text.
pub open spec fn text_element(tag: HtmlTag, text: Seq<char>) -> HtmlView {
    HtmlView::Element { tag, attributes: seq![], children: seq![HtmlView::Raw(text)] }
}

/// The HTML of a text component: the text in a `span`.
pub open spec fn emit_text(component: ComponentView<Span>) -> Result<HtmlView, BackendFailure> {
    match text_of(component) {
        Err(e) => Err(e),
        Ok(text) => Ok(HtmlView::Raw("<span>"@ + text + "</span>"@)),
    }
}

/// The HTML of a link: an anchor to the address, with the text in it.
pub open spec fn emit_link(component: ComponentView<Span>) -> Result<HtmlView, BackendFailure> {
    match required(component, "url"@) {
        Err(e) => Err(e),
        Ok(value) => match as_string(value) {
            Err(e) => Err(e),
            Ok(href) => match text_of(component) {
                Err(e) => Err(e),
                Ok(text) => Ok(
                    HtmlView::Element {
                        tag: HtmlTag::Link,
                        attributes: seq![("href"@, href)],
                        children: seq![HtmlView::Raw(text)],
                    },
                ),
            },
        },
    }
}

/// The HTML of a paragraph.
pub open spec fn emit_paragraph(component: ComponentView<Span>) -> Result<HtmlView, BackendFailure> {
    match text_of(component) {
        Err(e) => Err(e),
        Ok(text) => Ok(text_element(HtmlTag::ParagraphText, text)),
    }
}

/// The HTML of a header: a heading of its level with its text; an error
/// where the level is not from one to six.
pub open spec fn emit_header(component: ComponentView<Span>) -> Result<HtmlView, BackendFailure> {
    match text_of(component) {
        Err(e) => Err(e),
        Ok(text) => match header_level(component.properties) {
            Err(e) => Err(e),
            Ok(level) => match heading_tag(level) {
                None => Err(BackendFailure::InvalidProperty),
                Some(tag) => Ok(text_element(tag, text)),
            },
        },
    }
}

/// The HTML of an image.
pub open spec fn emit_image(component: ComponentView<Span>) -> Result<HtmlView, BackendFailure> {
    match required(component, "src"@) {
        Err(e) => Err(e),
        Ok(value) => match as_string(value) {
            Err(e) => Err(e),
            Ok(src) => Ok(
                HtmlView::Element {
                    tag: HtmlTag::Image,
                    attributes: seq![("src"@, src)],
                    children: seq![],
                },
            ),
        },
    }
}

/// A node as an item of a list.
pub open spec fn list_item(node: HtmlView) -> HtmlView {
    HtmlView::Element { tag: HtmlTag::ListElement, attributes: seq![], children: seq![node] }
}

/// The HTML of a component: that of the built-in component of its name; a
/// component of another name is an error.
#[verifier::opaque]
pub open spec fn emit_component(component: ComponentView<Span>) -> Result<HtmlView, BackendFailure>
    decreases component, 0int,
{
    let name = component.name.name;
    if name == "box"@ {
        match box_style_of(component.properties) {
            Err(e) => Err(e),
            Ok(style) => match emit_components(
                component.children,
                component.children.len() as int,
                false,
            ) {
                Err(e) => Err(e),
                Ok(children) => Ok(
                    HtmlView::Element {
                        tag: HtmlTag::Div,
                        attributes: seq![("style"@, style)],
                        children,
                    },
                ),
            },
        }
    } else if name == "@"@ {
        emit_text(component)
    } else if name == "#"@ {
        emit_link(component)
    } else if name == "paragraph"@ {
        emit_paragraph(component)
    } else if name == "header"@ {
        emit_header(component)
    } else if name == "image"@ {
        emit_image(component)
    } else if name == "list"@ {
        match first_of_two(component.properties, "unordered"@, "ordered"@) {
            Err(e) => Err(e),
            Ok(unordered) => match emit_components(
                component.children,
                component.children.len() as int,
                true,
            ) {
                Err(e) => Err(e),
                Ok(children) => Ok(
                    HtmlView::Element {
                        tag: if unordered {
                            HtmlTag::UnorderedList
                        } else {
                            HtmlTag::OrderedList
                        },
                        attributes: seq![],
                        children,
                    },
                ),
            },
        }
    } else {
        Err(BackendFailure::Unimplemented)
    }
}

/// The HTML of the first `upto` components of a list, each one as an item
/// of a list where `as_items` holds; the error is that of the first
/// component that has one.
#[verifier::opaque]
pub open spec fn emit_components(components: Seq<ComponentView<Span>>, upto: int, as_items: bool) -> Result<
    Seq<HtmlView>,
    BackendFailure,
>
    decreases components, upto,
{
    if upto <= 0 || upto > components.len() {
        Ok(seq![])
    } else {
        match emit_components(components, upto - 1, as_items) {
            Err(e) => Err(e),
            Ok(before) => match emit_component(components[upto - 1]) {
                Err(e) => Err(e),
                Ok(node) => Ok(
                    before.push(
                        if as_items {
                            list_item(node)
                        } else {
                            node
                        },
                    ),
                ),
            },
        }
    }
}

/// The HTML of the components among the first `upto` items of a module, in
/// order; the error is that of the first component that has one. Component
/// definitions give nothing.
pub open spec fn emit_items(items: Seq<ModuleItemView<Span>>, upto: int) -> Result<
    Seq<HtmlView>,
    BackendFailure,
>
    decreases upto,
{
    if upto <= 0 || upto > items.len() {
        Ok(seq![])
    } else {
        match emit_items(items, upto - 1) {
            Err(e) => Err(e),
            Ok(before) => match items[upto - 1] {
                ModuleItemView::Component(component) => match emit_component(component) {
                    Err(e) => Err(e),
                    Ok(node) => Ok(before.push(node)),
                },
                ModuleItemView::ComponentDefinition(_) => Ok(before),
            },
        }
    }
}

/// The HTML of a module: a `main` element with the HTML of its components.
pub open spec fn emit_module(module: ModuleView<Span>) -> Result<HtmlView, BackendFailure> {
    match emit_items(module.items, module.items.len() as int) {
        Err(e) => Err(e),
        Ok(children) => Ok(
            HtmlView::Element { tag: HtmlTag::Main, attributes: seq![], children },
        ),
    }
}

} // verus!
