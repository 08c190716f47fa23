//! The HTML backend: from the intermediate representation to a tree of
//! HTML.
//!
//! The built-in components are `box`, `@`, `#`, `paragraph`, `header`,
//! `image` and `list`. A component of another name is an error.

use vstd::prelude::*;
use vstd::string::*;
use crate::ast::views;
use crate::backend_error::{
    BackendError, BackendFailure, RequiredDefaultPropertyMissingError, TextMissingError,
    TypeMismatchError,
};
use crate::html::{html_views, HtmlAttribute, HtmlChild, HtmlTag, HtmlView};
use crate::html_model::{
    align_allowed, alignment, as_int, as_string, box_style, box_style_of, default_or_named,
    emit_component, emit_components, emit_items, emit_module, first_of_two, heading_tag,
    interpolated, list_item, named_index, named_value, required, style_part, text_element, text_of,
    value_kind_name,
};
use crate::ir;
use crate::ir::same_text;
use crate::span::Span;

verus! {

/// The generator of the HTML of a module.
pub struct HtmlGenerator {
    ir: ir::Module<Span>,
}

/// The mathematical value of the outcome of the backend.
pub open spec fn emitted<T: View>(result: Result<T, BackendError>) -> Result<T::V, BackendFailure> {
    match result {
        Ok(tree) => Ok(tree@),
        Err(e) => Err(e@),
    }
}

/// The mathematical value of a text that the backend built, or of its
/// error.
pub open spec fn emitted_text(result: Result<String, BackendError>) -> Result<
    Seq<char>,
    BackendFailure,
> {
    match result {
        Ok(text) => Ok(text@),
        Err(e) => Err(e@),
    }
}

impl HtmlGenerator {
    /// The value of the module that the generator reads.
    pub closed spec fn module(&self) -> ir::ModuleView<Span> {
        self.ir@
    }

    /// Creates a generator for the given module.
    pub fn new(ir: ir::Module<Span>) -> (r: HtmlGenerator)
        ensures
            r.module() == ir@,
    {
        HtmlGenerator { ir }
    }

    /// The HTML of the module: a `main` element with the HTML of its
    /// components, or the first error on the way through them.
    pub fn generate(self) -> (r: Result<HtmlChild, BackendError>)
        ensures
            emitted(r) == emit_module(self.module()),
    {
        Self::emit_module(&self.ir)
    }

    fn emit_module(module: &ir::Module<Span>) -> (r: Result<HtmlChild, BackendError>)
        ensures
            emitted(r) == emit_module(module@),
    {
        let ghost items = views(module.items@);
        let mut nodes: Vec<HtmlChild> = Vec::new();
        let mut k: usize = 0;
        assert(html_views(nodes@) =~= Seq::<HtmlView>::empty());
        while k < module.items.len()
            invariant
                k <= module.items@.len(),
                items == views(module.items@),
                emit_items(items, k as int) == Ok::<Seq<HtmlView>, BackendFailure>(
                    html_views(nodes@),
                ),
            decreases module.items@.len() - k,
        {
            let ghost before = html_views(nodes@);
            match &module.items[k] {
                ir::ModuleItem::Component(component) => {
                    match Self::emit_component(component) {
                        Ok(node) => {
                            nodes.push(node);
                            assert(html_views(nodes@) =~= before.push(node@));
                        },
                        Err(e) => {
                            proof {
                                lemma_items_error_stays(items, k as int + 1, items.len() as int);
                            }
                            return Err(e);
                        },
                    }
                },
                ir::ModuleItem::ComponentDefinition(_) => {},
            }
            k += 1;
        }
        let attributes: Vec<HtmlAttribute> = Vec::new();
        assert(crate::html::attribute_views(attributes@) =~= Seq::<
            (Seq<char>, Seq<char>),
        >::empty());
        Ok(HtmlChild::element(HtmlTag::Main, attributes, nodes))
    }

    fn emit_component(component: &ir::Component<Span>) -> (r: Result<HtmlChild, BackendError>)
        ensures
            emitted(r) == emit_component(component@),
        decreases component, 2int,
    {
        match Self::try_emit_builtin_component(component) {
            Ok(Some(node)) => Ok(node),
            Ok(None) => Err(BackendError::Unimplemented),
            Err(e) => Err(e),
        }
    }

    fn emit_children(component: &ir::Component<Span>, as_items: bool) -> (r: Result<
        Vec<HtmlChild>,
        BackendError,
    >)
        ensures
            match r {
                Ok(nodes) => emit_components(
                    component@.children,
                    component@.children.len() as int,
                    as_items,
                ) == Ok::<Seq<HtmlView>, BackendFailure>(html_views(nodes@)),
                Err(e) => emit_components(
                    component@.children,
                    component@.children.len() as int,
                    as_items,
                ) == Err::<Seq<HtmlView>, BackendFailure>(e@),
            },
        decreases component, 0int,
    {
        proof {
            ir::lemma_component_children_view(*component);
        }
        let ghost all = component@.children;
        let mut nodes: Vec<HtmlChild> = Vec::new();
        let mut k: usize = 0;
        assert(html_views(nodes@) =~= Seq::<HtmlView>::empty());
        reveal(emit_components);
        reveal(emit_component);
        while k < component.children.len()
            invariant
                k <= component.children@.len(),
                all == component@.children,
                all == views(component.children@),
                emit_components(all, k as int, as_items) == Ok::<Seq<HtmlView>, BackendFailure>(
                    html_views(nodes@),
                ),
            decreases component.children@.len() - k,
        {
            reveal(emit_components);
            reveal(emit_component);
            let ghost before = html_views(nodes@);
            assert(decreases_to!(component => component.children));
            assert(decreases_to!(component.children => component.children[k as int]));
            match Self::emit_component(&component.children[k]) {
                Ok(node) => {
                    if as_items {
                        let mut inner: Vec<HtmlChild> = Vec::new();
                        inner.push(node);
                        assert(html_views(inner@) =~= seq![node@]);
                        let nothing: Vec<HtmlAttribute> = Vec::new();
                        assert(crate::html::attribute_views(nothing@) =~= Seq::<
                            (Seq<char>, Seq<char>),
                        >::empty());
                        let item = HtmlChild::element(HtmlTag::ListElement, nothing, inner);
                        assert(item@ == list_item(node@));
                        nodes.push(item);
                        assert(html_views(nodes@) =~= before.push(item@));
                    } else {
                        nodes.push(node);
                        assert(html_views(nodes@) =~= before.push(node@));
                    }
                },
                Err(e) => {
                    proof {
                        lemma_emit_error_stays(all, k as int + 1, all.len() as int, as_items);
                    }
                    return Err(e);
                },
            }
            k += 1;
        }
        Ok(nodes)
    }

    fn try_emit_builtin_component(component: &ir::Component<Span>) -> (r: Result<
        Option<HtmlChild>,
        BackendError,
    >)
        ensures
            match r {
                Ok(Some(node)) => emit_component(component@) == Ok::<HtmlView, BackendFailure>(
                    node@,
                ),
                Ok(None) => emit_component(component@) == Err::<HtmlView, BackendFailure>(
                    BackendFailure::Unimplemented,
                ),
                Err(e) => emit_component(component@) == Err::<HtmlView, BackendFailure>(e@),
            },
        decreases component, 1int,
    {
        reveal(emit_component);
        reveal(emit_components);
        let name = component.name.as_str();
        if same_text(name, "box") {
            let style = match Self::box_style(component) {
                Ok(style) => style,
                Err(e) => {
                    return Err(e);
                },
            };
            let children = match Self::emit_children(component, false) {
                Ok(children) => children,
                Err(e) => {
                    return Err(e);
                },
            };
            let mut attributes: Vec<HtmlAttribute> = Vec::new();
            attributes.push(HtmlAttribute { name: "style".to_owned(), value: style });
            assert(crate::html::attribute_views(attributes@) =~= seq![("style"@, style@)]);
            Ok(Some(HtmlChild::element(HtmlTag::Div, attributes, children)))
        } else if same_text(name, "@") {
            let text = match Self::get_text(component) {
                Ok(text) => text,
                Err(e) => {
                    return Err(e);
                },
            };
            let mut content = "<span>".to_owned();
            content.append(text.as_str());
            content.append("</span>");
            Ok(Some(HtmlChild::raw(content)))
        } else if same_text(name, "#") {
            let href = match Self::get_default_or_named_property(component, "url") {
                Ok(value) => match Self::cast_to_string(value) {
                    Ok(href) => href,
                    Err(e) => {
                        return Err(e);
                    },
                },
                Err(e) => {
                    return Err(e);
                },
            };
            let text = match Self::get_text(component) {
                Ok(text) => text,
                Err(e) => {
                    return Err(e);
                },
            };
            let mut attributes: Vec<HtmlAttribute> = Vec::new();
            attributes.push(HtmlAttribute { name: "href".to_owned(), value: href });
            assert(crate::html::attribute_views(attributes@) =~= seq![("href"@, href@)]);
            Ok(Some(Self::with_text(HtmlTag::Link, attributes, text)))
        } else if same_text(name, "paragraph") {
            let text = match Self::get_text(component) {
                Ok(text) => text,
                Err(e) => {
                    return Err(e);
                },
            };
            Ok(Some(Self::with_text(HtmlTag::ParagraphText, Vec::new(), text)))
        } else if same_text(name, "header") {
            let text = match Self::get_text(component) {
                Ok(text) => text,
                Err(e) => {
                    return Err(e);
                },
            };
            let level = match Self::try_get_default_or_named_property(component, "level") {
                Some(value) => match Self::cast_to_int(value) {
                    Ok(level) => level,
                    Err(e) => {
                        return Err(e);
                    },
                },
                None => 1,
            };
            let tag = match Self::heading(level) {
                Some(tag) => tag,
                None => {
                    return Err(BackendError::InvalidProperty);
                },
            };
            Ok(Some(Self::with_text(tag, Vec::new(), text)))
        } else if same_text(name, "image") {
            let src = match Self::get_default_or_named_property(component, "src") {
                Ok(value) => match Self::cast_to_string(value) {
                    Ok(src) => src,
                    Err(e) => {
                        return Err(e);
                    },
                },
                Err(e) => {
                    return Err(e);
                },
            };
            let mut attributes: Vec<HtmlAttribute> = Vec::new();
            attributes.push(HtmlAttribute { name: "src".to_owned(), value: src });
            assert(crate::html::attribute_views(attributes@) =~= seq![("src"@, src@)]);
            let children: Vec<HtmlChild> = Vec::new();
            assert(html_views(children@) =~= Seq::<HtmlView>::empty());
            Ok(Some(HtmlChild::element(HtmlTag::Image, attributes, children)))
        } else if same_text(name, "list") {
            let unordered = match Self::first_flag(component, "unordered", "ordered") {
                Ok(unordered) => unordered,
                Err(e) => {
                    return Err(e);
                },
            };
            let children = match Self::emit_children(component, true) {
                Ok(children) => children,
                Err(e) => {
                    return Err(e);
                },
            };
            let tag = if unordered {
                HtmlTag::UnorderedList
            } else {
                HtmlTag::OrderedList
            };
            let attributes: Vec<HtmlAttribute> = Vec::new();
            assert(crate::html::attribute_views(attributes@) =~= Seq::<
                (Seq<char>, Seq<char>),
            >::empty());
            Ok(Some(HtmlChild::element(tag, attributes, children)))
        } else {
            Ok(None)
        }
    }

    fn with_text(tag: HtmlTag, attributes: Vec<HtmlAttribute>, text: String) -> (r: HtmlChild)
        ensures
            r@ == (HtmlView::Element {
                tag,
                attributes: crate::html::attribute_views(attributes@),
                children: seq![HtmlView::Raw(text@)],
            }),
            attributes@.len() == 0 ==> r@ == text_element(tag, text@),
    {
        let mut children: Vec<HtmlChild> = Vec::new();
        children.push(HtmlChild::raw(text));
        assert(html_views(children@) =~= seq![HtmlView::Raw(text@)]);
        assert(attributes@.len() == 0 ==> crate::html::attribute_views(attributes@) =~= Seq::<
            (Seq<char>, Seq<char>),
        >::empty());
        HtmlChild::element(tag, attributes, children)
    }

    fn heading(level: i64) -> (r: Option<HtmlTag>)
        ensures
            r == heading_tag(level),
    {
        if level == 1 {
            Some(HtmlTag::Heading1)
        } else if level == 2 {
            Some(HtmlTag::Heading2)
        } else if level == 3 {
            Some(HtmlTag::Heading3)
        } else if level == 4 {
            Some(HtmlTag::Heading4)
        } else if level == 5 {
            Some(HtmlTag::Heading5)
        } else if level == 6 {
            Some(HtmlTag::Heading6)
        } else {
            None
        }
    }

    fn first_flag(component: &ir::Component<Span>, first: &str, second: &str) -> (r: Result<
        bool,
        BackendError,
    >)
        ensures
            match r {
                Ok(b) => first_of_two(component@.properties, first@, second@) == Ok::<
                    bool,
                    BackendFailure,
                >(b),
                Err(e) => first_of_two(component@.properties, first@, second@) == Err::<
                    bool,
                    BackendFailure,
                >(e@),
            },
    {
        let has_first = Self::get_flag_property(component, first);
        let has_second = Self::get_flag_property(component, second);
        if has_first && has_second {
            Err(BackendError::InvalidProperty)
        } else {
            Ok(!has_second)
        }
    }

    fn get_alignment(component: &ir::Component<Span>, name: &str) -> (r: Result<
        Option<String>,
        BackendError,
    >)
        ensures
            match r {
                Ok(Some(text)) => alignment(component@.properties, name@) == Ok::<
                    Option<Seq<char>>,
                    BackendFailure,
                >(Some(text@)),
                Ok(None) => alignment(component@.properties, name@) == Ok::<
                    Option<Seq<char>>,
                    BackendFailure,
                >(None),
                Err(e) => alignment(component@.properties, name@) == Err::<
                    Option<Seq<char>>,
                    BackendFailure,
                >(e@),
            },
    {
        match Self::try_get_named_property(component, name) {
            None => Ok(None),
            Some(value) => match Self::cast_to_string(value) {
                Ok(text) => Ok(Some(text)),
                Err(e) => Err(e),
            },
        }
    }

    fn append_style(style: &mut String, name: &str, value: &Option<String>)
        ensures
            final(style)@ == old(style)@ + style_part(
                name@,
                match *value {
                    Some(text) => Some(text@),
                    None => None,
                },
            ),
    {
        match value {
            Some(text) => {
                let ghost start = style@;
                style.append("; ");
                style.append(name);
                style.append(": ");
                style.append(text.as_str());
                assert(style@ =~= start + ("; "@ + name@ + ": "@ + text@));
            },
            None => {
                assert(style@ =~= style@ + Seq::<char>::empty());
            },
        }
    }

    fn box_style(component: &ir::Component<Span>) -> (r: Result<String, BackendError>)
        ensures
            emitted_text(r) == box_style_of(component@.properties),
    {
        let vertical = match Self::first_flag(component, "vertical", "horizontal") {
            Ok(vertical) => vertical,
            Err(e) => {
                return Err(e);
            },
        };
        let x_align = match Self::get_alignment(component, "x_align") {
            Ok(align) => align,
            Err(e) => {
                return Err(e);
            },
        };
        let y_align = match Self::get_alignment(component, "y_align") {
            Ok(align) => align,
            Err(e) => {
                return Err(e);
            },
        };
        match &x_align {
            Some(align) => match Self::check_align_allowed(align.as_str()) {
                Ok(_) => {},
                Err(e) => {
                    return Err(e);
                },
            },
            None => {},
        }
        match &y_align {
            Some(align) => match Self::check_align_allowed(align.as_str()) {
                Ok(_) => {},
                Err(e) => {
                    return Err(e);
                },
            },
            None => {},
        }
        let mut style = "display: flex; flex-direction: ".to_owned();
        if vertical {
            style.append("column");
            Self::append_style(&mut style, "justify-content", &y_align);
            Self::append_style(&mut style, "align-items", &x_align);
        } else {
            style.append("row");
            Self::append_style(&mut style, "justify-content", &x_align);
            Self::append_style(&mut style, "align-items", &y_align);
        }
        Ok(style)
    }

    fn cast_to_string(value: &ir::Value<Span>) -> (r: Result<String, BackendError>)
        ensures
            emitted_text(r) == as_string(value@),
    {
        match &value.kind {
            ir::ValueKind::String(string_value) => Ok(Self::build_string(string_value)),
            kind => Err(
                BackendError::TypeMismatch(
                    TypeMismatchError {
                        span: value.span,
                        expected: "string",
                        got: Self::get_value_kind_name(kind),
                    },
                ),
            ),
        }
    }

    fn cast_to_int(value: &ir::Value<Span>) -> (r: Result<i64, BackendError>)
        ensures
            match r {
                Ok(n) => as_int(value@) == Ok::<i64, BackendFailure>(n),
                Err(e) => as_int(value@) == Err::<i64, BackendFailure>(e@),
            },
    {
        match &value.kind {
            ir::ValueKind::Integer(n) => Ok(*n),
            kind => Err(
                BackendError::TypeMismatch(
                    TypeMismatchError {
                        span: value.span,
                        expected: "int",
                        got: Self::get_value_kind_name(kind),
                    },
                ),
            ),
        }
    }

    fn build_string(string: &ir::StringValue<Span>) -> (r: String)
        ensures
            r@ == interpolated(string@.segments),
    {
        Self::interpolate_string(&string.segments)
    }

    fn build_text(text: &ir::Text<Span>) -> (r: String)
        ensures
            r@ == interpolated(text@.segments),
    {
        Self::interpolate_string(&text.segments)
    }

    fn interpolate_string(segments: &Vec<ir::InterpolationSegment<Span>>) -> (r: String)
        ensures
            r@ == interpolated(views(segments@)),
    {
        let ghost all = views(segments@);
        let mut text = String::new();
        let mut k: usize = 0;
        assert(all.take(0) =~= Seq::<crate::ast::InterpolationSegmentView<Span>>::empty());
        while k < segments.len()
            invariant
                k <= segments@.len(),
                all == views(segments@),
                text@ == interpolated(all.take(k as int)),
            decreases segments@.len() - k,
        {
            assert(all.take(k as int + 1).drop_last() =~= all.take(k as int));
            assert(all.take(k as int + 1).last() == segments@[k as int]@);
            match &segments[k].kind {
                ir::InterpolationSegmentKind::Literal(content) => {
                    text.append(content.as_str());
                },
                ir::InterpolationSegmentKind::Variable(_) => {
                    assert(text@ + Seq::<char>::empty() =~= text@);
                },
            }
            k += 1;
        }
        assert(all.take(k as int) =~= all);
        text
    }

    fn get_default_or_named_property<'a>(component: &'a ir::Component<Span>, name: &str) -> (r:
        Result<&'a ir::Value<Span>, BackendError>)
        ensures
            match r {
                Ok(value) => required(component@, name@) == Ok::<
                    crate::ast::ValueView<Span>,
                    BackendFailure,
                >(value@),
                Err(e) => required(component@, name@) == Err::<
                    crate::ast::ValueView<Span>,
                    BackendFailure,
                >(e@),
            },
    {
        match Self::try_get_default_or_named_property(component, name) {
            Some(value) => Ok(value),
            None => Err(
                BackendError::RequiredDefaultPropertyMissing(
                    RequiredDefaultPropertyMissingError {
                        span: component.span,
                        name: name.to_owned(),
                    },
                ),
            ),
        }
    }

    fn try_get_default_or_named_property<'a>(component: &'a ir::Component<Span>, name: &str) -> (r:
        Option<&'a ir::Value<Span>>)
        ensures
            match r {
                Some(value) => default_or_named(component@.properties, name@) == Some(value@),
                None => default_or_named(component@.properties, name@) is None,
            },
    {
        match &component.properties.default {
            Some(value) => Some(value),
            None => Self::try_get_named_property(component, name),
        }
    }

    fn try_get_named_property<'a>(component: &'a ir::Component<Span>, name: &str) -> (r: Option<
        &'a ir::Value<Span>,
    >)
        ensures
            match r {
                Some(value) => named_value(component@.properties, name@) == Some(value@),
                None => named_value(component@.properties, name@) is None,
            },
    {
        let properties = &component.properties.named_properties;
        let ghost all = component@.properties;
        let mut k: usize = 0;
        while k < properties.len()
            invariant
                k <= properties@.len(),
                all == component@.properties,
                *properties == component.properties.named_properties,
                named_index(all, name@, 0) == named_index(all, name@, k as int),
            decreases properties@.len() - k,
        {
            if same_text(properties[k].key.as_str(), name) {
                return Some(&properties[k].value);
            }
            k += 1;
        }
        None
    }

    fn get_flag_property(component: &ir::Component<Span>, name: &str) -> (r: bool)
        ensures
            r == component@.properties.has_flag(name@),
    {
        component.properties.get_flag_property(name)
    }

    fn get_text(component: &ir::Component<Span>) -> (r: Result<String, BackendError>)
        ensures
            emitted_text(r) == text_of(component@),
    {
        match &component.text {
            Some(text) => Ok(Self::build_text(text)),
            None => Err(BackendError::TextMissing(TextMissingError { span: component.span })),
        }
    }

    fn get_value_kind_name(kind: &ir::ValueKind<Span>) -> (r: &'static str)
        ensures
            r@ == value_kind_name(kind@),
    {
        match kind {
            ir::ValueKind::String(_) => "string",
            ir::ValueKind::Integer(_) => "int",
            ir::ValueKind::Variable(_) => "variable",
            ir::ValueKind::Bool(_) => "bool",
        }
    }

    fn check_align_allowed(align: &str) -> (r: Result<(), BackendError>)
        ensures
            r is Ok == align_allowed(align@),
            r is Err ==> r == Err::<(), BackendError>(BackendError::InvalidProperty),
    {
        if same_text(align, "start") || same_text(align, "center") || same_text(align, "end") {
            Ok(())
        } else {
            Err(BackendError::InvalidProperty)
        }
    }
}

/// Once the first components of a list have given an error, more of them
/// give the same error.
proof fn lemma_emit_error_stays(
    components: Seq<ir::ComponentView<Span>>,
    upto: int,
    later: int,
    as_items: bool,
)
    requires
        0 <= upto <= later <= components.len(),
        emit_components(components, upto, as_items) is Err,
    ensures
        emit_components(components, later, as_items) == emit_components(
            components,
            upto,
            as_items,
        ),
    decreases later - upto,
{
    reveal(emit_components);
    if upto < later {
        lemma_emit_error_stays(components, upto, later - 1, as_items);
    }
}

/// Once the first items of a module have given an error, more of them give
/// the same error.
proof fn lemma_items_error_stays(items: Seq<ir::ModuleItemView<Span>>, upto: int, later: int)
    requires
        0 <= upto <= later <= items.len(),
        emit_items(items, upto) is Err,
    ensures
        emit_items(items, later) == emit_items(items, upto),
    decreases later - upto,
{
    if upto < later {
        lemma_items_error_stays(items, upto, later - 1);
    }
}

/// The HTML of the module: a `main` element with the HTML of its
/// components, or the first error on the way through them.
pub fn generate_html(ir: ir::Module<Span>) -> (r: Result<HtmlChild, BackendError>)
    ensures
        emitted(r) == emit_module(ir@),
{
    HtmlGenerator::new(ir).generate()
}

} // verus!
