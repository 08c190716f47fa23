use markerml::backend_error::BackendError;
use markerml::html::{HtmlAttribute, HtmlChild, HtmlTag};
use markerml::html_generator::{generate_html, HtmlGenerator};
use markerml::span::{Position, Span};
use markerml::{compile, generate_ir};

fn html(code: &str) -> Result<HtmlChild, BackendError> {
    generate_html(compile(code).unwrap())
}

fn children_of(node: HtmlChild) -> Vec<HtmlChild> {
    match node {
        HtmlChild::Element { children, .. } => children,
        HtmlChild::Raw(_) => panic!("an element was expected"),
    }
}

fn only_child(code: &str) -> HtmlChild {
    let mut children = children_of(html(code).unwrap());
    assert_eq!(children.len(), 1);
    children.remove(0)
}

fn attribute(name: &str, value: &str) -> HtmlAttribute {
    HtmlAttribute { name: name.to_owned(), value: value.to_owned() }
}

fn raw(text: &str) -> HtmlChild {
    HtmlChild::Raw(text.to_owned())
}

#[test]
fn module_is_a_main_element() {
    let root = html("").unwrap();
    assert_eq!(
        root,
        HtmlChild::Element { tag: HtmlTag::Main, attributes: vec![], children: vec![] }
    );
    let with_definition = html("component c { box }\n@(x)").unwrap();
    assert_eq!(children_of(with_definition), vec![raw("<span>x</span>")]);
}

#[test]
fn text_component() {
    assert_eq!(only_child("@(Hello, world!)"), raw("<span>Hello, world!</span>"));
    assert_eq!(only_child("@(a ${b} c)"), raw("<span>a  c</span>"));
    assert!(matches!(html("@"), Err(BackendError::TextMissing(_))));
}

#[test]
fn box_component() {
    assert_eq!(
        only_child("box"),
        HtmlChild::Element {
            tag: HtmlTag::Div,
            attributes: vec![attribute("style", "display: flex; flex-direction: column")],
            children: vec![],
        }
    );
    assert_eq!(
        only_child(r#"box[horizontal, x_align = "center", y_align = "end"] { @(a) @(b) }"#),
        HtmlChild::Element {
            tag: HtmlTag::Div,
            attributes: vec![attribute(
                "style",
                "display: flex; flex-direction: row; justify-content: center; align-items: end"
            )],
            children: vec![raw("<span>a</span>"), raw("<span>b</span>")],
        }
    );
    assert_eq!(
        only_child(r#"box[vertical, x_align = "start"]"#),
        HtmlChild::Element {
            tag: HtmlTag::Div,
            attributes: vec![attribute(
                "style",
                "display: flex; flex-direction: column; align-items: start"
            )],
            children: vec![],
        }
    );
    assert_eq!(html("box[vertical, horizontal]"), Err(BackendError::InvalidProperty));
    assert_eq!(html(r#"box[x_align = "left"]"#), Err(BackendError::InvalidProperty));
    assert!(matches!(html("box[x_align = 1]"), Err(BackendError::TypeMismatch(_))));
}

#[test]
fn link_component() {
    assert_eq!(
        only_child(r#"#["google.com"](google)"#),
        HtmlChild::Element {
            tag: HtmlTag::Link,
            attributes: vec![attribute("href", "google.com")],
            children: vec![raw("google")],
        }
    );
    assert_eq!(
        only_child(r#"#[url = "a.b"](x)"#),
        HtmlChild::Element {
            tag: HtmlTag::Link,
            attributes: vec![attribute("href", "a.b")],
            children: vec![raw("x")],
        }
    );
    let Err(BackendError::RequiredDefaultPropertyMissing(error)) = html("#(x)") else {
        panic!("a missing property was expected");
    };
    assert_eq!(error.name, "url");
    assert_eq!(
        error.span,
        Span {
            start: Position { line: 1, column: 1 },
            end: Position { line: 1, column: 5 }
        }
    );
    let Err(BackendError::TypeMismatch(error)) = html("#[1](x)") else {
        panic!("a type mismatch was expected");
    };
    assert_eq!(error.expected, "string");
    assert_eq!(error.got, "int");
}

#[test]
fn header_and_paragraph() {
    assert_eq!(
        only_child("header[3](Hi)"),
        HtmlChild::Element { tag: HtmlTag::Heading3, attributes: vec![], children: vec![raw("Hi")] }
    );
    assert_eq!(
        only_child("header(Hi)"),
        HtmlChild::Element { tag: HtmlTag::Heading1, attributes: vec![], children: vec![raw("Hi")] }
    );
    assert_eq!(
        only_child("header[level = 6](Hi)"),
        HtmlChild::Element { tag: HtmlTag::Heading6, attributes: vec![], children: vec![raw("Hi")] }
    );
    assert_eq!(html("header[7](Hi)"), Err(BackendError::InvalidProperty));
    assert_eq!(html("header[0](Hi)"), Err(BackendError::InvalidProperty));
    assert!(matches!(html("header[1]"), Err(BackendError::TextMissing(_))));
    let Err(BackendError::TypeMismatch(error)) = html(r#"header["1"](x)"#) else {
        panic!("a type mismatch was expected");
    };
    assert_eq!(error.expected, "int");
    assert_eq!(error.got, "string");
    assert_eq!(
        only_child("paragraph(Some text)"),
        HtmlChild::Element {
            tag: HtmlTag::ParagraphText,
            attributes: vec![],
            children: vec![raw("Some text")],
        }
    );
}

#[test]
fn image_and_list() {
    assert_eq!(
        only_child(r#"image["a.png"]"#),
        HtmlChild::Element {
            tag: HtmlTag::Image,
            attributes: vec![attribute("src", "a.png")],
            children: vec![],
        }
    );
    let item = |text: &str| HtmlChild::Element {
        tag: HtmlTag::ListElement,
        attributes: vec![],
        children: vec![raw(text)],
    };
    assert_eq!(
        only_child("list { @(a) @(b) }"),
        HtmlChild::Element {
            tag: HtmlTag::UnorderedList,
            attributes: vec![],
            children: vec![item("<span>a</span>"), item("<span>b</span>")],
        }
    );
    assert_eq!(
        only_child("list[ordered] { @(a) }"),
        HtmlChild::Element {
            tag: HtmlTag::OrderedList,
            attributes: vec![],
            children: vec![item("<span>a</span>")],
        }
    );
    assert_eq!(html("list[ordered, unordered]"), Err(BackendError::InvalidProperty));
}

#[test]
fn unknown_component_is_unimplemented() {
    assert_eq!(html("custom"), Err(BackendError::Unimplemented));
    assert_eq!(html("box { box { custom } }"), Err(BackendError::Unimplemented));
    assert_eq!(html("@(a) custom @"), Err(BackendError::Unimplemented));
}

#[test]
fn first_error_in_order_is_reported() {
    assert!(matches!(html("box { @ custom }"), Err(BackendError::TextMissing(_))));
    assert_eq!(html("box { custom @ }"), Err(BackendError::Unimplemented));
}

#[test]
fn generator_reads_the_given_module() {
    let module = generate_ir(markerml::parser::parse("paragraph(x)").unwrap()).unwrap();
    let root = HtmlGenerator::new(module).generate().unwrap();
    assert_eq!(children_of(root).len(), 1);
}
