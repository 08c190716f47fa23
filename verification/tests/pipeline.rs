use markerml::ast::{self, InterpolationSegmentKind, PropertyKind, ValueKind};
use markerml::chars::{identifier_head, identifier_tail, punctuator};
use markerml::error::IrGeneratorError;
use markerml::ir;
use markerml::lexer::{source_fits, Lexer, MAX_SOURCE_LENGTH};
use markerml::names::find_duplicate;
use markerml::parse_error::{MarkermlError, ParseError};
use markerml::parser::MarkermlParser;
use markerml::parser_error::{Expected, ParserError, ParserErrorKind};
use markerml::span::{Position, Span};
use markerml::token::{
    Identifier, IntegerLiteral, Keyword, Punctuator, StringLiteral, Text, TokenHumanDisplay,
    TokenKind, Type,
};
use markerml::validator::Validator;
use markerml::validator_error::ValidatorError;
use markerml::{compile, generate_ir};

fn lex_kinds(code: &str) -> Vec<TokenKind> {
    let (tokens, _) = Lexer::new(code).lex();
    tokens.into_iter().map(|(kind, _)| kind).collect()
}

fn span(line_a: u32, column_a: u32, line_b: u32, column_b: u32) -> Span {
    Span {
        start: Position { line: line_a, column: column_a },
        end: Position { line: line_b, column: column_b },
    }
}

fn parse_only(code: &str) -> ast::Module<Span> {
    markerml::parser::parse(code).unwrap()
}

fn parser_error(code: &str) -> ParserError {
    let errors = markerml::parser::parse(code).unwrap_err();
    assert_eq!(errors.related.len(), 1);
    errors.related[0]
}

fn string(content: &str) -> TokenKind {
    StringLiteral { content: content.to_owned(), is_closed: true }.into()
}

#[test]
fn literal_joining_across_lines() {
    let code = "\"this\n  is\n  multiline\"";
    assert_eq!(lex_kinds(code), vec![string("this is multiline")]);
}

#[test]
fn literal_joining_with_carriage_returns() {
    let code = "\"one\r\n  two\rthree\"";
    assert_eq!(lex_kinds(code), vec![string("one two three")]);
}

#[test]
fn literal_line_ending_before_terminator_adds_nothing() {
    assert_eq!(lex_kinds("\"a\n  \""), vec![string("a")]);
    assert_eq!(lex_kinds("\"a\n\n  b\""), vec![string("a b")]);
}

#[test]
fn nested_interpolation_is_balanced() {
    let code = r#""${is "cursed ${x}"}""#;
    let res: Vec<TokenKind> = vec![
        string(""),
        Punctuator::Dollar.into(),
        Punctuator::LeftCurlyBracket.into(),
        Identifier::new("is").into(),
        string("cursed "),
        Punctuator::Dollar.into(),
        Punctuator::LeftCurlyBracket.into(),
        Identifier::new("x").into(),
        Punctuator::RightCurlyBracket.into(),
        string(""),
        Punctuator::RightCurlyBracket.into(),
        string(""),
    ];
    assert_eq!(lex_kinds(code), res);
}

#[test]
fn nested_interpolation_keeps_string_and_text_apart() {
    let code = r#"(a ${x "b) ${y}"} c) d"#;
    let res: Vec<TokenKind> = vec![
        Text { content: "a ".to_owned(), is_closed: true }.into(),
        Punctuator::Dollar.into(),
        Punctuator::LeftCurlyBracket.into(),
        Identifier::new("x").into(),
        string("b) "),
        Punctuator::Dollar.into(),
        Punctuator::LeftCurlyBracket.into(),
        Identifier::new("y").into(),
        Punctuator::RightCurlyBracket.into(),
        string(""),
        Punctuator::RightCurlyBracket.into(),
        Text { content: " c".to_owned(), is_closed: true }.into(),
        Identifier::new("d").into(),
    ];
    assert_eq!(lex_kinds(code), res);
}

#[test]
fn text_after_interpolations_returns_to_default_mode() {
    let code = "(a ${x} b ${y}) box";
    let kinds = lex_kinds(code);
    assert_eq!(kinds.len(), 12);
    assert_eq!(kinds[10], Text { content: "".to_owned(), is_closed: true }.into());
    assert_eq!(kinds[11], Identifier::new("box").into());
}

#[test]
fn adjacent_interpolations() {
    let code = r#""${a}${b}""#;
    let res: Vec<TokenKind> = vec![
        string(""),
        Punctuator::Dollar.into(),
        Punctuator::LeftCurlyBracket.into(),
        Identifier::new("a").into(),
        Punctuator::RightCurlyBracket.into(),
        string(""),
        Punctuator::Dollar.into(),
        Punctuator::LeftCurlyBracket.into(),
        Identifier::new("b").into(),
        Punctuator::RightCurlyBracket.into(),
        string(""),
    ];
    assert_eq!(lex_kinds(code), res);
}

#[test]
fn literal_open_at_end_after_interpolation() {
    let code = r#""a ${x}"#;
    let (tokens, eof) = Lexer::new(code).lex();
    assert_eq!(tokens.len(), 6);
    assert_eq!(
        tokens[5],
        (StringLiteral { content: "".to_owned(), is_closed: false }.into(), eof)
    );
    assert_eq!(eof, span(1, 8, 1, 8));
}

#[test]
fn escapes_in_literals() {
    assert_eq!(lex_kinds(r#""a\$b\"c\\d\n""#), vec![string("a$b\"c\\\\d\\n")]);
    assert_eq!(
        lex_kinds(r#"(a\)b\$c\"d)"#),
        vec![Text { content: "a)b$c\\\"d".to_owned(), is_closed: true }.into()]
    );
    assert_eq!(lex_kinds(r#""\${x}""#), vec![string("${x}")]);
    assert_eq!(lex_kinds(r#""$x $""#), vec![string("$x $")]);
}

#[test]
fn integer_limits() {
    assert_eq!(
        lex_kinds("9223372036854775807 -9223372036854775808"),
        vec![IntegerLiteral(i64::MAX).into(), IntegerLiteral(i64::MIN).into()]
    );
    assert_eq!(lex_kinds("9223372036854775808"), vec![TokenKind::Invalid]);
    assert_eq!(lex_kinds("-9223372036854775809"), vec![TokenKind::Invalid]);
    assert_eq!(lex_kinds("99999999999999999999999999"), vec![TokenKind::Invalid]);
}

#[test]
fn bare_minus_is_invalid() {
    assert_eq!(lex_kinds("-"), vec![TokenKind::Invalid]);
    assert_eq!(
        lex_kinds("- 5 -a"),
        vec![
            TokenKind::Invalid,
            IntegerLiteral(5).into(),
            TokenKind::Invalid,
            Identifier::new("a").into()
        ]
    );
}

#[test]
fn lone_slash_is_invalid() {
    assert_eq!(
        lex_kinds("a / b"),
        vec![Identifier::new("a").into(), TokenKind::Invalid, Identifier::new("b").into()]
    );
}

#[test]
fn type_names_and_precedence() {
    assert_eq!(
        lex_kinds("int integer string bool slot texts true1"),
        vec![
            Type::Integer.into(),
            Type::Integer.into(),
            Type::String.into(),
            Type::Bool.into(),
            Type::Slot.into(),
            Identifier::new("texts").into(),
            Identifier::new("true1").into(),
        ]
    );
    assert_eq!(lex_kinds("text"), vec![Keyword::Text.into()]);
}

#[test]
fn unicode_identifiers() {
    assert_eq!(lex_kinds("été"), vec![Identifier::new("été").into()]);
    assert_eq!(
        lex_kinds("a△b"),
        vec![Identifier::new("a").into(), TokenKind::Invalid, Identifier::new("b").into()]
    );
    assert!(identifier_head('é'));
    assert!(identifier_head('_'));
    assert!(identifier_head('x'));
    assert!(!identifier_head('1'));
    assert!(!identifier_head('△'));
    assert!(!identifier_head('-'));
    assert!(identifier_tail('1'));
    assert!(identifier_tail('é'));
    assert!(identifier_tail('_'));
    assert!(!identifier_tail('-'));
    assert!(!identifier_tail(' '));
}

#[test]
fn punctuator_of_characters() {
    assert_eq!(punctuator('@'), Some(Punctuator::At));
    assert_eq!(punctuator('#'), Some(Punctuator::Hash));
    assert_eq!(punctuator('('), None);
}

#[test]
fn spans_across_carriage_returns() {
    let (tokens, eof) = Lexer::new("a\r\nb\rc\nd").lex();
    let spans: Vec<Span> = tokens.into_iter().map(|(_, s)| s).collect();
    assert_eq!(
        spans,
        vec![span(1, 1, 1, 2), span(2, 1, 2, 2), span(3, 1, 3, 2), span(4, 1, 4, 2)]
    );
    assert_eq!(eof, span(4, 2, 4, 2));
}

#[test]
fn eof_span_of_empty_input() {
    let (tokens, eof) = Lexer::new("").lex();
    assert!(tokens.is_empty());
    assert_eq!(eof, span(1, 1, 1, 1));
}

#[test]
fn tokens_are_in_source_order() {
    let code = "box[a = \"x ${y}\"] {\n  @(hi ${there})\n}";
    let (tokens, eof) = Lexer::new(code).lex();
    for (_, s) in &tokens {
        assert!(s.start.precedes(&s.end));
    }
    for pair in tokens.windows(2) {
        assert!(pair[0].1.end.precedes(&pair[1].1.start));
    }
    assert!(tokens[tokens.len() - 1].1.end.precedes(&eof.start));
}

#[test]
fn lexing_is_deterministic() {
    let code = "box[a = \"x ${y}\"] { @(hi) } % 12";
    assert_eq!(Lexer::new(code).lex(), Lexer::new(code).lex());
}

#[test]
fn default_mode_comment_runs_past_closing_bracket() {
    assert_eq!(lex_kinds("a // b } c\nd"), vec![
        Identifier::new("a").into(),
        Identifier::new("d").into()
    ]);
}

#[test]
fn span_union_takes_earlier_start_and_later_end() {
    let a = span(1, 5, 1, 9);
    let b = span(1, 2, 1, 7);
    assert_eq!(a.union(b), span(1, 2, 1, 9));
    assert_eq!(b.union(a), span(1, 2, 1, 9));
    let c = span(2, 1, 3, 4);
    assert_eq!(a.union(b).union(c), a.union(b.union(c)));
    assert_eq!(a.union(c), span(1, 5, 3, 4));
    let mut d = a;
    d.extend(c);
    assert_eq!(d, span(1, 5, 3, 4));
    assert_eq!(Span::new(Position::new(1, 2), Position::new(3, 4)), span(1, 2, 3, 4));
}

#[test]
fn position_order_is_line_then_column() {
    let a = Position { line: 1, column: 9 };
    let b = Position { line: 2, column: 1 };
    assert!(a.precedes(&b));
    assert!(!b.precedes(&a));
    assert!(a.precedes(&a));
    assert_eq!(a.earliest(b), a);
    assert_eq!(a.latest(b), b);
    assert!(a < b);
}

#[test]
fn human_names_of_tokens() {
    assert_eq!(TokenKind::Invalid.to_human_string(), "invalid token");
    assert_eq!(Punctuator::LeftSquareBracket.to_human_string(), "'['");
    assert_eq!(Punctuator::Hash.to_human_string(), "'#'");
    assert_eq!(Keyword::Component.to_human_string(), "'component' keyword");
    assert_eq!(Keyword::Text.to_human_string(), "'text' keyword");
    assert_eq!(Type::Slot.to_human_string(), "type");
    assert_eq!(TokenKind::from(Identifier::new("a")).to_human_string(), "identifier");
    assert_eq!(TokenKind::from(IntegerLiteral(1)).to_human_string(), "integer");
    assert_eq!(string("x").to_human_string(), "\"string literal\"");
    assert_eq!(
        TokenKind::from(Text { content: "x".to_owned(), is_closed: true }).to_human_string(),
        "(text)"
    );
}

#[test]
fn spans_of_tree_are_unions_of_token_spans() {
    let module = parse_only("box[a = 1] {\n  @(hi)\n}");
    assert_eq!(module.span, span(1, 1, 3, 2));
    let ast::ModuleItem::Component(component) = &module.items[0] else {
        panic!("a component was expected");
    };
    assert_eq!(component.span, span(1, 1, 3, 2));
    assert_eq!(component.name.span, span(1, 1, 1, 4));
    let properties = component.properties.as_ref().unwrap();
    assert_eq!(properties.span, span(1, 4, 1, 11));
    assert_eq!(properties.properties[0].span, span(1, 5, 1, 10));
    let children = component.children.as_ref().unwrap();
    assert_eq!(children.span, span(1, 12, 3, 2));
    assert_eq!(children.children[0].span, span(2, 3, 2, 8));
    assert_eq!(children.children[0].text.as_ref().unwrap().span, span(2, 4, 2, 8));
}

#[test]
fn span_of_empty_module_is_the_end() {
    let module = parse_only("  // nothing\n");
    assert!(module.items.is_empty());
    assert_eq!(module.span, span(2, 1, 2, 1));
}

#[test]
fn folding_without_interpolation_gives_one_segment() {
    let module = parse_only(r#"box[a = "", b = "x"](  )"#);
    let ast::ModuleItem::Component(component) = &module.items[0] else {
        panic!("a component was expected");
    };
    let properties = &component.properties.as_ref().unwrap().properties;
    let PropertyKind::KeyValue { value, .. } = &properties[0].kind else {
        panic!("a value was expected");
    };
    let ValueKind::String(empty) = &value.kind else {
        panic!("a string was expected");
    };
    assert_eq!(empty.segments.len(), 1);
    assert_eq!(empty.segments[0].kind, InterpolationSegmentKind::Literal("".to_owned()));
    let text = component.text.as_ref().unwrap();
    assert_eq!(text.segments.len(), 1);
    assert_eq!(text.segments[0].kind, InterpolationSegmentKind::Literal("  ".to_owned()));
}

#[test]
fn folding_with_interpolations_drops_empty_literals() {
    let module = parse_only(r#"box[a = "${x}${y} and ${z}"]"#);
    let ast::ModuleItem::Component(component) = &module.items[0] else {
        panic!("a component was expected");
    };
    let properties = &component.properties.as_ref().unwrap().properties;
    let PropertyKind::KeyValue { value, .. } = &properties[0].kind else {
        panic!("a value was expected");
    };
    let ValueKind::String(string) = &value.kind else {
        panic!("a string was expected");
    };
    let kinds: Vec<String> = string
        .segments
        .iter()
        .map(|segment| match &segment.kind {
            InterpolationSegmentKind::Literal(content) => format!("lit:{content}"),
            InterpolationSegmentKind::Variable(name) => format!("var:{}", name.as_str()),
        })
        .collect();
    assert_eq!(kinds, vec!["var:x", "var:y", "lit: and ", "var:z"]);
}

#[test]
fn default_value_and_properties() {
    let module = parse_only(r#"header[1, bold, size = 2,]"#);
    let ast::ModuleItem::Component(component) = &module.items[0] else {
        panic!("a component was expected");
    };
    let properties = component.properties.as_ref().unwrap();
    assert_eq!(properties.default.as_ref().unwrap().kind, ValueKind::Integer(1));
    assert_eq!(properties.properties.len(), 2);
    let empty = parse_only("box[,]");
    let ast::ModuleItem::Component(component) = &empty.items[0] else {
        panic!("a component was expected");
    };
    let properties = component.properties.as_ref().unwrap();
    assert!(properties.default.is_none());
    assert!(properties.properties.is_empty());
}

#[test]
fn identifier_first_is_a_flag_not_a_default_value() {
    let module = parse_only("box[x, y = z]");
    let ast::ModuleItem::Component(component) = &module.items[0] else {
        panic!("a component was expected");
    };
    let properties = component.properties.as_ref().unwrap();
    assert!(properties.default.is_none());
    assert!(matches!(&properties.properties[0].kind, PropertyKind::Flag { key } if key.as_str() == "x"));
    assert!(matches!(
        &properties.properties[1].kind,
        PropertyKind::KeyValue { key, value }
            if key.as_str() == "y" && matches!(&value.kind, ValueKind::Variable(v) if v.as_str() == "z")
    ));
}

#[test]
fn text_and_children_in_either_order_are_parsed() {
    for code in ["paragraph(x) { box }", "paragraph { box } (x)"] {
        let module = parse_only(code);
        let ast::ModuleItem::Component(component) = &module.items[0] else {
            panic!("a component was expected");
        };
        assert!(component.text.is_some());
        assert_eq!(component.children.as_ref().unwrap().children.len(), 1);
    }
}

#[test]
fn parser_error_kinds() {
    let invalid = parser_error("box ^ { }");
    assert_eq!(invalid.kind, ParserErrorKind::InvalidToken);
    assert_eq!(invalid.expected, Expected::Item);
    assert_eq!(invalid.span, span(1, 5, 1, 6));
    assert_eq!(invalid.label(), "Invalid token");

    let unclosed = parser_error("image[url = \"abc]");
    assert_eq!(unclosed.kind, ParserErrorKind::UnclosedLiteral);
    assert_eq!(unclosed.expected, Expected::ClosingQuote);
    assert_eq!(unclosed.span, span(1, 13, 1, 18));

    let unclosed_text = parser_error("paragraph(abc");
    assert_eq!(unclosed_text.kind, ParserErrorKind::UnclosedLiteral);
    assert_eq!(unclosed_text.expected, Expected::ClosingParenthesis);

    let end = parser_error("box {");
    assert_eq!(end.kind, ParserErrorKind::UnexpectedEnd);
    assert_eq!(end.expected, Expected::ComponentOrClosingBracket);
    assert_eq!(end.span, span(1, 6, 1, 6));

    let token = parser_error("box[a b]");
    assert_eq!(token.kind, ParserErrorKind::UnexpectedToken);
    assert_eq!(token.expected, Expected::CommaOrClosingBracket);
    assert_eq!(token.span, span(1, 7, 1, 8));

    let value = parser_error("box[a = ]");
    assert_eq!(value.expected, Expected::Value);
    let content = parser_error("box[}]");
    assert_eq!(content.expected, Expected::PropertiesContent);
    let after_comma = parser_error("box[a, 1]");
    assert_eq!(after_comma.expected, Expected::PropertyOrClosingBracket);
    let name = parser_error("component 1");
    assert_eq!(name.expected, Expected::Identifier);
    let ty = parser_error("component c[a: b]");
    assert_eq!(ty.expected, Expected::Type);
    let colon = parser_error("component c[a b]");
    assert_eq!(colon.expected, Expected::Punctuator(Punctuator::Colon));
    let declaration = parser_error("component c[1]");
    assert_eq!(declaration.expected, Expected::PropertyDefinition);
    let trailing = parser_error("component c[a: int,]");
    assert_eq!(trailing.expected, Expected::PropertyDefinition);
    let brace = parser_error(r#"box[a = "${x y}"]"#);
    assert_eq!(brace.expected, Expected::Punctuator(Punctuator::RightCurlyBracket));
    let nested = parser_error(r#"box[a = "${is "cursed ${x}"}"]"#);
    assert_eq!(nested.expected, Expected::Punctuator(Punctuator::RightCurlyBracket));
    assert_eq!(nested.kind, ParserErrorKind::UnexpectedToken);
    let interpolation = parser_error(r#"box[a = "x ${y}"#);
    assert_eq!(interpolation.kind, ParserErrorKind::UnclosedLiteral);
}

#[test]
fn parser_reads_given_tokens() {
    let tokens: Vec<(TokenKind, Span)> = vec![
        (Punctuator::At.into(), span(1, 1, 1, 2)),
        (Text { content: "hi".to_owned(), is_closed: true }.into(), span(1, 2, 1, 6)),
    ];
    let module = MarkermlParser::new(tokens, span(1, 6, 1, 6)).parse().unwrap();
    assert_eq!(module.span, span(1, 1, 1, 6));
    let ast::ModuleItem::Component(component) = &module.items[0] else {
        panic!("a component was expected");
    };
    assert_eq!(component.name.as_str(), "@");
    let no_tokens = MarkermlParser::new(Vec::new(), span(7, 7, 7, 7)).parse().unwrap();
    assert_eq!(no_tokens.span, span(7, 7, 7, 7));
}

#[test]
fn map_span_replaces_every_span() {
    let module = parse_only("box[a = 1] { @(hi) }");
    let lines = module.clone().map_span(&|s: Span| s.start.line);
    assert_eq!(lines.span, 1);
    let ast::ModuleItem::Component(component) = &lines.items[0] else {
        panic!("a component was expected");
    };
    assert_eq!(component.children.as_ref().unwrap().children[0].span, 1);
    let columns = module.map_span(&|s: Span| (s.start.column, s.end.column));
    let ast::ModuleItem::Component(component) = &columns.items[0] else {
        panic!("a component was expected");
    };
    assert_eq!(component.properties.as_ref().unwrap().span, (4, 11));
    assert_eq!(component.children.as_ref().unwrap().children[0].name.span, (14, 15));
}

fn validation_error(code: &str) -> ValidatorError {
    let module = parse_only(code);
    Validator::new(&module).validate().unwrap_err()
}

#[test]
fn mutual_exclusion_of_text_and_children() {
    for code in ["paragraph(x) { box }", "paragraph { box } (x)"] {
        let ValidatorError::TextComponentWithChildren(error) = validation_error(code) else {
            panic!("a text with children was expected");
        };
        assert_eq!(error.component_name, span(1, 1, 1, 10));
        let Err(ParseError::ValidatorError(ValidatorError::TextComponentWithChildren(same))) =
            markerml::parse(code)
        else {
            panic!("a text with children was expected");
        };
        assert_eq!(same, error);
    }
    let ValidatorError::TextComponentWithChildren(error) = validation_error("paragraph(x) { box }")
    else {
        panic!("a text with children was expected");
    };
    assert_eq!(error.text, span(1, 10, 1, 13));
    assert_eq!(error.children, span(1, 14, 1, 21));
}

#[test]
fn validator_walks_into_children() {
    let error = validation_error("box { box { paragraph(x) { box } } }");
    assert!(matches!(error, ValidatorError::TextComponentWithChildren(_)));
    let in_definition = validation_error("component c { box[a, a] }");
    assert!(matches!(in_definition, ValidatorError::DuplicatedPropertyName(_)));
}

#[test]
fn validator_reports_the_first_violation() {
    let error = validation_error("box[a, a]\nparagraph(x) { box }");
    assert!(matches!(error, ValidatorError::DuplicatedPropertyName(_)));
    let error = validation_error("paragraph(x) { box }\nbox[a, a]");
    assert!(matches!(error, ValidatorError::TextComponentWithChildren(_)));
    let error = validation_error("box[a, a](x) { }");
    assert!(matches!(error, ValidatorError::TextComponentWithChildren(_)));
}

#[test]
fn validator_duplicated_property_name() {
    let ValidatorError::DuplicatedPropertyName(error) = validation_error("box[a, b = 1, c, b]")
    else {
        panic!("a duplicated name was expected");
    };
    assert_eq!(error.name, "b");
    assert_eq!(error.component_name, span(1, 1, 1, 4));
    assert_eq!(error.first, span(1, 8, 1, 9));
    assert_eq!(error.second, span(1, 18, 1, 19));
}

#[test]
fn validator_rules_of_declarations() {
    let ValidatorError::MultipleTextProps(error) =
        validation_error("component c[text a, x: int, text b]")
    else {
        panic!("two texts were expected");
    };
    assert_eq!(error.component_name, span(1, 11, 1, 12));
    assert_eq!(error.first, span(1, 13, 1, 19));
    assert_eq!(error.second, span(1, 29, 1, 35));
    assert!(matches!(
        validation_error("component c[default a: int, default b: int]"),
        ValidatorError::MultipleDefaultProps(_)
    ));
    assert!(matches!(
        validation_error("component c[a: slot, b: slot]"),
        ValidatorError::MultipleSlotProps(_)
    ));
    assert!(matches!(
        validation_error("component c[a: slot[], b: slot[]]"),
        ValidatorError::MultipleSlotListProps(_)
    ));
    let ValidatorError::SlotAndSlotListProps(error) =
        validation_error("component c[a: slot[], b: slot]")
    else {
        panic!("a slot and a slot list were expected");
    };
    assert_eq!(error.slot, span(1, 24, 1, 31));
    assert_eq!(error.slot_list, span(1, 13, 1, 22));
    let ValidatorError::DuplicatedPropertyName(error) =
        validation_error("component c[text a, default a: int]")
    else {
        panic!("a duplicated name was expected");
    };
    assert_eq!(error.name, "a");
    assert_eq!(error.first, span(1, 18, 1, 19));
    assert_eq!(error.second, span(1, 29, 1, 30));
    assert_eq!(
        validation_error("component c[a: slot, b: slot]").message(),
        "component can have only single 'slot' property"
    );
}

#[test]
fn validator_accepts_valid_modules() {
    let module = parse_only(
        "component c[default a: int, text b, c: slot, d: string = \"x\"] { box }\nbox[a, b = 1] { @(x) }",
    );
    assert_eq!(Validator::new(&module).validate(), Ok(()));
}

fn lowering_error(code: &str) -> IrGeneratorError {
    generate_ir(parse_only(code)).unwrap_err()
}

#[test]
fn duplicate_detection_names_first_and_second() {
    let IrGeneratorError::DuplicatedProperty(error) = lowering_error("box[a, a]") else {
        panic!("a duplicated property was expected");
    };
    assert_eq!(error.name, "a");
    assert_eq!(error.first, span(1, 5, 1, 6));
    assert_eq!(error.second, span(1, 8, 1, 9));
}

#[test]
fn duplicate_detection_of_flag_against_named() {
    let IrGeneratorError::DuplicatedProperty(error) = lowering_error(r#"box[a="x", a]"#) else {
        panic!("a duplicated property was expected");
    };
    assert_eq!(error.name, "a");
    assert_eq!(error.first, span(1, 5, 1, 6));
    assert_eq!(error.second, span(1, 12, 1, 13));
    let IrGeneratorError::DuplicatedProperty(error) = lowering_error(r#"box[a, b, a="x"]"#)
    else {
        panic!("a duplicated property was expected");
    };
    assert_eq!(error.first, span(1, 5, 1, 6));
    assert_eq!(error.second, span(1, 11, 1, 12));
    let IrGeneratorError::DuplicatedProperty(error) = lowering_error(r#"box[a=1, b=2, b=3, a=4]"#)
    else {
        panic!("a duplicated property was expected");
    };
    assert_eq!(error.name, "b");
}

#[test]
fn self_reference_is_rejected() {
    let IrGeneratorError::CircularDefinition(error) = lowering_error("component custom { custom }")
    else {
        panic!("a circular definition was expected");
    };
    assert_eq!(error.component_name, span(1, 11, 1, 17));
    assert_eq!(error.circular, span(1, 20, 1, 26));
    assert!(generate_ir(parse_only("component custom { box { custom } }")).is_ok());
    assert!(generate_ir(parse_only("component custom { box other }")).is_ok());
}

#[test]
fn lowering_rules_of_declarations() {
    let IrGeneratorError::DefaultPropertyWithValue(error) =
        lowering_error("component c[default a: int = 1]")
    else {
        panic!("a default value was expected");
    };
    assert_eq!(error.component_name, span(1, 11, 1, 12));
    assert_eq!(error.property, span(1, 13, 1, 31));
    assert_eq!(error.default_value, span(1, 30, 1, 31));
    let IrGeneratorError::MultipleTextProperties(error) =
        lowering_error("component c[text a, text b]")
    else {
        panic!("two texts were expected");
    };
    assert_eq!(error.first, span(1, 13, 1, 19));
    assert_eq!(error.second, span(1, 21, 1, 27));
    assert!(matches!(
        lowering_error("component c[default a: int, default b: int]"),
        IrGeneratorError::MultipleDefaultProperties(_)
    ));
    let IrGeneratorError::DuplicatedProperty(error) =
        lowering_error("component c[a: int, text a]")
    else {
        panic!("a duplicated property was expected");
    };
    assert_eq!(error.name, "a");
    assert_eq!(error.first, span(1, 13, 1, 19));
    assert_eq!(error.second, span(1, 21, 1, 27));
    assert!(matches!(
        lowering_error("paragraph(x) { box }"),
        IrGeneratorError::TextComponentWithChildren(_)
    ));
    assert!(matches!(
        lowering_error("box[a, a](x) { }"),
        IrGeneratorError::DuplicatedProperty(_)
    ));
    assert_eq!(
        lowering_error("component c { c }").message(),
        "Component definition contains reference to itself"
    );
}

#[test]
fn lowering_of_declarations() {
    let module =
        generate_ir(parse_only("component c[x: int = 2, default a: string, text t, y: slot[]]"))
            .unwrap();
    let ir::ModuleItem::ComponentDefinition(definition) = &module.items[0] else {
        panic!("a definition was expected");
    };
    assert_eq!(definition.name.as_str(), "c");
    assert!(definition.children.is_empty());
    let properties = &definition.properties;
    assert_eq!(properties.text_property.as_ref().unwrap().as_str(), "t");
    let default = properties.default_property.as_ref().unwrap();
    assert_eq!(default.name.as_str(), "a");
    assert_eq!(default.ty.kind, ir::TypeKind::String);
    assert!(default.default_value.is_none());
    let names: Vec<&str> = properties.properties.iter().map(|p| p.name.as_str()).collect();
    assert_eq!(names, vec!["x", "y"]);
    assert_eq!(
        properties.properties[0].default_value.as_ref().unwrap().kind,
        ir::ValueKind::Integer(2)
    );
    assert_eq!(properties.properties[1].ty.kind, ir::TypeKind::SlotList);
    let bare = generate_ir(parse_only("component c")).unwrap();
    let ir::ModuleItem::ComponentDefinition(definition) = &bare.items[0] else {
        panic!("a definition was expected");
    };
    assert_eq!(definition.properties.span, span(1, 11, 1, 12));
    assert!(definition.properties.properties.is_empty());
}

#[test]
fn end_to_end_example() {
    let code = r#"box[x_align="center"] { header[1](Hi) @(there) }"#;
    let module = compile(code).unwrap();
    assert_eq!(module.items.len(), 1);
    let ir::ModuleItem::Component(component) = &module.items[0] else {
        panic!("a component was expected");
    };
    assert_eq!(component.name.as_str(), "box");
    assert!(component.text.is_none());
    assert!(component.properties.default.is_none());
    assert!(component.properties.flag_properties.is_empty());
    assert_eq!(component.properties.named_properties.len(), 1);
    let property = &component.properties.named_properties[0];
    assert_eq!(property.key.as_str(), "x_align");
    assert_eq!(
        property.value.kind.clone(),
        ir::ValueKind::String(ir::StringValue {
            span: span(1, 13, 1, 21),
            segments: vec![ir::InterpolationSegment {
                span: span(1, 13, 1, 21),
                kind: ir::InterpolationSegmentKind::Literal("center".to_owned()),
            }],
        })
    );
    assert_eq!(component.children.len(), 2);
    let header = &component.children[0];
    assert_eq!(header.name.as_str(), "header");
    assert_eq!(header.properties.default.as_ref().unwrap().kind, ir::ValueKind::Integer(1));
    assert!(header.properties.named_properties.is_empty());
    assert!(header.children.is_empty());
    let text = header.text.as_ref().unwrap();
    assert_eq!(text.segments.len(), 1);
    assert_eq!(text.segments[0].kind, ir::InterpolationSegmentKind::Literal("Hi".to_owned()));
    let at = &component.children[1];
    assert_eq!(at.name.as_str(), "@");
    assert!(at.properties.default.is_none());
    assert!(at.children.is_empty());
    let text = at.text.as_ref().unwrap();
    assert_eq!(text.segments.len(), 1);
    assert_eq!(text.segments[0].kind, ir::InterpolationSegmentKind::Literal("there".to_owned()));
}

#[test]
fn pipeline_reports_the_stage_that_failed() {
    assert!(matches!(
        compile("box ^"),
        Err(MarkermlError::Parser(ParseError::ParserError(_)))
    ));
    assert!(matches!(
        compile("box[a, a]"),
        Err(MarkermlError::Parser(ParseError::ValidatorError(
            ValidatorError::DuplicatedPropertyName(_)
        )))
    ));
    assert!(matches!(
        compile("component c { c }"),
        Err(MarkermlError::IrGenerator(IrGeneratorError::CircularDefinition(_)))
    ));
    assert!(matches!(
        compile("component c[default a: int = 1]"),
        Err(MarkermlError::IrGenerator(IrGeneratorError::DefaultPropertyWithValue(_)))
    ));
    assert!(compile("").unwrap().items.is_empty());
}

#[test]
fn lowered_properties_are_split_and_queryable() {
    let module = generate_ir(parse_only(r#"box["d", a, b = 1, c, e = "x"]"#)).unwrap();
    let ir::ModuleItem::Component(component) = &module.items[0] else {
        panic!("a component was expected");
    };
    let properties = &component.properties;
    let flags: Vec<&str> = properties.flag_properties.iter().map(|f| f.as_str()).collect();
    assert_eq!(flags, vec!["a", "c"]);
    let keys: Vec<&str> = properties.named_properties.iter().map(|p| p.key.as_str()).collect();
    assert_eq!(keys, vec!["b", "e"]);
    assert!(properties.get_flag_property("a"));
    assert!(properties.get_flag_property("c"));
    assert!(!properties.get_flag_property("b"));
    assert!(!properties.get_flag_property("z"));
    assert_eq!(properties.try_get_named_property("b").unwrap().kind, ir::ValueKind::Integer(1));
    assert!(properties.try_get_named_property("a").is_none());
    assert!(properties.default.is_some());
    let empty: ir::Properties<Span> = ir::Properties::empty();
    assert!(!empty.get_flag_property("a"));
    assert!(empty.try_get_named_property("a").is_none());
}

#[test]
fn same_text_compares_characters() {
    assert!(ir::same_text("abc", "abc"));
    assert!(!ir::same_text("abc", "abd"));
    assert!(!ir::same_text("abc", "ab"));
    assert!(ir::same_text("", ""));
}

#[test]
fn first_duplicate_is_found_by_its_second_occurrence() {
    let names = |list: &[&str]| -> Vec<String> { list.iter().map(|s| s.to_string()).collect() };
    assert_eq!(find_duplicate(&names(&["a", "b", "c"])), None);
    assert_eq!(find_duplicate(&names(&["a", "b", "a", "b"])), Some((0, 2)));
    assert_eq!(find_duplicate(&names(&["a", "b", "b", "a"])), Some((1, 2)));
    assert_eq!(find_duplicate(&names(&["a", "a", "a"])), Some((0, 1)));
    assert_eq!(find_duplicate(&names(&[])), None);
}

#[test]
fn literal_segment_must_follow_interpolation() {
    let at = span(1, 1, 1, 2);
    let tokens: Vec<(TokenKind, Span)> = vec![
        (Identifier::new("box").into(), at),
        (Punctuator::LeftSquareBracket.into(), at),
        (Identifier::new("key").into(), at),
        (Punctuator::Equals.into(), at),
        (string("x"), at),
        (Punctuator::Dollar.into(), at),
        (Punctuator::LeftCurlyBracket.into(), at),
        (Identifier::new("v").into(), at),
        (Punctuator::RightCurlyBracket.into(), at),
        (Punctuator::RightSquareBracket.into(), span(1, 9, 1, 10)),
    ];
    let errors = MarkermlParser::new(tokens, span(2, 1, 2, 1)).parse().unwrap_err();
    assert_eq!(
        errors.related,
        vec![ParserError {
            kind: ParserErrorKind::UnexpectedToken,
            expected: Expected::StringSegment,
            span: span(1, 9, 1, 10),
        }]
    );
    let tokens: Vec<(TokenKind, Span)> = vec![
        (Punctuator::At.into(), at),
        (Text { content: "x".to_owned(), is_closed: true }.into(), at),
        (Punctuator::Dollar.into(), at),
        (Punctuator::LeftCurlyBracket.into(), at),
        (Identifier::new("v").into(), at),
        (Punctuator::RightCurlyBracket.into(), at),
    ];
    let errors = MarkermlParser::new(tokens, span(2, 1, 2, 1)).parse().unwrap_err();
    assert_eq!(
        errors.related,
        vec![ParserError {
            kind: ParserErrorKind::UnexpectedEnd,
            expected: Expected::TextSegment,
            span: span(2, 1, 2, 1),
        }]
    );
}

#[test]
fn adjacent_literals_are_not_one_value() {
    let error = parser_error(r#"box[a = "x" "y"]"#);
    assert_eq!(error.expected, Expected::CommaOrClosingBracket);
    assert_eq!(error.kind, ParserErrorKind::UnexpectedToken);
    let error = parser_error("@(a)(b)");
    assert_eq!(error.expected, Expected::Item);
}

#[test]
fn slot_list_needs_both_brackets() {
    let module = parse_only("component c[a: slot[], b: slot]");
    let ast::ModuleItem::ComponentDefinition(definition) = &module.items[0] else {
        panic!("a definition was expected");
    };
    let kinds: Vec<ast::TypeKind> = definition
        .properties
        .as_ref()
        .unwrap()
        .properties
        .iter()
        .map(|declaration| match &declaration.kind {
            ast::PropertyDefinitionKind::Named(named) => named.ty.kind,
            _ => panic!("a named property was expected"),
        })
        .collect();
    assert_eq!(kinds, vec![ast::TypeKind::SlotList, ast::TypeKind::Slot]);
    let error = parser_error("component c[a: slot[ ]");
    assert_eq!(error.kind, ParserErrorKind::UnexpectedEnd);
    let error = parser_error("component c[a: slot[x]");
    assert_eq!(error.expected, Expected::CommaOrClosingBracket);
}

#[test]
fn source_length_limit() {
    assert!(source_fits(""));
    assert!(source_fits("box { @(été) }"));
    assert_eq!(MAX_SOURCE_LENGTH, u32::MAX as usize - 1);
}
