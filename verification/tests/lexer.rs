use markerml::lexer::Lexer;
use markerml::span::{Position, Span};
use markerml::token::{
    BooleanLiteral, Identifier, IntegerLiteral, Keyword, Punctuator, StringLiteral, Text,
    TokenKind, Type,
};

fn lex_with_spans(code: &str) -> Vec<(TokenKind, Span)> {
    let (tokens, _) = Lexer::new(&code).lex();

    tokens
}

fn lex(code: &str) -> Vec<TokenKind> {
    lex_with_spans(code)
        .into_iter()
        .map(|(token, _)| token)
        .collect()
}

fn to_tokens<T: Into<TokenKind>>(items: Vec<T>) -> Vec<TokenKind> {
    items.into_iter().map(Into::into).collect()
}

#[test]
fn empty() {
    let code = "";
    let res = vec![] ;

    assert_eq!(lex(code), res);
}

#[test]
fn keywords() {
    let code = "component default text";
    let res = vec![Keyword::Component, Keyword::Default, Keyword::Text];

    assert_eq!(lex(code), to_tokens(res));
}

#[test]
fn mod_types() {
    let code = "string integer bool slot";
    let res = vec![Type::String, Type::Integer, Type::Bool, Type::Slot];

    assert_eq!(lex(code), to_tokens(res));
}

#[test]
fn punctuators() {
    let code = "[]{},:=$@#";
    let res = vec![
        Punctuator::LeftSquareBracket,
        Punctuator::RightSquareBracket,
        Punctuator::LeftCurlyBracket,
        Punctuator::RightCurlyBracket,
        Punctuator::Comma,
        Punctuator::Colon,
        Punctuator::Equals,
        Punctuator::Dollar,
        Punctuator::At,
        Punctuator::Hash
    ];

    assert_eq!(lex(code), to_tokens(res));
}

#[test]
fn boolean_literals() {
    let code = "true false";
    let res = vec![BooleanLiteral(true), BooleanLiteral(false)];

    assert_eq!(lex(code), to_tokens(res));
}

#[test]
fn integer_literal_zero() {
    let code = "0";
    let res = vec![IntegerLiteral(0)];

    assert_eq!(lex(code), to_tokens(res));
}

#[test]
fn integer_literal_negative_zero() {
    let code = "-0";
    let res = vec![IntegerLiteral(0)];

    assert_eq!(lex(code), to_tokens(res));
}

#[test]
fn integer_literal_positive() {
    let code = "123 42 90021 967";
    let res = vec![IntegerLiteral(123), IntegerLiteral(42), IntegerLiteral(90021), IntegerLiteral(967)];

    assert_eq!(lex(code), to_tokens(res));
}

#[test]
fn integer_literal_negative() {
    let code = "-123 -42 -666";
    let res = vec![IntegerLiteral(-123), IntegerLiteral(-42), IntegerLiteral(-666)];

    assert_eq!(lex(code), to_tokens(res));
}

#[test]
fn integer_literal_leading_zeros() {
    let code = "000014";
    let res = vec![IntegerLiteral(14)];

    assert_eq!(lex(code), to_tokens(res));
}

#[test]
fn two_integer_literals() {
    let code = "42-666";
    let res = vec![IntegerLiteral(42), IntegerLiteral(-666)];

    assert_eq!(lex(code), to_tokens(res));
}

#[test]
fn mod_identifier() {
    let code = "something";
    let res = vec![Identifier::new("something")];

    assert_eq!(lex(code), to_tokens(res));
}

#[test]
fn identifier_with_underscore() {
    let code = "some_component other___component component_";
    let res = vec![
        Identifier::new("some_component"),
        Identifier::new("other___component"),
        Identifier::new("component_"),
    ];

    assert_eq!(lex(code), to_tokens(res));
}

#[test]
fn identifier_leading_underscore() {
    let code = "_component_name";
    let res = vec![Identifier::new("_component_name")];

    assert_eq!(lex(code), to_tokens(res));
}

#[test]
fn identifier_with_digits() {
    let code = "component1424 other42component 53box";
    let res = vec![
        Identifier::new("component1424").into(),
        Identifier::new("other42component").into(),
        IntegerLiteral(53).into(),
        Identifier::new("box").into()
    ];

    assert_eq!(lex(code), res);
}

#[test]
fn mod_invalid_token() {
    let code = "component_name % ^ wow *default";
    let res = vec![
        Identifier::new("component_name").into(),
        TokenKind::Invalid,
        TokenKind::Invalid,
        Identifier::new("wow").into(),
        TokenKind::Invalid,
        Keyword::Default.into()
    ];

    assert_eq!(lex(code), res);
}

#[test]
fn string_literal() {
    let code = r#""text in quotes" " other string  ""#;
    let res = vec![
        StringLiteral {
            content: "text in quotes".to_owned(),
            is_closed: true,
        },
        StringLiteral {
            content: " other string  ".to_owned(),
            is_closed: true
        }
    ];

    assert_eq!(lex(code), to_tokens(res));
}

#[test]
fn string_literal_interpolated() {
    let code = r#""User age is: ${user_age}""#;
    let res = vec![
        StringLiteral {
            content:  "User age is: ".to_owned(),
            is_closed: true,
        }.into(),
        Punctuator::Dollar.into(),
        Punctuator::LeftCurlyBracket.into(),
        Identifier::new("user_age").into(),
        Punctuator::RightCurlyBracket.into(),
        StringLiteral {
            content: "".to_owned(),
            is_closed: true
        }.into()
    ];

    assert_eq!(lex(code), res);
}

#[test]
fn string_literal_not_closed() {
    let code = r#""this string literal is not closed..."#;
    let res = vec![
        StringLiteral {
            content: "this string literal is not closed...".to_owned(),
            is_closed: false
        }
    ];

    assert_eq!(lex(code), to_tokens(res));
}

#[test]
fn string_literal_interpolated_multiple() {
    let code = r#""User age is: ${user_age} and their height is ${user_height}""#;
    let res = vec![
        StringLiteral {
            content:  "User age is: ".to_owned(),
            is_closed: true,
        }.into(),
        Punctuator::Dollar.into(),
        Punctuator::LeftCurlyBracket.into(),
        Identifier::new("user_age").into(),
        Punctuator::RightCurlyBracket.into(),
        StringLiteral {
            content: " and their height is ".to_owned(),
            is_closed: true
        }.into(),
        Punctuator::Dollar.into(),
        Punctuator::LeftCurlyBracket.into(),
        Identifier::new("user_height").into(),
        Punctuator::RightCurlyBracket.into(),
        StringLiteral {
            content: "".to_owned(),
            is_closed: true
        }.into(),
    ];

    assert_eq!(lex(code), res);
}

#[test]
fn string_literal_interpolation_not_closed() {
    let code = r#""User age is: ${user_age wait""#;
    let res = vec![
        StringLiteral {
            content:  "User age is: ".to_owned(),
            is_closed: true,
        }.into(),
        Punctuator::Dollar.into(),
        Punctuator::LeftCurlyBracket.into(),
        Identifier::new("user_age").into(),
        Identifier::new("wait").into(),
        StringLiteral {
            content: "".to_owned(),
            is_closed: false
        }.into(),
    ];

    assert_eq!(lex(code), res);
}

#[test]
fn string_literal_interpolation_nested() {
    let code = r#""This ${is "some ${cursed_stuff}"}""#;
    let res = vec![
        StringLiteral {
            content:  "This ".to_owned(),
            is_closed: true,
        }.into(),
        Punctuator::Dollar.into(),
        Punctuator::LeftCurlyBracket.into(),
        Identifier::new("is").into(),
        StringLiteral {
            content: "some ".to_owned(),
            is_closed: true
        }.into(),
        Punctuator::Dollar.into(),
        Punctuator::LeftCurlyBracket.into(),
        Identifier::new("cursed_stuff").into(),
        Punctuator::RightCurlyBracket.into(),
        StringLiteral {
            content: "".to_owned(),
            is_closed: true
        }.into(),
        Punctuator::RightCurlyBracket.into(),
        StringLiteral {
            content: "".to_owned(),
            is_closed: true
        }.into(),
    ];

    assert_eq!(lex(code), res);
}

#[test]
fn string_literal_multiline() {
    let code = r#""this
            is
            multiline
            string
            literal
        ""#;
    let res = vec![
        StringLiteral {
            content: "this is multiline string literal".to_owned(),
            is_closed: true
        }
    ];

    assert_eq!(lex(code), to_tokens(res));
}

#[test]
fn string_interpolation_multiline() {
    let code = r#""this
            is ${


            a
            }

            multiline
            ${
            interpolation}
        ""#;
    let res = vec![
        StringLiteral {
            content: "this is ".to_owned(),
            is_closed: true
        }.into(),
        Punctuator::Dollar.into(),
        Punctuator::LeftCurlyBracket.into(),
        Identifier::new("a").into(),
        Punctuator::RightCurlyBracket.into(),
        StringLiteral {
            content: " multiline ".to_owned(),
            is_closed: true
        }.into(),
        Punctuator::Dollar.into(),
        Punctuator::LeftCurlyBracket.into(),
        Identifier::new("interpolation").into(),
        Punctuator::RightCurlyBracket.into(),
        StringLiteral {
            content: "".to_owned(),
            is_closed: true
        }.into()
    ];

    assert_eq!(lex(code), res);
}


#[test]
fn code_spans_simple() {
    let code = "123456789 hello  component";
    let res = vec![
        (IntegerLiteral(123456789).into(), Span {
            start: Position { line: 1, column: 1 },
            end: Position { line: 1, column: 10 }
        }),
        (Identifier::new("hello").into(), Span {
            start: Position { line: 1, column: 11 },
            end: Position { line: 1, column: 16 }
        }),
        (Keyword::Component.into(), Span {
            start: Position { line: 1, column: 18 },
            end: Position { line: 1, column: 27 }
        })
    ];

    assert_eq!(lex_with_spans(code), res);
}

#[test]
fn code_spans_multiline() {
    let code = r#"
123
hello world $

 42
        "#;

    let res = vec![
        (IntegerLiteral(123).into(), Span {
            start: Position { line: 2, column: 1 },
            end: Position { line: 2, column: 4 }
        }),
        (Identifier::new("hello").into(), Span {
            start: Position { line: 3, column: 1 },
            end: Position { line: 3, column: 6 }
        }),
        (Identifier::new("world").into(), Span {
            start: Position { line: 3, column: 7 },
            end: Position { line: 3, column: 12 }
        }),
        (Punctuator::Dollar.into(), Span {
            start: Position { line: 3, column: 13 },
            end: Position { line: 3, column: 14 }
        }),
        (IntegerLiteral(42).into(), Span {
            start: Position { line: 5, column: 2 },
            end: Position { line: 5, column: 4 }
        }),
    ];

    assert_eq!(lex_with_spans(code), res);
}

#[test]
fn comments() {
    let code = r#"
            // Comment
            123 //
            // Some comment
            // blah blah
            456
            //
            // Other comment
            // 666
            789 // Cool number!
        "#;
    let res = vec![
        IntegerLiteral(123),
        IntegerLiteral(456),
        IntegerLiteral(789)
    ];

    assert_eq!(lex(code), to_tokens(res));
}

#[test]
fn code_spans_string_interpolation() {
    let code = r#"
paragraph(${
    user
} is)"
        "#;
    let res = vec![
        (Identifier::new("paragraph").into(), Span {
            start: Position { line: 2, column: 1 },
            end: Position { line: 2, column: 10 }
        }),
        (
            Text {
                content: "".to_owned(),
                is_closed: true
            }.into(),
            Span {
                start: Position { line: 2, column: 10 },
                end: Position { line: 2, column: 11 }
            }
        ),
        (Punctuator::Dollar.into(), Span {
            start: Position { line: 2, column: 11 },
            end: Position { line: 2, column: 12 }
        }),
        (Punctuator::LeftCurlyBracket.into(), Span {
            start: Position { line: 2, column: 12 },
            end: Position { line: 2, column: 13 }
        }),
        (Identifier::new("user").into(), Span {
            start: Position { line: 3, column: 5 },
            end: Position { line: 3, column: 9 }
        }),
        (Punctuator::RightCurlyBracket.into(), Span {
            start: Position { line: 4, column: 1 },
            end: Position { line: 4, column: 2 }
        }),
        (
            Text {
                content: " is".to_owned(),
                is_closed: true
            }.into(),
            Span {
                start: Position { line: 4, column: 2 },
                end: Position { line: 4, column: 6 }
            }
        ),
        (
            StringLiteral {
                content: "".to_owned(),
                is_closed: false
            }.into(),
            Span {
                start: Position { line: 4, column: 6 },
                end: Position { line: 5, column: 9 }
            }
        ),
    ];

    assert_eq!(lex_with_spans(code), res);
}

#[test]
fn comments_in_string_interpolation() {
    let code = r#"
            // Comment
            "${user_age //cool variable}" //comment
            // comment
        "#;
    let res = vec![
        StringLiteral {
            content: "".to_owned(),
            is_closed: true
        }.into(),
        Punctuator::Dollar.into(),
        Punctuator::LeftCurlyBracket.into(),
        Identifier::new("user_age").into(),
        Punctuator::RightCurlyBracket.into(),
        StringLiteral {
            content: "".to_owned(),
            is_closed: true
        }.into()
    ];

    assert_eq!(lex(code), res);
}

#[test]
fn comments_in_string_interpolation_multiline() {
    let code = r#"
            // Comment
            "${user_age //cool variable

            // comment
            something
            }" //comment
            // comment
        "#;
    let res = vec![
        StringLiteral {
            content: "".to_owned(),
            is_closed: true
        }.into(),
        Punctuator::Dollar.into(),
        Punctuator::LeftCurlyBracket.into(),
        Identifier::new("user_age").into(),
        Identifier::new("something").into(),
        Punctuator::RightCurlyBracket.into(),
        StringLiteral {
            content: "".to_owned(),
            is_closed: true
        }.into()
    ];

    assert_eq!(lex(code), res);
}

#[test]
fn text() {
    let code = r#"
            box(Hello world  )
        "#;
    let res = vec![
        Identifier::new("box").into(),
        Text {
            content: "Hello world  ".to_owned(),
            is_closed: true,
        }.into()
    ];

    assert_eq!(lex(code), res);
}

#[test]
fn mod_text_multiline() {
    let code = r#"
            paragraph(Hello

            world
            )
        "#;
    let res = vec![
        Identifier::new("paragraph").into(),
        Text {
            content: "Hello world".to_owned(),
            is_closed: true,
        }.into()
    ];

    assert_eq!(lex(code), res);
}

#[test]
fn text_interpolated_multiline() {
    let code = r#"
            paragraph(User first name is ${user_first_name}
                and the last name is ${user_last_name}
            )
        "#;
    let res = vec![
        Identifier::new("paragraph").into(),
        Text {
            content: "User first name is ".to_owned(),
            is_closed: true
        }.into(),
        Punctuator::Dollar.into(),
        Punctuator::LeftCurlyBracket.into(),
        Identifier::new("user_first_name").into(),
        Punctuator::RightCurlyBracket.into(),
        Text {
            content: " and the last name is ".to_owned(),
            is_closed: true
        }.into(),
        Punctuator::Dollar.into(),
        Punctuator::LeftCurlyBracket.into(),
        Identifier::new("user_last_name").into(),
        Punctuator::RightCurlyBracket.into(),
        Text {
            content: "".to_owned(),
            is_closed: true
        }.into()
    ];

    assert_eq!(lex(code), res);
}
