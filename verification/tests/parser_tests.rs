use lang_parser::{Error, ErrorInfo, Expr, LiteralType, Parser, Stmt, Token, TokenKind};

fn tok(kind: TokenKind) -> Token {
    Token { kind, line: 1, start: 0, end: 1 }
}

fn id(name: &str) -> Token {
    tok(TokenKind::Identifier(name.to_string()))
}

fn num(x: f64) -> Token {
    tok(TokenKind::Number(x.to_bits()))
}

fn lit_num(x: f64) -> Expr {
    Expr::Literal(LiteralType::Number(x.to_bits()))
}

fn parse(tokens: Vec<Token>) -> Result<Vec<Stmt>, ErrorInfo> {
    Parser::new(tokens).parse_program()
}

#[test]
fn test_negative_unary() {
    // -(1 / (2 * 32));
    let tokens = vec![
        tok(TokenKind::Minus),
        tok(TokenKind::LParen),
        num(1.0),
        tok(TokenKind::Divide),
        tok(TokenKind::LParen),
        num(2.0),
        tok(TokenKind::Times),
        num(32.0),
        tok(TokenKind::RParen),
        tok(TokenKind::RParen),
        tok(TokenKind::Semicolon),
    ];
    let expr = parse(tokens).unwrap();
    assert_eq!(
        expr,
        vec![Stmt::Expr {
            expr: Expr::Unary {
                op: TokenKind::Minus,
                right: Box::new(Expr::Grouping(Box::new(Expr::Binary {
                    left: Box::new(lit_num(1.0)),
                    op: TokenKind::Divide,
                    right: Box::new(Expr::Grouping(Box::new(Expr::Binary {
                        left: Box::new(lit_num(2.0)),
                        op: TokenKind::Times,
                        right: Box::new(lit_num(32.0)),
                    }))),
                }))),
            }
        }]
    );
}

#[test]
fn test_assignment() {
    // let a = 1;
    // print a ;
    let tokens = vec![
        tok(TokenKind::Let),
        id("a"),
        tok(TokenKind::Assign),
        num(1.0),
        tok(TokenKind::Semicolon),
        tok(TokenKind::Print),
        id("a"),
        tok(TokenKind::Semicolon),
        tok(TokenKind::Eof),
    ];
    let expr = parse(tokens).unwrap();
    assert_eq!(
        expr,
        vec![
            Stmt::Let {
                name: "a".to_string(),
                value: Some(lit_num(1.0)),
                is_const: false,
            },
            Stmt::Print {
                expr: Expr::Variable("a".to_string())
            }
        ]
    );
}

#[test]
fn precedence_multiplication_binds_tighter() {
    // a + b * c;
    let tokens = vec![
        id("a"),
        tok(TokenKind::Plus),
        id("b"),
        tok(TokenKind::Times),
        id("c"),
        tok(TokenKind::Semicolon),
    ];
    let expr = parse(tokens).unwrap();
    assert_eq!(
        expr,
        vec![Stmt::Expr {
            expr: Expr::Binary {
                left: Box::new(Expr::Variable("a".to_string())),
                op: TokenKind::Plus,
                right: Box::new(Expr::Binary {
                    left: Box::new(Expr::Variable("b".to_string())),
                    op: TokenKind::Times,
                    right: Box::new(Expr::Variable("c".to_string())),
                }),
            }
        }]
    );
}

#[test]
fn subtraction_is_left_associative() {
    // a - b - c;
    let tokens = vec![
        id("a"),
        tok(TokenKind::Minus),
        id("b"),
        tok(TokenKind::Minus),
        id("c"),
        tok(TokenKind::Semicolon),
    ];
    let expr = parse(tokens).unwrap();
    assert_eq!(
        expr,
        vec![Stmt::Expr {
            expr: Expr::Binary {
                left: Box::new(Expr::Binary {
                    left: Box::new(Expr::Variable("a".to_string())),
                    op: TokenKind::Minus,
                    right: Box::new(Expr::Variable("b".to_string())),
                }),
                op: TokenKind::Minus,
                right: Box::new(Expr::Variable("c".to_string())),
            }
        }]
    );
}

#[test]
fn double_unary_nests() {
    // - - a;
    let tokens = vec![
        tok(TokenKind::Minus),
        tok(TokenKind::Minus),
        id("a"),
        tok(TokenKind::Semicolon),
    ];
    let expr = parse(tokens).unwrap();
    assert_eq!(
        expr,
        vec![Stmt::Expr {
            expr: Expr::Unary {
                op: TokenKind::Minus,
                right: Box::new(Expr::Unary {
                    op: TokenKind::Minus,
                    right: Box::new(Expr::Variable("a".to_string())),
                }),
            }
        }]
    );
}

#[test]
fn invalid_assignment_target_is_parse_error() {
    // 1 = 2;
    let tokens = vec![
        num(1.0),
        tok(TokenKind::Assign),
        num(2.0),
        tok(TokenKind::Semicolon),
    ];
    let err = parse(tokens).unwrap_err();
    assert_eq!(err.error, Error::Parse("Invalid assignment target".to_string()));
}

#[test]
fn property_set_target_is_accepted() {
    // a.b = 2;
    let tokens = vec![
        id("a"),
        tok(TokenKind::Dot),
        id("b"),
        tok(TokenKind::Assign),
        num(2.0),
        tok(TokenKind::Semicolon),
    ];
    let expr = parse(tokens).unwrap();
    assert_eq!(
        expr,
        vec![Stmt::Expr {
            expr: Expr::SetProp {
                object: Box::new(Expr::Variable("a".to_string())),
                name: "b".to_string(),
                value: Box::new(lit_num(2.0)),
            }
        }]
    );
}

#[test]
fn class_cannot_inherit_from_itself() {
    // class A < A { }
    let tokens = vec![
        tok(TokenKind::Class),
        id("A"),
        tok(TokenKind::Less),
        id("A"),
        tok(TokenKind::LBrace),
        tok(TokenKind::RBrace),
    ];
    let err = parse(tokens).unwrap_err();
    assert_eq!(err.error, Error::Parse("Cannot inherit from itself".to_string()));
}

#[test]
fn class_superclass_is_recorded() {
    // class A < B { }
    let tokens = vec![
        tok(TokenKind::Class),
        id("A"),
        tok(TokenKind::Less),
        id("B"),
        tok(TokenKind::LBrace),
        tok(TokenKind::RBrace),
    ];
    let expr = parse(tokens).unwrap();
    assert_eq!(
        expr,
        vec![Stmt::Class {
            name: "A".to_string(),
            super_class: Some("B".to_string()),
            methods: vec![],
        }]
    );
}

#[test]
fn unterminated_block_is_syntax_error() {
    // { print a;
    let tokens = vec![
        tok(TokenKind::LBrace),
        tok(TokenKind::Print),
        id("a"),
        tok(TokenKind::Semicolon),
    ];
    let err = parse(tokens).unwrap_err();
    assert!(matches!(err.error, Error::Syntax(_)));
}

#[test]
fn missing_separator_after_expression_is_syntax_error() {
    // a (then end of input, no `;`)
    let tokens = vec![id("a")];
    let err = parse(tokens).unwrap_err();
    assert_eq!(
        err.error,
        Error::Syntax("Expected: \";\" Found: \"EOF\"".to_string())
    );
}

#[test]
fn missing_separator_after_let_is_syntax_error() {
    // let a = 1 print
    let tokens = vec![
        tok(TokenKind::Let),
        id("a"),
        tok(TokenKind::Assign),
        num(1.0),
        tok(TokenKind::Print),
    ];
    let err = parse(tokens).unwrap_err();
    assert_eq!(
        err.error,
        Error::Syntax("Expected: \";\" Found: \"print\"".to_string())
    );
}

#[test]
fn missing_separator_after_return_value_is_syntax_error() {
    // return a }
    let tokens = vec![tok(TokenKind::Return), id("a"), tok(TokenKind::RBrace)];
    let err = parse(tokens).unwrap_err();
    assert_eq!(
        err.error,
        Error::Syntax("Expected: \";\" Found: \"}\"".to_string())
    );
}

#[test]
fn error_span_points_at_offending_token() {
    let tokens = vec![
        Token { kind: TokenKind::Let, line: 3, start: 10, end: 13 },
        Token { kind: TokenKind::Print, line: 3, start: 14, end: 19 },
    ];
    let err = parse(tokens).unwrap_err();
    assert_eq!(err.line, 3);
    assert_eq!(err.start, 14);
    assert_eq!(err.end, 19);
    assert_eq!(
        err.error,
        Error::Syntax("Expected: \"Identifier\" Found: \"print\"".to_string())
    );
}

#[test]
fn if_else_and_while_parse() {
    // if (a) print b; else while (c) { }
    let tokens = vec![
        tok(TokenKind::If),
        tok(TokenKind::LParen),
        id("a"),
        tok(TokenKind::RParen),
        tok(TokenKind::Print),
        id("b"),
        tok(TokenKind::Semicolon),
        tok(TokenKind::Else),
        tok(TokenKind::While),
        tok(TokenKind::LParen),
        id("c"),
        tok(TokenKind::RParen),
        tok(TokenKind::LBrace),
        tok(TokenKind::RBrace),
    ];
    let expr = parse(tokens).unwrap();
    assert_eq!(
        expr,
        vec![Stmt::If {
            condition: Expr::Variable("a".to_string()),
            truthy: Box::new(Stmt::Print { expr: Expr::Variable("b".to_string()) }),
            falsy: Some(Box::new(Stmt::While {
                condition: Expr::Variable("c".to_string()),
                body: Box::new(Stmt::Block { stmt: vec![] }),
            })),
        }]
    );
}

#[test]
fn for_statement_parses_all_clauses() {
    // for (let i = 1; i < 2; i = i + 1) print i;
    let tokens = vec![
        tok(TokenKind::For),
        tok(TokenKind::LParen),
        tok(TokenKind::Let),
        id("i"),
        tok(TokenKind::Assign),
        num(1.0),
        tok(TokenKind::Semicolon),
        id("i"),
        tok(TokenKind::Less),
        num(2.0),
        tok(TokenKind::Semicolon),
        id("i"),
        tok(TokenKind::Assign),
        id("i"),
        tok(TokenKind::Plus),
        num(1.0),
        tok(TokenKind::RParen),
        tok(TokenKind::Print),
        id("i"),
        tok(TokenKind::Semicolon),
    ];
    let expr = parse(tokens).unwrap();
    assert_eq!(
        expr,
        vec![Stmt::For {
            initializer: Some(Box::new(Stmt::Let {
                name: "i".to_string(),
                value: Some(lit_num(1.0)),
                is_const: false,
            })),
            condition: Some(Box::new(Expr::Logical {
                left: Box::new(Expr::Variable("i".to_string())),
                op: TokenKind::Less,
                right: Box::new(lit_num(2.0)),
            })),
            increment: Some(Box::new(Expr::Assign {
                name: "i".to_string(),
                value: Box::new(Expr::Binary {
                    left: Box::new(Expr::Variable("i".to_string())),
                    op: TokenKind::Plus,
                    right: Box::new(lit_num(1.0)),
                }),
            })),
            body: Box::new(Stmt::Print { expr: Expr::Variable("i".to_string()) }),
        }]
    );
}

#[test]
fn function_declaration_with_params() {
    // function f(x, y) { return x; }
    let tokens = vec![
        tok(TokenKind::Function),
        id("f"),
        tok(TokenKind::LParen),
        id("x"),
        tok(TokenKind::Comma),
        id("y"),
        tok(TokenKind::RParen),
        tok(TokenKind::LBrace),
        tok(TokenKind::Return),
        id("x"),
        tok(TokenKind::Semicolon),
        tok(TokenKind::RBrace),
    ];
    let expr = parse(tokens).unwrap();
    assert_eq!(
        expr,
        vec![Stmt::Function {
            name: "f".to_string(),
            params: vec!["x".to_string(), "y".to_string()],
            body: Box::new(Stmt::Block {
                stmt: vec![Stmt::Return {
                    value: Some(Expr::Variable("x".to_string()))
                }],
            }),
        }]
    );
}

#[test]
fn const_declaration_sets_flag() {
    // const k = true;
    let tokens = vec![
        tok(TokenKind::Const),
        id("k"),
        tok(TokenKind::Assign),
        tok(TokenKind::True),
        tok(TokenKind::Semicolon),
    ];
    let expr = parse(tokens).unwrap();
    assert_eq!(
        expr,
        vec![Stmt::Let {
            name: "k".to_string(),
            value: Some(Expr::Literal(LiteralType::Boolean(true))),
            is_const: true,
        }]
    );
}

#[test]
fn this_parses_as_variable_and_super_requires_member() {
    // print this; print super.m;
    let tokens = vec![
        tok(TokenKind::Print),
        tok(TokenKind::This),
        tok(TokenKind::Semicolon),
        tok(TokenKind::Print),
        tok(TokenKind::Super),
        tok(TokenKind::Dot),
        id("m"),
        tok(TokenKind::Semicolon),
    ];
    let expr = parse(tokens).unwrap();
    assert_eq!(
        expr,
        vec![
            Stmt::Print { expr: Expr::Variable("this".to_string()) },
            Stmt::Print { expr: Expr::Super { name: "m".to_string() } },
        ]
    );
}

#[test]
fn empty_program_parses_to_no_statements() {
    assert_eq!(parse(vec![]).unwrap(), vec![]);
    assert_eq!(parse(vec![tok(TokenKind::Eof)]).unwrap(), vec![]);
}

#[test]
fn expect_expression_error_on_stray_operator() {
    // * ;
    let tokens = vec![tok(TokenKind::Times), tok(TokenKind::Semicolon)];
    let err = parse(tokens).unwrap_err();
    assert_eq!(err.error, Error::Parse("Expect expression.".to_string()));
}

#[test]
fn string_and_boolean_literals() {
    // print "hi"; print false;
    let tokens = vec![
        tok(TokenKind::Print),
        tok(TokenKind::Str("hi".to_string())),
        tok(TokenKind::Semicolon),
        tok(TokenKind::Print),
        tok(TokenKind::False),
        tok(TokenKind::Semicolon),
    ];
    let expr = parse(tokens).unwrap();
    assert_eq!(
        expr,
        vec![
            Stmt::Print { expr: Expr::Literal(LiteralType::Str("hi".to_string())) },
            Stmt::Print { expr: Expr::Literal(LiteralType::Boolean(false)) },
        ]
    );
}

#[test]
fn display_text_of_error_kinds() {
    assert_eq!(
        Error::Syntax("m".to_string()).display_text(),
        "SyntaxError: m"
    );
    assert_eq!(Error::Value("m".to_string()).display_text(), "ValueError: m");
    assert_eq!(Error::Parse("m".to_string()).display_text(), "ParseError: m");
    assert_eq!(
        Error::Runtime("m".to_string()).display_text(),
        "ParseError: m"
    );
    assert_eq!(
        Error::ZeroDivision.display_text(),
        "ZeroDivisionError: division by zero"
    );
}

#[test]
fn logical_levels_produce_logical_nodes() {
    // a && b == c;
    let tokens = vec![
        id("a"),
        tok(TokenKind::LAnd),
        id("b"),
        tok(TokenKind::Equal),
        id("c"),
        tok(TokenKind::Semicolon),
    ];
    let expr = parse(tokens).unwrap();
    assert_eq!(
        expr,
        vec![Stmt::Expr {
            expr: Expr::Logical {
                left: Box::new(Expr::Variable("a".to_string())),
                op: TokenKind::LAnd,
                right: Box::new(Expr::Logical {
                    left: Box::new(Expr::Variable("b".to_string())),
                    op: TokenKind::Equal,
                    right: Box::new(Expr::Variable("c".to_string())),
                }),
            }
        }]
    );
}

#[test]
fn property_get_chain() {
    // a.b.c;
    let tokens = vec![
        id("a"),
        tok(TokenKind::Dot),
        id("b"),
        tok(TokenKind::Dot),
        id("c"),
        tok(TokenKind::Semicolon),
    ];
    let expr = parse(tokens).unwrap();
    assert_eq!(
        expr,
        vec![Stmt::Expr {
            expr: Expr::Get {
                object: Box::new(Expr::Get {
                    object: Box::new(Expr::Variable("a".to_string())),
                    name: "b".to_string(),
                }),
                name: "c".to_string(),
            }
        }]
    );
}
