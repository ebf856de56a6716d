use django_template_ast::ast::{AttributeValue, Node};
use django_template_ast::error::{LexerError, NodeError, ParserError, TokenError};
use django_template_ast::lexer::Lexer;
use django_template_ast::parser::Parser;
use django_template_ast::token::{Token, TokenStream, TokenType, TokenVecToString};

fn scan(source: &str) -> TokenStream {
    let mut lexer = Lexer::new(source);
    lexer.tokenize().unwrap()
}

fn tokens_of(stream: &TokenStream) -> Vec<Token> {
    let mut out = Vec::new();
    let mut i = 0;
    while let Some(t) = stream.get(i) {
        out.push(t.clone());
        i += 1;
    }
    out
}

fn parse_source(source: &str) -> Result<Vec<Node>, ParserError> {
    let stream = scan(source);
    Parser::new(stream).parse().map(|ast| ast.nodes)
}

#[test]
fn single_delimiters_scan_to_single_tokens() {
    let cases = vec![
        ("(", TokenType::LeftParen),
        (")", TokenType::RightParen),
        ("[", TokenType::LeftBracket),
        ("]", TokenType::RightBracket),
        ("{", TokenType::Text),
        ("}", TokenType::Text),
        (",", TokenType::Comma),
        (".", TokenType::Dot),
        ("-", TokenType::Dash),
        ("+", TokenType::Plus),
        (":", TokenType::Colon),
        (";", TokenType::Semicolon),
        ("*", TokenType::Star),
        ("|", TokenType::Pipe),
        ("%", TokenType::Percent),
        ("#", TokenType::Text),
        ("!", TokenType::Bang),
        ("=", TokenType::Equal),
        ("<", TokenType::LeftAngle),
        (">", TokenType::RightAngle),
        ("/", TokenType::Slash),
        ("\"", TokenType::DoubleQuote),
        ("'", TokenType::SingleQuote),
    ];
    for (input, expected_kind) in cases {
        let toks = tokens_of(&scan(input));
        assert_eq!(toks.len(), 2, "input {:?}", input);
        assert_eq!(toks[0].token_type, expected_kind, "input {:?}", input);
        assert_eq!(toks[0].lexeme, input, "input {:?}", input);
        assert_eq!(toks[0].line, 1, "input {:?}", input);
        assert_eq!(toks[1].token_type, TokenType::Eof, "input {:?}", input);
    }
}

#[test]
fn single_whitespace_scans_to_end_marker_alone() {
    for input in [" ", "\t", "\r", "\n"] {
        let toks = tokens_of(&scan(input));
        assert_eq!(toks.len(), 1, "input {:?}", input);
        assert_eq!(toks[0].token_type, TokenType::Eof, "input {:?}", input);
    }
}

#[test]
fn compound_delimiters_take_precedence() {
    let toks = tokens_of(&scan("{{"));
    assert_eq!(toks.len(), 2);
    assert_eq!(toks[0].token_type, TokenType::DoubleLeftBrace);
    assert_eq!(toks[0].lexeme, "{{");

    let toks = tokens_of(&scan("<!--"));
    assert_eq!(toks.len(), 2);
    assert_eq!(toks[0].token_type, TokenType::LeftAngleBangDashDash);
    assert_eq!(toks[0].lexeme, "<!--");
}

#[test]
fn incomplete_comment_opener_falls_back_to_plain_tokens() {
    // "<!-" is not an error: the scanner backs off to the plain `<` token
    // and continues with what follows.
    let toks = tokens_of(&scan("<!-"));
    assert_eq!(toks.len(), 4);
    assert_eq!(toks[0].token_type, TokenType::LeftAngle);
    assert_eq!(toks[0].lexeme, "<");
    assert_eq!(toks[1].token_type, TokenType::Bang);
    assert_eq!(toks[2].token_type, TokenType::Dash);
    assert_eq!(toks[3].token_type, TokenType::Eof);
}

#[test]
fn line_tracking_assigns_lines_to_tokens() {
    let toks = tokens_of(&scan("a\nb\nc"));
    assert_eq!(toks.len(), 4);
    assert_eq!((toks[0].lexeme.as_str(), toks[0].line), ("a", 1));
    assert_eq!((toks[1].lexeme.as_str(), toks[1].line), ("b", 2));
    assert_eq!((toks[2].lexeme.as_str(), toks[2].line), ("c", 3));
    assert_eq!(toks[3].token_type, TokenType::Eof);
    assert_eq!(toks[3].line, 3);
}

#[test]
fn crlf_counts_as_one_line_break() {
    let toks = tokens_of(&scan("a\r\nb"));
    assert_eq!(toks.len(), 3);
    assert_eq!(toks[0].line, 1);
    assert_eq!(toks[1].line, 2);

    // A lone carriage return also counts once.
    let toks = tokens_of(&scan("a\rb"));
    assert_eq!(toks[1].line, 2);

    assert_eq!(Token::new(TokenType::Whitespace, "\r\n", 1).lines(), 1);
    assert_eq!(Token::new(TokenType::Whitespace, "\n\n", 1).lines(), 2);
    assert_eq!(Token::new(TokenType::Whitespace, "\r", 1).lines(), 1);
}

#[test]
fn whitespace_never_reaches_the_stream() {
    let toks = tokens_of(&scan(", . |\t\n , <  >\r\n{{ }}"));
    assert!(toks.len() > 1);
    for t in &toks {
        assert_ne!(t.token_type, TokenType::Whitespace);
    }
    assert_eq!(toks.last().unwrap().token_type, TokenType::Eof);
}

#[test]
fn attribute_with_quoted_value() {
    let nodes = parse_source("<img src=\"x.jpg\">").unwrap();
    assert_eq!(nodes.len(), 1);
    assert_eq!(
        nodes[0],
        Node::HTMLElement {
            tag: "img".to_string(),
            attributes: vec![(
                "src".to_string(),
                AttributeValue::Value("x.jpg".to_string())
            )],
            children: vec![],
        }
    );
}

#[test]
fn attribute_without_value_is_boolean() {
    let nodes = parse_source("<input disabled>").unwrap();
    assert_eq!(nodes.len(), 1);
    assert_eq!(
        nodes[0],
        Node::HTMLElement {
            tag: "input".to_string(),
            attributes: vec![("disabled".to_string(), AttributeValue::Boolean)],
            children: vec![],
        }
    );
}

#[test]
fn self_closing_tag_yields_void_element() {
    let nodes = parse_source("<br />").unwrap();
    assert_eq!(
        nodes,
        vec![Node::HTMLVoidElement {
            tag: "br".to_string(),
            attributes: vec![],
        }]
    );
}

#[test]
fn template_variable_trims_surrounding_whitespace() {
    let nodes = parse_source("{{ name }}").unwrap();
    assert_eq!(nodes, vec![Node::DjangoVariable("name".to_string())]);
}

#[test]
fn template_block_with_argument() {
    let nodes = parse_source("{% if x %}").unwrap();
    assert_eq!(
        nodes,
        vec![Node::DjangoBlock {
            name: "if".to_string(),
            arguments: vec!["x".to_string()],
            children: vec![],
        }]
    );
}

#[test]
fn template_comment_keeps_body() {
    let nodes = parse_source("{# note #}").unwrap();
    assert_eq!(nodes, vec![Node::DjangoComment("note".to_string())]);
}

#[test]
fn html_comment_joins_body_with_spaces() {
    let nodes = parse_source("<!-- Hello World -->").unwrap();
    assert_eq!(nodes, vec![Node::HTMLComment("Hello World".to_string())]);
}

#[test]
fn empty_template_block_is_rejected() {
    let result = parse_source("{%%}");
    assert!(matches!(
        result.unwrap_err(),
        ParserError::NodeError(NodeError::NoBlockName)
    ));
}

#[test]
fn malformed_attribute_reports_offending_token() {
    let result = parse_source("<a href=>");
    match result.unwrap_err() {
        ParserError::ExpectedTokenType(found, expected) => {
            assert_eq!(found.token_type, TokenType::RightAngle);
            assert_eq!(found.lexeme, ">");
            assert_eq!(found.line, 1);
            assert_eq!(expected, TokenType::Text);
        }
        other => panic!("expected ExpectedTokenType, got {:?}", other),
    }
}

#[test]
fn unexpected_leading_token_is_reported() {
    let result = parse_source(", a");
    match result.unwrap_err() {
        ParserError::UnexpectedToken(found) => {
            assert_eq!(found.token_type, TokenType::Comma);
        }
        other => panic!("expected UnexpectedToken, got {:?}", other),
    }
}

#[test]
fn reparsing_the_same_stream_is_idempotent() {
    let stream = scan("<p>{{ user }}<!-- note -->text");
    let first = Parser::new(stream.clone()).parse().unwrap();
    let second = Parser::new(stream).parse().unwrap();
    assert_eq!(first, second);
}

#[test]
fn parse_mixed_template_in_source_order() {
    let nodes = parse_source("Hello {{ name }}{% endif %}").unwrap();
    assert_eq!(
        nodes,
        vec![
            Node::Text("Hello".to_string()),
            Node::DjangoVariable("name".to_string()),
            Node::DjangoBlock {
                name: "endif".to_string(),
                arguments: vec![],
                children: vec![],
            },
        ]
    );
}

#[test]
fn doctype_parses_from_source() {
    // `<` followed by `!` scans as two tokens, so the doctype production
    // applies to ordinary source text.
    let nodes = parse_source("<!DOCTYPE html>").unwrap();
    assert_eq!(
        nodes,
        vec![Node::HTMLDoctype {
            doctype: "html".to_string()
        }]
    );
}

#[test]
fn token_size_of_variable_width_kinds_is_an_error() {
    assert_eq!(TokenType::LeftAngleBangDashDash.size().unwrap(), 4);
    assert_eq!(TokenType::DashDashRightAngle.size().unwrap(), 3);
    assert_eq!(TokenType::DoubleLeftBrace.size().unwrap(), 2);
    assert_eq!(TokenType::Comma.size().unwrap(), 1);
    assert_eq!(TokenType::Eof.size().unwrap(), 0);
    assert!(matches!(
        TokenType::Text.size(),
        Err(TokenError::DynamicTokenSize)
    ));
    assert!(matches!(
        TokenType::Whitespace.size(),
        Err(TokenError::DynamicTokenSize)
    ));
}

#[test]
fn single_char_rejects_unknown_characters() {
    let lexer = Lexer::new("x");
    match lexer.single_char('x').unwrap_err() {
        LexerError::UnexpectedCharacter { character, line } => {
            assert_eq!(character, 'x');
            assert_eq!(line, 1);
        }
        other => panic!("expected UnexpectedCharacter, got {:?}", other),
    }
}

#[test]
fn lexer_advance_past_end_is_reported() {
    let mut lexer = Lexer::new("a");
    lexer.advance(1, 0).unwrap();
    assert!(matches!(
        lexer.advance(1, 0).unwrap_err(),
        LexerError::AtEndOfSource
    ));
}

#[test]
fn parser_cursor_errors_are_reported() {
    let empty = Parser::new(TokenStream::new());
    assert!(matches!(
        empty.peek().unwrap_err(),
        ParserError::EmptyTokenStream
    ));

    let mut parser = Parser::new(scan("a"));
    assert!(matches!(
        parser.backtrack(1).unwrap_err(),
        ParserError::AtBeginningOfStream
    ));
    parser.advance().unwrap();
    assert!(matches!(
        parser.advance().unwrap_err(),
        ParserError::AtEndOfStream
    ));
}

#[test]
fn lookahead_and_synchronize_walk_the_stream() {
    let mut parser = Parser::new(scan(", . {{ x }}"));
    assert!(parser
        .lookahead(&[TokenType::Comma, TokenType::Dot, TokenType::DoubleLeftBrace])
        .unwrap());
    assert!(!parser.lookahead(&[TokenType::Dot]).unwrap());
    parser.synchronize(&[TokenType::DoubleLeftBrace]).unwrap();
    assert_eq!(parser.current, 2);
    assert_eq!(
        parser.peek().unwrap().token_type,
        TokenType::DoubleLeftBrace
    );

    let seq = parser.peek_sequence(2).unwrap();
    assert_eq!(seq.len(), 2);
    assert_eq!(seq[0].token_type, TokenType::DoubleLeftBrace);
    assert_eq!(seq[1].lexeme, "x");
}

#[test]
fn token_vec_renders_back_to_text() {
    let tokens = vec![
        Token::new(TokenType::Text, "Hello", 1),
        Token::new(TokenType::Text, "World", 1),
    ];
    assert_eq!(TokenVecToString::to_string(&tokens), "Hello World");
    let empty: Vec<Token> = vec![];
    assert_eq!(TokenVecToString::to_string(&empty), "");
}

#[test]
fn stream_builder_drops_whitespace_and_finalizes_once() {
    let mut stream = TokenStream::new();
    stream.add_token(Token::new(TokenType::Text, "a", 1));
    stream.add_token(Token::new(TokenType::Whitespace, " ", 1));
    stream.add_token(Token::new(TokenType::Text, "b", 1));
    let finalized = stream.finalize(1);
    assert_eq!(finalized.len(), 3);
    assert_eq!(finalized.get(0).unwrap().lexeme, "a");
    assert_eq!(finalized.get(1).unwrap().lexeme, "b");
    assert_eq!(finalized.get(2).unwrap().token_type, TokenType::Eof);
    assert!(finalized.get(3).is_none());
}

#[test]
fn empty_source_scans_to_end_marker_alone() {
    let toks = tokens_of(&scan(""));
    assert_eq!(toks.len(), 1);
    assert_eq!(toks[0].token_type, TokenType::Eof);
    assert_eq!(toks[0].line, 1);
    assert_eq!(toks[0].size(), 0);
    assert!(toks[0].is_token_type(TokenType::Eof));
    assert!(!toks[0].is_throwaway());
}
