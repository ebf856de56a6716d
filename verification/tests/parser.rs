use django_template_ast::ast::{AttributeValue, Node};
use django_template_ast::parser::Parser;
use django_template_ast::token::{Token, TokenStream, TokenType};

fn create_token_stream(tokens: Vec<(TokenType, &str, usize)>) -> TokenStream {
    let mut stream = TokenStream::new();
    let mut last_line = 0;
    for (token_type, lexeme, line) in tokens {
        let token = Token::new(token_type, lexeme, line);
        stream.add_token(token);
        last_line = line;
    }
    stream.add_token(Token::new(TokenType::Eof, "", last_line.max(1) + 1));
    stream
}

#[test]
fn test_next_node() {
    let stream = create_token_stream(vec![(TokenType::Text, "Hello", 1)]);
    let mut parser = Parser::new(stream);

    let node = parser.next_node().unwrap();

    assert_eq!(node, Node::Text("Hello".to_string()));
}

#[test]
fn test_html_element() {
    let stream = create_token_stream(vec![
        (TokenType::LeftAngle, "<", 1),
        (TokenType::Text, "p", 1),
        (TokenType::RightAngle, ">", 1),
    ]);
    let mut parser = Parser::new(stream);

    let node = parser.html_tag().unwrap();

    assert_eq!(
        node,
        Node::HTMLElement {
            tag: "p".to_string(),
            attributes: vec![],
            children: vec![],
        }
    );
    assert_eq!(parser.peek().unwrap().token_type, TokenType::Eof);
}

#[test]
fn test_html_void_element() {
    let stream = create_token_stream(vec![
        (TokenType::LeftAngle, "<", 1),
        (TokenType::Text, "img", 1),
        (TokenType::Text, "src", 1),
        (TokenType::Equal, "=", 1),
        (TokenType::DoubleQuote, "\"", 1),
        (TokenType::Text, "https://example.com/image.jpg", 1),
        (TokenType::DoubleQuote, "\"", 1),
        (TokenType::SlashRightAngle, "/>", 1),
    ]);
    let mut parser = Parser::new(stream);

    let node = parser.html_tag().unwrap();

    assert_eq!(
        node,
        Node::HTMLVoidElement {
            tag: "img".to_string(),
            attributes: vec![(
                "src".to_string(),
                AttributeValue::Value("https://example.com/image.jpg".to_string())
            )],
        }
    );
    assert_eq!(parser.peek().unwrap().token_type, TokenType::Eof);
}

#[test]
fn test_html_doctype() {
    let stream = create_token_stream(vec![
        (TokenType::LeftAngle, "<", 1),
        (TokenType::Bang, "!", 1),
        (TokenType::Text, "DOCTYPE", 1),
        (TokenType::Text, "html", 1),
        (TokenType::RightAngle, ">", 1),
    ]);
    let mut parser = Parser::new(stream);

    let node = parser.html_doctype().unwrap();

    assert_eq!(
        node,
        Node::HTMLDoctype {
            doctype: "html".to_string()
        }
    );
    assert_eq!(parser.peek().unwrap().token_type, TokenType::Eof);
}

#[test]
fn test_html_comment() {
    let stream = create_token_stream(vec![
        (TokenType::LeftAngleBangDashDash, "<!--", 1),
        (TokenType::Text, "Hello", 1),
        (TokenType::Text, "World", 1),
        (TokenType::DashDashRightAngle, "-->", 1),
    ]);
    let mut parser = Parser::new(stream);

    let node = parser.html_comment().unwrap();

    assert_eq!(node, Node::HTMLComment("Hello World".to_string()));
    assert_eq!(parser.peek().unwrap().token_type, TokenType::Eof);
}

#[test]
fn test_django_block() {
    let stream = create_token_stream(vec![
        (TokenType::LeftBracePercent, "{%", 1),
        (TokenType::Text, "block", 1),
        (TokenType::Text, "hello='world'", 1),
        (TokenType::PercentRightBrace, "%}", 1),
    ]);
    let mut parser = Parser::new(stream);

    let node = parser.django_block().unwrap();

    assert_eq!(
        node,
        Node::DjangoBlock {
            name: "block".to_string(),
            arguments: vec!["hello='world'".to_string()],
            children: vec![],
        }
    );
    assert_eq!(parser.peek().unwrap().token_type, TokenType::Eof);
}

#[test]
fn test_django_variable() {
    let stream = create_token_stream(vec![
        (TokenType::DoubleLeftBrace, "{{", 1),
        (TokenType::Text, "Hello", 1),
        (TokenType::Text, "World", 1),
        (TokenType::DoubleRightBrace, "}}", 1),
    ]);
    let mut parser = Parser::new(stream);

    let node = parser.django_variable().unwrap();

    assert_eq!(node, Node::DjangoVariable("Hello World".to_string()));
    assert_eq!(parser.peek().unwrap().token_type, TokenType::Eof);
}

#[test]
fn test_django_comment() {
    let stream = create_token_stream(vec![
        (TokenType::LeftBraceHash, "{#", 1),
        (TokenType::Text, "Hello", 1),
        (TokenType::Text, "World", 1),
        (TokenType::HashRightBrace, "#}", 1),
    ]);
    let mut parser = Parser::new(stream);

    let node = parser.django_comment().unwrap();

    assert_eq!(node, Node::DjangoComment("Hello World".to_string()));
    assert_eq!(parser.peek().unwrap().token_type, TokenType::Eof);
}

#[test]
fn parser_test_advance() {
    let stream = create_token_stream(vec![
        (TokenType::Text, "Hello", 1),
        (TokenType::Text, "World", 2),
    ]);
    let mut parser = Parser::new(stream);

    assert_eq!(parser.current, 0);

    parser.advance().unwrap();
    assert_eq!(parser.current, 1);

    parser.advance().unwrap();
    assert_eq!(parser.current, 2);

    let result = parser.advance();
    assert!(result.is_err());
    assert_eq!(parser.current, 2);
}

#[test]
fn parser_test_peek() {
    let stream = create_token_stream(vec![
        (TokenType::Text, "Hello", 1),
        (TokenType::Text, "World", 2),
    ]);
    let mut parser = Parser::new(stream);

    let test_cases = vec![(0, "Hello"), (1, "World"), (2, "")];

    for (current, expected) in test_cases {
        parser.current = current;
        assert_eq!(
            parser.peek().unwrap().lexeme,
            expected,
            "peek() failed for current: {}",
            current
        );
    }
}

#[test]
fn parser_test_peek_next() {
    let stream = create_token_stream(vec![
        (TokenType::Text, "Hello", 1),
        (TokenType::Text, "World", 2),
    ]);
    let mut parser = Parser::new(stream);

    let test_cases = vec![(0, "World"), (1, "")];

    for (current, expected) in test_cases {
        parser.current = current;
        assert_eq!(
            parser.peek_next().unwrap().lexeme,
            expected,
            "peek_next() failed for current: {}",
            current
        );
    }
}

#[test]
fn parser_test_peek_previous() {
    let stream = create_token_stream(vec![
        (TokenType::Text, "Hello", 1),
        (TokenType::Text, "World", 2),
    ]);
    let mut parser = Parser::new(stream);

    let test_cases = vec![(2, "World"), (1, "Hello")];

    for (current, expected) in test_cases {
        parser.current = current;
        assert_eq!(
            parser.peek_previous().unwrap().lexeme,
            expected,
            "peek_previous() failed for current: {}",
            current
        );
    }
}

#[test]
fn parser_test_peek_at() {
    let stream = create_token_stream(vec![
        (TokenType::Text, "Hello", 1),
        (TokenType::Text, "World", 2),
    ]);
    let mut parser = Parser::new(stream);

    let test_cases = vec![(1, -1, "Hello"), (1, 0, "World"), (1, 1, "")];

    for (current, offset, expected) in test_cases {
        parser.current = current;
        assert_eq!(
            parser.peek_at(offset).unwrap().lexeme,
            expected,
            "peek_at() failed for current: {}, offset: {}",
            current,
            offset
        );
    }
}

#[test]
fn parser_test_item_at() {
    let stream = create_token_stream(vec![
        (TokenType::Text, "Hello", 1),
        (TokenType::Text, "World", 2),
    ]);
    let parser = Parser::new(stream);

    let test_cases = vec![(0, "Hello"), (1, "World"), (2, "")];

    for (index, expected) in test_cases {
        assert_eq!(
            parser.item_at(index).unwrap().lexeme,
            expected,
            "peek_at() failed for index: {}",
            index,
        );
    }
}

#[test]
fn parser_test_is_at_end() {
    let stream = create_token_stream(vec![
        (TokenType::Text, "Hello", 1),
        (TokenType::Text, "World", 2),
    ]);
    let mut parser = Parser::new(stream);

    let test_cases = vec![
        (0, false),
        (1, false),
        (2, true),
        (3, true),
        (usize::MAX - 1, true),
    ];

    for (current, expected) in test_cases {
        parser.current = current;
        assert_eq!(
            parser.is_at_end(),
            expected,
            "item_at() failed for current: {}",
            current,
        );
    }
}
