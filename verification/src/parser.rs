//! The recursive-descent parser: consumes a finalized [`TokenStream`] and
//! builds the syntax tree, one production per construct, with one- and
//! two-token lookahead for disambiguation.
//!
//! Each production is specified by a spec function over the stream's token
//! views; the executable methods are proved to return exactly the node and
//! cursor that the specification gives, or exactly its error.  The parser's
//! state is nothing but a monotonically advancing cursor, so every
//! production is a pure function of the stream from the cursor on.
use vstd::prelude::*;

use crate::ast::{Ast, AttributeValue, AttributeValueView, Node, NodeView};
use crate::error::{NodeError, ParserError, ParserErrorView};
use crate::token::{
    spec_concat_lexemes, spec_join_lexemes, Token, TokenStream, TokenType, TokenVecToString,
    TokenView,
};

verus! {

/// Whether the cursor rests on the last token of the stream (or beyond).
pub open spec fn spec_is_at_end(toks: Seq<TokenView>, cur: int) -> bool {
    cur + 1 >= toks.len()
}

/// The error reported for an out-of-range access to `index` while the
/// cursor is at `cur`.
pub open spec fn spec_oob_error(toks: Seq<TokenView>, cur: int, index: int) -> ParserErrorView {
    if toks.len() == 0 {
        ParserErrorView::EmptyTokenStream
    } else if index < cur {
        ParserErrorView::AtBeginningOfStream
    } else if index >= toks.len() {
        ParserErrorView::AtEndOfStream
    } else {
        ParserErrorView::InvalidTokenAccess
    }
}

/// The token at absolute position `index`, or the out-of-range error.
pub open spec fn spec_item_at(toks: Seq<TokenView>, cur: int, index: int) -> Result<
    TokenView,
    ParserErrorView,
> {
    if 0 <= index < toks.len() {
        Ok(toks[index])
    } else {
        Err(spec_oob_error(toks, cur, index))
    }
}

/// The token at signed offset `offset` from the cursor; a position before
/// the start of the stream reports the same condition as one past its end.
pub open spec fn spec_peek_at(toks: Seq<TokenView>, cur: int, offset: int) -> Result<
    TokenView,
    ParserErrorView,
> {
    let index = cur + offset;
    if index < 0 {
        Err(
            if toks.len() == 0 {
                ParserErrorView::EmptyTokenStream
            } else {
                ParserErrorView::AtEndOfStream
            },
        )
    } else {
        spec_item_at(toks, cur, index)
    }
}

/// The token at the cursor.
pub open spec fn spec_peek(toks: Seq<TokenView>, cur: int) -> Result<TokenView, ParserErrorView> {
    spec_peek_at(toks, cur, 0)
}

/// One cursor step: the token stepped over and the new cursor, or an error
/// at the end of the stream.
pub open spec fn spec_advance(toks: Seq<TokenView>, cur: int) -> Result<
    (TokenView, int),
    ParserErrorView,
> {
    if spec_is_at_end(toks, cur) {
        Err(ParserErrorView::AtEndOfStream)
    } else {
        match spec_peek_at(toks, cur + 1, -1) {
            Ok(t) => Ok((t, cur + 1)),
            Err(e) => Err(e),
        }
    }
}

/// Consuming one token of the expected type: the token and the new cursor,
/// or the error naming the found token and the expected type.
pub open spec fn spec_consume(toks: Seq<TokenView>, cur: int, expected: TokenType) -> Result<
    (TokenView, int),
    ParserErrorView,
> {
    match spec_peek(toks, cur) {
        Err(e) => Err(e),
        Ok(tok) => if tok.token_type != expected {
            Err(ParserErrorView::ExpectedTokenType(tok, expected))
        } else {
            match spec_advance(toks, cur) {
                Err(e) => Err(e),
                Ok((_, nc)) => Ok((tok, nc)),
            }
        },
    }
}

/// Consuming tokens until one of type `end` (or the end of the stream) is
/// at the cursor: the consumed tokens and the new cursor.  This never fails;
/// whether the terminator was actually found is the following `consume`'s
/// concern.
pub open spec fn spec_consume_until(toks: Seq<TokenView>, cur: int, end: TokenType) -> (Seq<
    TokenView,
>, int)
    decreases toks.len() - cur,
    when 0 <= cur
{
    if spec_is_at_end(toks, cur) {
        (Seq::empty(), cur)
    } else if toks[cur].token_type == end {
        (Seq::empty(), cur)
    } else {
        let (rest, nc) = spec_consume_until(toks, cur + 1, end);
        (seq![toks[cur]] + rest, nc)
    }
}

pub proof fn lemma_consume_until_bounds(toks: Seq<TokenView>, cur: int, end: TokenType)
    requires
        0 <= cur,
    ensures
        cur <= spec_consume_until(toks, cur, end).1,
        spec_consume_until(toks, cur, end).1 == cur || spec_consume_until(toks, cur, end).1
            <= toks.len() - 1,
    decreases toks.len() - cur,
{
    if !spec_is_at_end(toks, cur) && toks[cur].token_type != end {
        lemma_consume_until_bounds(toks, cur + 1, end);
    }
}

/// The skip-ahead cursor of the synchronization primitive: the first
/// position at or after `cur` resting on one of the recovery types, or the
/// final position of the stream.
pub open spec fn spec_synchronize(toks: Seq<TokenView>, cur: int, types: Seq<TokenType>) -> int
    decreases toks.len() - cur,
    when 0 <= cur
{
    if spec_is_at_end(toks, cur) {
        cur
    } else if types.contains(toks[cur].token_type) {
        cur
    } else {
        spec_synchronize(toks, cur + 1, types)
    }
}

/// The result of peeking `count` tokens from the cursor on: the tokens, or
/// the first error among the accesses.
pub open spec fn spec_peek_sequence(toks: Seq<TokenView>, cur: int, count: int) -> Result<
    Seq<TokenView>,
    ParserErrorView,
>
    decreases count,
{
    if count <= 0 {
        Ok(Seq::empty())
    } else {
        match spec_peek_sequence(toks, cur, count - 1) {
            Err(e) => Err(e),
            Ok(pre) => match spec_peek_at(toks, cur, count - 1) {
                Err(e) => Err(e),
                Ok(t) => Ok(pre.push(t)),
            },
        }
    }
}

/// The result of matching the token types at offsets `i..types.len()` from
/// the cursor against `types[i..]`: false on the first mismatch, an error on
/// the first failing access.
pub open spec fn spec_lookahead_from(
    toks: Seq<TokenView>,
    cur: int,
    types: Seq<TokenType>,
    i: int,
) -> Result<bool, ParserErrorView>
    decreases types.len() - i,
{
    if i >= types.len() {
        Ok(true)
    } else {
        match spec_peek_at(toks, cur, i) {
            Err(e) => Err(e),
            Ok(t) => if t.token_type != types[i] {
                Ok(false)
            } else {
                spec_lookahead_from(toks, cur, types, i + 1)
            },
        }
    }
}

/// The attribute-value production: a quoted run of tokens concatenated
/// without separators, or a single bare text token.
pub open spec fn spec_parse_attribute_value(toks: Seq<TokenView>, cur: int) -> Result<
    (Seq<char>, int),
    ParserErrorView,
> {
    match spec_peek(toks, cur) {
        Err(e) => Err(e),
        Ok(tok) => if tok.token_type == TokenType::SingleQuote || tok.token_type
            == TokenType::DoubleQuote {
            match spec_advance(toks, cur) {
                Err(e) => Err(e),
                Ok((quote, c1)) => {
                    let (collected, c2) = spec_consume_until(toks, c1, quote.token_type);
                    match spec_consume(toks, c2, quote.token_type) {
                        Err(e) => Err(e),
                        Ok((_, c3)) => Ok((spec_concat_lexemes(collected), c3)),
                    }
                },
            }
        } else {
            match spec_consume(toks, cur, TokenType::Text) {
                Err(e) => Err(e),
                Ok((t, c1)) => Ok((t.lexeme, c1)),
            }
        },
    }
}

pub proof fn lemma_attribute_value_advances(toks: Seq<TokenView>, cur: int)
    requires
        0 <= cur,
    ensures
        match spec_parse_attribute_value(toks, cur) {
            Ok((_, nc)) => cur < nc <= toks.len() - 1,
            Err(_) => true,
        },
{
    match spec_peek(toks, cur) {
        Err(_) => {},
        Ok(tok) => {
            if tok.token_type == TokenType::SingleQuote || tok.token_type
                == TokenType::DoubleQuote {
                if !spec_is_at_end(toks, cur) {
                    lemma_consume_until_bounds(toks, cur + 1, tok.token_type);
                }
            }
        },
    }
}

/// The attribute production: while the lookahead is text, consume an
/// attribute name and, after `=`, an attribute value; a name with no `=`
/// yields a boolean attribute.
pub open spec fn spec_parse_attributes(toks: Seq<TokenView>, cur: int) -> Result<
    (Seq<(Seq<char>, AttributeValueView)>, int),
    ParserErrorView,
>
    decreases toks.len() - cur,
    when 0 <= cur
{
    match spec_peek(toks, cur) {
        Err(e) => Err(e),
        Ok(tok) => if tok.token_type != TokenType::Text {
            Ok((Seq::empty(), cur))
        } else {
            match spec_consume(toks, cur, TokenType::Text) {
                Err(e) => Err(e),
                Ok((name, c1)) => match spec_peek(toks, c1) {
                    Err(e) => Err(e),
                    Ok(t2) => if t2.token_type == TokenType::Equal {
                        match spec_consume(toks, c1, TokenType::Equal) {
                            Err(e) => Err(e),
                            Ok((_, c2)) => match spec_parse_attribute_value(toks, c2) {
                                Err(e) => Err(e),
                                Ok((val, c3)) => {
                                    proof {
                                        lemma_attribute_value_advances(toks, c2);
                                    }
                                    match spec_parse_attributes(toks, c3) {
                                        Err(e) => Err(e),
                                        Ok((rest, c4)) => Ok(
                                            (
                                                seq![
                                                    (
                                                        name.lexeme,
                                                        AttributeValueView::Value(val),
                                                    ),
                                                ] + rest,
                                                c4,
                                            ),
                                        ),
                                    }
                                },
                            },
                        }
                    } else {
                        match spec_parse_attributes(toks, c1) {
                            Err(e) => Err(e),
                            Ok((rest, c4)) => Ok(
                                (seq![(name.lexeme, AttributeValueView::Boolean)] + rest, c4),
                            ),
                        }
                    },
                },
            }
        },
    }
}

pub proof fn lemma_parse_attributes_bounds(toks: Seq<TokenView>, cur: int)
    requires
        0 <= cur,
    ensures
        match spec_parse_attributes(toks, cur) {
            Ok((_, nc)) => cur <= nc <= toks.len() - 1,
            Err(_) => true,
        },
    decreases toks.len() - cur,
{
    match spec_peek(toks, cur) {
        Err(_) => {},
        Ok(tok) => {
            if tok.token_type == TokenType::Text {
                match spec_consume(toks, cur, TokenType::Text) {
                    Err(_) => {},
                    Ok((_, c1)) => match spec_peek(toks, c1) {
                        Err(_) => {},
                        Ok(t2) => {
                            if t2.token_type == TokenType::Equal {
                                match spec_consume(toks, c1, TokenType::Equal) {
                                    Err(_) => {},
                                    Ok((_, c2)) => {
                                        lemma_attribute_value_advances(toks, c2);
                                        match spec_parse_attribute_value(toks, c2) {
                                            Err(_) => {},
                                            Ok((_, c3)) => {
                                                lemma_parse_attributes_bounds(toks, c3);
                                            },
                                        }
                                    },
                                }
                            } else {
                                lemma_parse_attributes_bounds(toks, c1);
                            }
                        },
                    },
                }
            }
        },
    }
}

/// The tag production: `<`, the tag name, the attributes, then either the
/// self-closing delimiter (a void element) or `>` (a container element,
/// whose nested content appears as following sibling nodes).
pub open spec fn spec_html_tag(toks: Seq<TokenView>, cur: int) -> Result<
    (NodeView, int),
    ParserErrorView,
> {
    match spec_consume(toks, cur, TokenType::LeftAngle) {
        Err(e) => Err(e),
        Ok((_, c1)) => match spec_consume(toks, c1, TokenType::Text) {
            Err(e) => Err(e),
            Ok((tagtok, c2)) => match spec_parse_attributes(toks, c2) {
                Err(e) => Err(e),
                Ok((attrs, c3)) => match spec_peek(toks, c3) {
                    Err(e) => Err(e),
                    Ok(t) => if t.token_type == TokenType::SlashRightAngle {
                        match spec_consume(toks, c3, TokenType::SlashRightAngle) {
                            Err(e) => Err(e),
                            Ok((_, c4)) => if tagtok.lexeme.len() == 0 {
                                Err(ParserErrorView::NodeError(NodeError::NoTagName))
                            } else {
                                Ok(
                                    (
                                        NodeView::HTMLVoidElement {
                                            tag: tagtok.lexeme,
                                            attributes: attrs,
                                        },
                                        c4,
                                    ),
                                )
                            },
                        }
                    } else {
                        match spec_consume(toks, c3, TokenType::RightAngle) {
                            Err(e) => Err(e),
                            Ok((_, c4)) => if tagtok.lexeme.len() == 0 {
                                Err(ParserErrorView::NodeError(NodeError::NoTagName))
                            } else {
                                Ok(
                                    (
                                        NodeView::HTMLElement {
                                            tag: tagtok.lexeme,
                                            attributes: attrs,
                                            children: Seq::empty(),
                                        },
                                        c4,
                                    ),
                                )
                            },
                        }
                    },
                },
            },
        },
    }
}

/// The comment production: the opener, the body tokens re-joined with
/// single spaces, the closer.
pub open spec fn spec_html_comment(toks: Seq<TokenView>, cur: int) -> Result<
    (NodeView, int),
    ParserErrorView,
> {
    match spec_consume(toks, cur, TokenType::LeftAngleBangDashDash) {
        Err(e) => Err(e),
        Ok((_, c1)) => {
            let (content, c2) = spec_consume_until(toks, c1, TokenType::DashDashRightAngle);
            match spec_consume(toks, c2, TokenType::DashDashRightAngle) {
                Err(e) => Err(e),
                Ok((_, c3)) => Ok((NodeView::HTMLComment(spec_join_lexemes(content)), c3)),
            }
        },
    }
}

/// The doctype production: `<`, `!`, the literal keyword, the body tokens
/// re-joined with single spaces, `>`.
pub open spec fn spec_html_doctype(toks: Seq<TokenView>, cur: int) -> Result<
    (NodeView, int),
    ParserErrorView,
> {
    match spec_consume(toks, cur, TokenType::LeftAngle) {
        Err(e) => Err(e),
        Ok((_, c1)) => match spec_consume(toks, c1, TokenType::Bang) {
            Err(e) => Err(e),
            Ok((_, c2)) => match spec_consume(toks, c2, TokenType::Text) {
                Err(e) => Err(e),
                Ok((_, c3)) => {
                    let (content, c4) = spec_consume_until(toks, c3, TokenType::RightAngle);
                    match spec_consume(toks, c4, TokenType::RightAngle) {
                        Err(e) => Err(e),
                        Ok((_, c5)) => Ok(
                            (NodeView::HTMLDoctype { doctype: spec_join_lexemes(content) }, c5),
                        ),
                    }
                },
            },
        },
    }
}

/// The arguments of a block: the lexemes of every collected token after the
/// block name.
pub open spec fn spec_block_arguments(content: Seq<TokenView>) -> Seq<Seq<char>> {
    Seq::new((content.len() - 1) as nat, |i: int| content[i + 1].lexeme)
}

/// The block production: the opener, the body tokens up to the closer, the
/// closer.  The first body token's lexeme is the block name, which must be
/// non-empty; the remaining body tokens become the argument list.
pub open spec fn spec_django_block(toks: Seq<TokenView>, cur: int) -> Result<
    (NodeView, int),
    ParserErrorView,
> {
    match spec_consume(toks, cur, TokenType::LeftBracePercent) {
        Err(e) => Err(e),
        Ok((_, c1)) => {
            let (content, c2) = spec_consume_until(toks, c1, TokenType::PercentRightBrace);
            match spec_consume(toks, c2, TokenType::PercentRightBrace) {
                Err(e) => Err(e),
                Ok((_, c3)) => if content.len() == 0 {
                    Err(ParserErrorView::NodeError(NodeError::NoBlockName))
                } else if content[0].lexeme.len() == 0 {
                    Err(ParserErrorView::NodeError(NodeError::NoBlockName))
                } else {
                    Ok(
                        (
                            NodeView::DjangoBlock {
                                name: content[0].lexeme,
                                arguments: if content.len() > 1 {
                                    spec_block_arguments(content)
                                } else {
                                    Seq::empty()
                                },
                                children: Seq::empty(),
                            },
                            c3,
                        ),
                    )
                },
            }
        },
    }
}

/// The variable production: the opener, the body tokens re-joined with
/// single spaces, the closer.
pub open spec fn spec_django_variable(toks: Seq<TokenView>, cur: int) -> Result<
    (NodeView, int),
    ParserErrorView,
> {
    match spec_consume(toks, cur, TokenType::DoubleLeftBrace) {
        Err(e) => Err(e),
        Ok((_, c1)) => {
            let (content, c2) = spec_consume_until(toks, c1, TokenType::DoubleRightBrace);
            match spec_consume(toks, c2, TokenType::DoubleRightBrace) {
                Err(e) => Err(e),
                Ok((_, c3)) => Ok((NodeView::DjangoVariable(spec_join_lexemes(content)), c3)),
            }
        },
    }
}

/// The template-comment production, symmetric to the variable production
/// with its own delimiter pair.
pub open spec fn spec_django_comment(toks: Seq<TokenView>, cur: int) -> Result<
    (NodeView, int),
    ParserErrorView,
> {
    match spec_consume(toks, cur, TokenType::LeftBraceHash) {
        Err(e) => Err(e),
        Ok((_, c1)) => {
            let (content, c2) = spec_consume_until(toks, c1, TokenType::HashRightBrace);
            match spec_consume(toks, c2, TokenType::HashRightBrace) {
                Err(e) => Err(e),
                Ok((_, c3)) => Ok((NodeView::DjangoComment(spec_join_lexemes(content)), c3)),
            }
        },
    }
}

/// The top-level dispatch: selects one production from the token at the
/// cursor, with one token of lookahead after `<`, and yields the node and
/// the cursor one past the production's last token.
pub open spec fn spec_next_node(toks: Seq<TokenView>, cur: int) -> Result<
    (NodeView, int),
    ParserErrorView,
> {
    match spec_peek(toks, cur) {
        Err(e) => Err(e),
        Ok(tok) => match tok.token_type {
            TokenType::LeftAngle => match spec_peek_at(toks, cur, 1) {
                Err(e) => Err(e),
                Ok(next) => if next.token_type == TokenType::Bang {
                    spec_html_doctype(toks, cur)
                } else if next.token_type == TokenType::Text {
                    spec_html_tag(toks, cur)
                } else {
                    Err(ParserErrorView::UnexpectedToken(next))
                },
            },
            TokenType::LeftAngleBangDashDash => spec_html_comment(toks, cur),
            TokenType::LeftBracePercent => spec_django_block(toks, cur),
            TokenType::DoubleLeftBrace => spec_django_variable(toks, cur),
            TokenType::LeftBraceHash => spec_django_comment(toks, cur),
            TokenType::Text => match spec_advance(toks, cur) {
                Err(e) => Err(e),
                Ok((_, nc)) => Ok((NodeView::Text(tok.lexeme), nc)),
            },
            TokenType::Eof => Err(ParserErrorView::AtEndOfStream),
            _ => Err(ParserErrorView::UnexpectedToken(tok)),
        },
    }
}

pub proof fn lemma_next_node_progress(toks: Seq<TokenView>, cur: int)
    requires
        0 <= cur,
    ensures
        match spec_next_node(toks, cur) {
            Ok((_, nc)) => cur < nc <= toks.len() - 1,
            Err(_) => true,
        },
{
    if 0 <= cur < toks.len() {
        lemma_consume_until_bounds(toks, cur + 1, TokenType::DashDashRightAngle);
        lemma_consume_until_bounds(toks, cur + 1, TokenType::PercentRightBrace);
        lemma_consume_until_bounds(toks, cur + 1, TokenType::DoubleRightBrace);
        lemma_consume_until_bounds(toks, cur + 1, TokenType::HashRightBrace);
        if cur + 2 <= toks.len() {
            lemma_parse_attributes_bounds(toks, cur + 2);
            match spec_parse_attributes(toks, cur + 2) {
                Ok((_, c3)) => {},
                Err(_) => {},
            }
            if cur + 3 <= toks.len() {
                lemma_consume_until_bounds(toks, cur + 3, TokenType::RightAngle);
            }
        }
    }
}

/// The whole parse from the cursor on: while the cursor is not at the
/// end-of-input token, one production per step, the produced nodes in
/// source order; the first failing production aborts the parse.
pub open spec fn spec_parse_from(toks: Seq<TokenView>, cur: int) -> Result<
    Seq<NodeView>,
    ParserErrorView,
>
    decreases toks.len() - cur,
    when 0 <= cur
{
    if spec_is_at_end(toks, cur) {
        Ok(Seq::empty())
    } else {
        match spec_next_node(toks, cur) {
            Err(e) => Err(e),
            Ok((nv, nc)) => {
                proof {
                    lemma_next_node_progress(toks, cur);
                }
                match spec_parse_from(toks, nc) {
                    Err(e) => Err(e),
                    Ok(rest) => Ok(seq![nv] + rest),
                }
            },
        }
    }
}

/// The whole parse of a stream, from its start.
pub open spec fn spec_parse(toks: Seq<TokenView>) -> Result<Seq<NodeView>, ParserErrorView> {
    spec_parse_from(toks, 0)
}

/// The relation between a production's executable result and its
/// specification: an equal node view with the cursor one past the
/// production, or exactly the specified error.
pub open spec fn production_post(
    r: Result<Node, ParserError>,
    sr: Result<(NodeView, int), ParserErrorView>,
    newcur: int,
) -> bool {
    match sr {
        Ok((nv, nc)) => r matches Ok(n) && n.deep_view() == nv && newcur == nc,
        Err(ev) => r matches Err(e) && e.deep_view() == ev,
    }
}

/// The mathematical value of a [`Parser`]: the token views of its stream
/// and the cursor.
pub struct ParserView {
    pub tokens: Seq<TokenView>,
    pub current: int,
}

/// The recursive-descent parser over a finalized token stream.
pub struct Parser {
    tokens: TokenStream,
    pub current: usize,
}

impl View for Parser {
    type V = ParserView;

    closed spec fn view(&self) -> ParserView {
        ParserView { tokens: self.tokens@, current: self.current as int }
    }
}

/// The view of a token result, for stating contracts of cursor helpers.
pub open spec fn spec_token_result_view(r: Result<Token, ParserError>) -> Result<
    TokenView,
    ParserErrorView,
> {
    match r {
        Ok(t) => Ok(t@),
        Err(e) => Err(e.deep_view()),
    }
}

impl Parser {
    /// A parser over the given stream, with the cursor at the start.
    pub fn new(tokens: TokenStream) -> (p: Self)
        ensures
            p@ == (ParserView { tokens: tokens@, current: 0 }),
    {
        Parser { tokens, current: 0 }
    }

    /// The token at the cursor.
    pub fn peek(&self) -> (r: Result<Token, ParserError>)
        ensures
            spec_token_result_view(r) == spec_peek(self@.tokens, self@.current),
    {
        self.peek_at(0)
    }

    /// The token one past the cursor.
    pub fn peek_next(&self) -> (r: Result<Token, ParserError>)
        ensures
            spec_token_result_view(r) == spec_peek_at(self@.tokens, self@.current, 1),
    {
        self.peek_at(1)
    }

    /// The token one before the cursor.
    pub fn peek_previous(&self) -> (r: Result<Token, ParserError>)
        ensures
            spec_token_result_view(r) == spec_peek_at(self@.tokens, self@.current, -1),
    {
        self.peek_at(-1)
    }

    /// The `count` tokens from the cursor on, or the first failing access.
    pub fn peek_sequence(&self, count: usize) -> (r: Result<Vec<Token>, ParserError>)
        requires
            count <= isize::MAX as usize,
        ensures
            match spec_peek_sequence(self@.tokens, self@.current, count as int) {
                Ok(ts) => r matches Ok(v) && v.deep_view() == ts,
                Err(ev) => r matches Err(e) && e.deep_view() == ev,
            },
    {
        let mut out: Vec<Token> = Vec::new();
        let mut i: usize = 0;
        proof {
            assert(out.deep_view() =~= Seq::<TokenView>::empty());
            assert(spec_peek_sequence(self@.tokens, self@.current, 0) == Ok::<
                Seq<TokenView>,
                ParserErrorView,
            >(Seq::empty()));
        }
        while i < count
            invariant
                0 <= i <= count,
                count <= isize::MAX as usize,
                spec_peek_sequence(self@.tokens, self@.current, i as int) == Ok::<
                    Seq<TokenView>,
                    ParserErrorView,
                >(out.deep_view()),
            decreases count - i,
        {
            let t = match self.peek_at(i as isize) {
                Ok(t) => t,
                Err(e) => {
                    proof {
                        assert(spec_peek_at(self@.tokens, self@.current, i as int) == Err::<
                            TokenView,
                            ParserErrorView,
                        >(e.deep_view()));
                        assert(spec_peek_sequence(self@.tokens, self@.current, i + 1) == Err::<
                            Seq<TokenView>,
                            ParserErrorView,
                        >(e.deep_view()));
                        lemma_peek_sequence_err(self@.tokens, self@.current, i + 1, count as int);
                    }
                    return Err(e);
                },
            };
            let ghost before = out.deep_view();
            out.push(t);
            proof {
                assert(out.deep_view() =~= before.push(t@));
            }
            i = i + 1;
        }
        Ok(out)
    }

    /// The token at signed offset `offset` from the cursor.
    pub fn peek_at(&self, offset: isize) -> (r: Result<Token, ParserError>)
        ensures
            spec_token_result_view(r) == spec_peek_at(self@.tokens, self@.current, offset as int),
    {
        let index: i128 = self.current as i128 + offset as i128;
        let n = self.tokens.len();
        if index < 0 {
            if n == 0 {
                Err(ParserError::EmptyTokenStream)
            } else {
                Err(ParserError::AtEndOfStream)
            }
        } else if index > usize::MAX as i128 {
            // The position is past any possible stream length, and cannot
            // lie before the cursor either.
            proof {
                assert(index >= self@.tokens.len());
                assert(index >= self@.current);
            }
            if n == 0 {
                Err(ParserError::EmptyTokenStream)
            } else {
                Err(ParserError::AtEndOfStream)
            }
        } else {
            self.item_at(index as usize)
        }
    }

    /// The token at absolute position `index`, or the out-of-range error
    /// that best describes the access.
    pub fn item_at(&self, index: usize) -> (r: Result<Token, ParserError>)
        ensures
            spec_token_result_view(r) == spec_item_at(self@.tokens, self@.current, index as int),
    {
        match self.tokens.get(index) {
            Some(token) => Ok(token.clone()),
            None => {
                let error = if self.tokens.len() == 0 {
                    ParserError::EmptyTokenStream
                } else if index < self.current {
                    ParserError::AtBeginningOfStream
                } else {
                    ParserError::AtEndOfStream
                };
                Err(error)
            },
        }
    }

    /// Whether the cursor rests on the last token of the stream (or
    /// beyond).
    pub fn is_at_end(&self) -> (r: bool)
        ensures
            r == spec_is_at_end(self@.tokens, self@.current),
    {
        let n = self.tokens.len();
        if self.current >= n {
            true
        } else {
            self.current + 1 >= n
        }
    }

    /// Steps the cursor forward by one and returns the token stepped over;
    /// an error when the cursor is already at the end.
    pub fn advance(&mut self) -> (r: Result<Token, ParserError>)
        ensures
            final(self)@.tokens == old(self)@.tokens,
            spec_token_result_view(r) == match spec_advance(old(self)@.tokens, old(self)@.current) {
                Ok((t, _)) => Ok::<TokenView, ParserErrorView>(t),
                Err(e) => Err::<TokenView, ParserErrorView>(e),
            },
            match spec_advance(old(self)@.tokens, old(self)@.current) {
                Ok((_, nc)) => final(self)@.current == nc,
                Err(_) => final(self)@.current == old(self)@.current,
            },
    {
        if self.is_at_end() {
            return Err(ParserError::AtEndOfStream);
        }
        let _stream_len = self.tokens.len();
        proof {
            assert(self@.current + 1 < _stream_len);
        }
        self.current = self.current + 1;
        self.peek_previous()
    }

    /// Steps the cursor backward by `steps` and returns the token one past
    /// the new cursor; an error when that would move before the start.
    pub fn backtrack(&mut self, steps: usize) -> (r: Result<Token, ParserError>)
        ensures
            final(self)@.tokens == old(self)@.tokens,
            old(self)@.current < steps ==> (r matches Err(e)
                && e.deep_view() == ParserErrorView::AtBeginningOfStream && final(self)@.current
                == old(self)@.current),
            old(self)@.current >= steps ==> (final(self)@.current == old(self)@.current - steps
                && spec_token_result_view(r) == spec_peek_at(
                old(self)@.tokens,
                old(self)@.current - steps,
                1,
            )),
    {
        if self.current < steps {
            return Err(ParserError::AtBeginningOfStream);
        }
        self.current = self.current - steps;
        self.peek_next()
    }

    /// Whether the token types from the cursor on match `types`; an error
    /// when an access fails first.
    pub fn lookahead(&self, types: &[TokenType]) -> (r: Result<bool, ParserError>)
        requires
            types@.len() <= isize::MAX as int,
        ensures
            match spec_lookahead_from(self@.tokens, self@.current, types@, 0) {
                Ok(b) => r matches Ok(rb) && rb == b,
                Err(ev) => r matches Err(e) && e.deep_view() == ev,
            },
    {
        let n = types.len();
        let mut i: usize = 0;
        while i < n
            invariant
                0 <= i <= n,
                n == types@.len(),
                n <= isize::MAX as usize,
                spec_lookahead_from(self@.tokens, self@.current, types@, 0)
                    == spec_lookahead_from(self@.tokens, self@.current, types@, i as int),
            decreases n - i,
        {
            let t = match self.peek_at(i as isize) {
                Ok(t) => t,
                Err(e) => {
                    return Err(e);
                },
            };
            if t.token_type != types[i] {
                return Ok(false);
            }
            i = i + 1;
        }
        Ok(true)
    }

    /// Consumes one token of the expected type and returns it; an error
    /// naming the found token and the expected type otherwise, with the
    /// cursor left where it was.
    pub fn consume(&mut self, token_type: TokenType) -> (r: Result<Token, ParserError>)
        ensures
            final(self)@.tokens == old(self)@.tokens,
            match spec_consume(old(self)@.tokens, old(self)@.current, token_type) {
                Ok((t, nc)) => spec_token_result_view(r) == Ok::<TokenView, ParserErrorView>(t)
                    && final(self)@.current == nc,
                Err(ev) => (r matches Err(e) && e.deep_view() == ev && final(self)@.current == old(
                    self,
                )@.current),
            },
    {
        let token = match self.peek() {
            Ok(t) => t,
            Err(e) => {
                return Err(e);
            },
        };
        if !token.is_token_type(token_type) {
            return Err(ParserError::ExpectedTokenType(token, token_type));
        }
        match self.advance() {
            Ok(_) => Ok(token),
            Err(e) => Err(e),
        }
    }

    /// Consumes tokens until one of type `end_type` (or the end of the
    /// stream) is at the cursor, returning the consumed tokens in order.
    pub fn consume_until(&mut self, end_type: TokenType) -> (r: Result<Vec<Token>, ParserError>)
        ensures
            final(self)@.tokens == old(self)@.tokens,
            r matches Ok(v) && v.deep_view() == spec_consume_until(
                old(self)@.tokens,
                old(self)@.current,
                end_type,
            ).0 && final(self)@.current == spec_consume_until(
                old(self)@.tokens,
                old(self)@.current,
                end_type,
            ).1,
    {
        let ghost toks = self@.tokens;
        let ghost cur0 = self@.current as int;
        let mut consumed: Vec<Token> = Vec::new();
        proof {
            assert(consumed.deep_view() =~= Seq::<TokenView>::empty());
        }
        while !self.is_at_end() && !self.peek_is(end_type)
            invariant
                self@.tokens == toks,
                0 <= self@.current,
                ({
                    let full = spec_consume_until(toks, cur0, end_type);
                    let rest = spec_consume_until(toks, self@.current as int, end_type);
                    full.0 == consumed.deep_view() + rest.0 && full.1 == rest.1
                }),
            decreases toks.len() - self@.current,
        {
            let ghost cur = self@.current as int;
            let ghost before = consumed.deep_view();
            let token = match self.advance() {
                Ok(t) => t,
                Err(e) => {
                    proof {
                        assert(false);
                    }
                    return Err(e);
                },
            };
            consumed.push(token);
            proof {
                let rest = spec_consume_until(toks, cur + 1, end_type);
                assert(consumed.deep_view() =~= before.push(toks[cur]));
                assert(before.push(toks[cur]) + rest.0 =~= before + (seq![toks[cur]] + rest.0));
            }
        }
        proof {
            let rest = spec_consume_until(toks, self@.current as int, end_type);
            assert(rest.0 =~= Seq::<TokenView>::empty());
            assert(consumed.deep_view() + rest.0 =~= consumed.deep_view());
        }
        Ok(consumed)
    }

    /// Whether the token at the cursor has the given type; false when the
    /// access fails.
    fn peek_is(&self, token_type: TokenType) -> (r: bool)
        ensures
            r == match spec_peek(self@.tokens, self@.current) {
                Ok(t) => t.token_type == token_type,
                Err(_) => false,
            },
    {
        match self.peek() {
            Ok(t) => t.is_token_type(token_type),
            Err(_) => false,
        }
    }

    /// Parses the whole stream: while the cursor is not at the end-of-input
    /// token, one production per step, appending each node to the tree's
    /// root list.  The first failing production aborts the parse; no partial
    /// node is returned.
    pub fn parse(&mut self) -> (r: Result<Ast, ParserError>)
        ensures
            final(self)@.tokens == old(self)@.tokens,
            match spec_parse_from(old(self)@.tokens, old(self)@.current) {
                Ok(nvs) => r matches Ok(ast) && ast.deep_view() == nvs,
                Err(ev) => r matches Err(e) && e.deep_view() == ev,
            },
    {
        let ghost toks = self@.tokens;
        let ghost cur0 = self@.current as int;
        let mut ast = Ast::new();
        proof {
            let sr = spec_parse_from(toks, cur0);
            match sr {
                Ok(rest) => {
                    assert(ast.deep_view() + rest =~= rest);
                },
                Err(_) => {},
            }
        }
        while !self.is_at_end()
            invariant
                self@.tokens == toks,
                toks == old(self)@.tokens,
                cur0 == old(self)@.current,
                0 <= self@.current,
                match spec_parse_from(toks, self@.current as int) {
                    Ok(rest) => spec_parse_from(toks, cur0) == Ok::<
                        Seq<NodeView>,
                        ParserErrorView,
                    >(ast.deep_view() + rest),
                    Err(e) => spec_parse_from(toks, cur0) == Err::<Seq<NodeView>, ParserErrorView>(
                        e,
                    ),
                },
            decreases toks.len() - self@.current,
        {
            let ghost cur = self@.current as int;
            let ghost before = ast.deep_view();
            let node = match self.next_node() {
                Ok(n) => n,
                Err(e) => {
                    return Err(e);
                },
            };
            ast.add_node(node);
            proof {
                lemma_next_node_progress(toks, cur);
                let (nv, nc) = spec_next_node(toks, cur)->Ok_0;
                match spec_parse_from(toks, nc) {
                    Ok(rest) => {
                        assert(before.push(nv) + rest =~= before + (seq![nv] + rest));
                    },
                    Err(_) => {},
                }
            }
        }
        proof {
            assert(spec_parse_from(toks, self@.current as int) == Ok::<
                Seq<NodeView>,
                ParserErrorView,
            >(Seq::empty()));
            assert(ast.deep_view() + Seq::<NodeView>::empty() =~= ast.deep_view());
        }
        Ok(ast)
    }

    /// Dispatches on the token at the cursor to one production, with one
    /// token of lookahead after `<`, and returns the produced node with the
    /// cursor one past the production's last token.
    pub fn next_node(&mut self) -> (r: Result<Node, ParserError>)
        ensures
            final(self)@.tokens == old(self)@.tokens,
            production_post(
                r,
                spec_next_node(old(self)@.tokens, old(self)@.current),
                final(self)@.current,
            ),
    {
        let token = self.peek()?;
        match token.token_type {
            TokenType::LeftAngle => {
                let next = self.peek_next()?;
                if next.is_token_type(TokenType::Bang) {
                    self.html_doctype()
                } else if next.is_token_type(TokenType::Text) {
                    self.html_tag()
                } else {
                    Err(ParserError::UnexpectedToken(next))
                }
            },
            TokenType::LeftAngleBangDashDash => self.html_comment(),
            TokenType::LeftBracePercent => self.django_block(),
            TokenType::DoubleLeftBrace => self.django_variable(),
            TokenType::LeftBraceHash => self.django_comment(),
            TokenType::Text => {
                let node = self.text()?;
                match self.advance() {
                    Ok(_) => Ok(node),
                    Err(e) => Err(e),
                }
            },
            TokenType::Eof => Err(ParserError::AtEndOfStream),
            _ => Err(ParserError::UnexpectedToken(token)),
        }
    }

    /// The tag production.
    pub fn html_tag(&mut self) -> (r: Result<Node, ParserError>)
        ensures
            final(self)@.tokens == old(self)@.tokens,
            production_post(
                r,
                spec_html_tag(old(self)@.tokens, old(self)@.current),
                final(self)@.current,
            ),
    {
        self.consume(TokenType::LeftAngle)?;
        let tag = match self.consume(TokenType::Text) {
            Ok(t) => t.lexeme,
            Err(e) => {
                return Err(e);
            },
        };
        let attributes = match self.parse_attributes() {
            Ok(a) => a,
            Err(e) => {
                return Err(e);
            },
        };
        let t = self.peek()?;
        let node = if t.is_token_type(TokenType::SlashRightAngle) {
            self.consume(TokenType::SlashRightAngle)?;
            match Node::new_html_void_element(tag, Some(attributes)) {
                Ok(n) => n,
                Err(e) => {
                    return Err(ParserError::NodeError(e));
                },
            }
        } else {
            self.consume(TokenType::RightAngle)?;
            match Node::new_html_element(tag, Some(attributes), None) {
                Ok(n) => n,
                Err(e) => {
                    return Err(ParserError::NodeError(e));
                },
            }
        };
        Ok(node)
    }

    /// The attribute production, used only inside the tag production.
    pub fn parse_attributes(&mut self) -> (r: Result<Vec<(String, AttributeValue)>, ParserError>)
        ensures
            final(self)@.tokens == old(self)@.tokens,
            match spec_parse_attributes(old(self)@.tokens, old(self)@.current) {
                Ok((attrs, nc)) => r matches Ok(v) && v.deep_view() == attrs && final(self)@.current
                    == nc,
                Err(ev) => r matches Err(e) && e.deep_view() == ev,
            },
    {
        let ghost toks = self@.tokens;
        let ghost cur0 = self@.current as int;
        let mut attributes: Vec<(String, AttributeValue)> = Vec::new();
        proof {
            match spec_parse_attributes(toks, cur0) {
                Ok((rest, _)) => {
                    assert(attributes.deep_view() + rest =~= rest);
                },
                Err(_) => {},
            }
        }
        loop
            invariant
                self@.tokens == toks,
                toks == old(self)@.tokens,
                cur0 == old(self)@.current,
                0 <= self@.current,
                match spec_parse_attributes(toks, self@.current as int) {
                    Ok((rest, nc)) => spec_parse_attributes(toks, cur0) == Ok::<
                        (Seq<(Seq<char>, AttributeValueView)>, int),
                        ParserErrorView,
                    >((attributes.deep_view() + rest, nc)),
                    Err(e) => spec_parse_attributes(toks, cur0) == Err::<
                        (Seq<(Seq<char>, AttributeValueView)>, int),
                        ParserErrorView,
                    >(e),
                },
            decreases toks.len() - self@.current,
        {
            let ghost cur = self@.current as int;
            let ghost before = attributes.deep_view();
            let tok = match self.peek() {
                Ok(t) => t,
                Err(e) => {
                    return Err(e);
                },
            };
            if !tok.is_token_type(TokenType::Text) {
                proof {
                    assert(attributes.deep_view() + Seq::<
                        (Seq<char>, AttributeValueView),
                    >::empty() =~= attributes.deep_view());
                }
                return Ok(attributes);
            }
            let name = match self.consume(TokenType::Text) {
                Ok(t) => t.lexeme,
                Err(e) => {
                    return Err(e);
                },
            };
            let ghost c1 = self@.current as int;
            let t2 = match self.peek() {
                Ok(t) => t,
                Err(e) => {
                    return Err(e);
                },
            };
            let value = if t2.is_token_type(TokenType::Equal) {
                match self.consume(TokenType::Equal) {
                    Ok(_) => (),
                    Err(e) => {
                        return Err(e);
                    },
                };
                let ghost c2 = self@.current as int;
                proof {
                    lemma_attribute_value_advances(toks, c2);
                }
                let v = match self.parse_attribute_value() {
                    Ok(v) => v,
                    Err(e) => {
                        return Err(e);
                    },
                };
                AttributeValue::Value(v)
            } else {
                AttributeValue::Boolean
            };
            let ghost pair_view = (name@, value.deep_view());
            attributes.push((name, value));
            proof {
                assert(attributes.deep_view() =~= before.push(pair_view));
                lemma_parse_attributes_bounds(toks, self@.current as int);
                match spec_parse_attributes(toks, self@.current as int) {
                    Ok((rest, _)) => {
                        assert(before.push(pair_view) + rest =~= before + (seq![pair_view] + rest));
                    },
                    Err(_) => {},
                }
            }
        }
    }

    /// The attribute-value production: a quoted run of tokens concatenated
    /// with no separator, or a single bare text token.
    pub fn parse_attribute_value(&mut self) -> (r: Result<String, ParserError>)
        ensures
            final(self)@.tokens == old(self)@.tokens,
            match spec_parse_attribute_value(old(self)@.tokens, old(self)@.current) {
                Ok((s, nc)) => r matches Ok(v) && v@ == s && final(self)@.current == nc,
                Err(ev) => r matches Err(e) && e.deep_view() == ev,
            },
    {
        let tok = self.peek()?;
        if tok.is_token_type(TokenType::SingleQuote) || tok.is_token_type(TokenType::DoubleQuote) {
            let quote = match self.advance() {
                Ok(t) => t,
                Err(e) => {
                    return Err(e);
                },
            };
            let value = match self.consume_until(quote.token_type) {
                Ok(v) => v,
                Err(e) => {
                    return Err(e);
                },
            };
            match self.consume(quote.token_type) {
                Ok(_) => (),
                Err(e) => {
                    return Err(e);
                },
            };
            let mut out = String::new();
            let n = value.len();
            let mut i: usize = 0;
            proof {
                assert(value.deep_view().take(0) =~= Seq::<TokenView>::empty());
            }
            while i < n
                invariant
                    0 <= i <= n,
                    n == value@.len(),
                    value.deep_view().len() == n,
                    out@ == spec_concat_lexemes(value.deep_view().take(i as int)),
                decreases n - i,
            {
                out.append(value[i].lexeme.as_str());
                proof {
                    let dv = value.deep_view();
                    assert(dv[i as int] == value@[i as int]@);
                    assert(dv.take(i + 1).drop_last() =~= dv.take(i as int));
                    assert(dv.take(i + 1).last() == dv[i as int]);
                }
                i = i + 1;
            }
            proof {
                assert(value.deep_view().take(n as int) =~= value.deep_view());
            }
            Ok(out)
        } else {
            match self.consume(TokenType::Text) {
                Ok(t) => Ok(t.lexeme),
                Err(e) => Err(e),
            }
        }
    }

    /// The comment production.
    pub fn html_comment(&mut self) -> (r: Result<Node, ParserError>)
        ensures
            final(self)@.tokens == old(self)@.tokens,
            production_post(
                r,
                spec_html_comment(old(self)@.tokens, old(self)@.current),
                final(self)@.current,
            ),
    {
        self.consume(TokenType::LeftAngleBangDashDash)?;
        let content = match self.consume_until(TokenType::DashDashRightAngle) {
            Ok(v) => v,
            Err(e) => {
                return Err(e);
            },
        };
        let node = match Node::new_html_comment(content.to_string()) {
            Ok(n) => n,
            Err(e) => {
                proof {
                    assert(false);
                }
                return Err(ParserError::NodeError(e));
            },
        };
        self.consume(TokenType::DashDashRightAngle)?;
        Ok(node)
    }

    /// The doctype production.
    pub fn html_doctype(&mut self) -> (r: Result<Node, ParserError>)
        ensures
            final(self)@.tokens == old(self)@.tokens,
            production_post(
                r,
                spec_html_doctype(old(self)@.tokens, old(self)@.current),
                final(self)@.current,
            ),
    {
        self.consume(TokenType::LeftAngle)?;
        self.consume(TokenType::Bang)?;
        self.consume(TokenType::Text)?;
        let content = match self.consume_until(TokenType::RightAngle) {
            Ok(v) => v,
            Err(e) => {
                return Err(e);
            },
        };
        let node = match Node::new_html_doctype(content.to_string()) {
            Ok(n) => n,
            Err(e) => {
                proof {
                    assert(false);
                }
                return Err(ParserError::NodeError(e));
            },
        };
        self.consume(TokenType::RightAngle)?;
        Ok(node)
    }

    /// The block production.
    pub fn django_block(&mut self) -> (r: Result<Node, ParserError>)
        ensures
            final(self)@.tokens == old(self)@.tokens,
            production_post(
                r,
                spec_django_block(old(self)@.tokens, old(self)@.current),
                final(self)@.current,
            ),
    {
        self.consume(TokenType::LeftBracePercent)?;
        let content = match self.consume_until(TokenType::PercentRightBrace) {
            Ok(v) => v,
            Err(e) => {
                return Err(e);
            },
        };
        self.consume(TokenType::PercentRightBrace)?;

        if content.len() == 0 {
            return Err(ParserError::NodeError(NodeError::NoBlockName));
        }
        let name = content[0].lexeme.clone();
        let arguments: Option<Vec<String>> = if content.len() > 1 {
            let mut args: Vec<String> = Vec::new();
            let n = content.len();
            let mut i: usize = 1;
            while i < n
                invariant
                    1 <= i <= n,
                    n == content@.len(),
                    args@.len() == i - 1,
                    forall|j: int| 0 <= j < i - 1 ==> #[trigger] args.deep_view()[j]
                        == content.deep_view()[j + 1].lexeme,
                decreases n - i,
            {
                let ghost abefore = args.deep_view();
                args.push(content[i].lexeme.clone());
                proof {
                    assert(args.deep_view() =~= abefore.push(content@[i as int]@.lexeme));
                }
                i = i + 1;
            }
            proof {
                assert(args.deep_view() =~= spec_block_arguments(content.deep_view()));
            }
            Some(args)
        } else {
            None
        };
        let node = match Node::new_django_block(name, arguments, None) {
            Ok(n) => n,
            Err(e) => {
                return Err(ParserError::NodeError(e));
            },
        };
        Ok(node)
    }

    /// The variable production.
    pub fn django_variable(&mut self) -> (r: Result<Node, ParserError>)
        ensures
            final(self)@.tokens == old(self)@.tokens,
            production_post(
                r,
                spec_django_variable(old(self)@.tokens, old(self)@.current),
                final(self)@.current,
            ),
    {
        self.consume(TokenType::DoubleLeftBrace)?;
        let content = match self.consume_until(TokenType::DoubleRightBrace) {
            Ok(v) => v,
            Err(e) => {
                return Err(e);
            },
        };
        let node = match Node::new_django_variable(content.to_string()) {
            Ok(n) => n,
            Err(e) => {
                proof {
                    assert(false);
                }
                return Err(ParserError::NodeError(e));
            },
        };
        self.consume(TokenType::DoubleRightBrace)?;
        Ok(node)
    }

    /// The template-comment production.
    pub fn django_comment(&mut self) -> (r: Result<Node, ParserError>)
        ensures
            final(self)@.tokens == old(self)@.tokens,
            production_post(
                r,
                spec_django_comment(old(self)@.tokens, old(self)@.current),
                final(self)@.current,
            ),
    {
        self.consume(TokenType::LeftBraceHash)?;
        let content = match self.consume_until(TokenType::HashRightBrace) {
            Ok(v) => v,
            Err(e) => {
                return Err(e);
            },
        };
        let node = match Node::new_django_comment(content.to_string()) {
            Ok(n) => n,
            Err(e) => {
                proof {
                    assert(false);
                }
                return Err(ParserError::NodeError(e));
            },
        };
        self.consume(TokenType::HashRightBrace)?;
        Ok(node)
    }

    /// The text production: the token at the cursor becomes a text node
    /// verbatim; the cursor is not moved here.
    pub fn text(&self) -> (r: Result<Node, ParserError>)
        ensures
            match spec_peek(self@.tokens, self@.current) {
                Ok(t) => r matches Ok(n) && n.deep_view() == NodeView::Text(t.lexeme),
                Err(ev) => r matches Err(e) && e.deep_view() == ev,
            },
    {
        let token = self.peek()?;
        let node = match Node::new_text(token.lexeme) {
            Ok(n) => n,
            Err(e) => {
                proof {
                    assert(false);
                }
                return Err(ParserError::NodeError(e));
            },
        };
        Ok(node)
    }

    /// Skips forward to the first token whose type is one of `sync_types`,
    /// or to the end of the stream: the building block for a caller that
    /// wants best-effort recovery after a parse error.
    pub fn synchronize(&mut self, sync_types: &[TokenType]) -> (r: Result<(), ParserError>)
        ensures
            final(self)@.tokens == old(self)@.tokens,
            r matches Ok(u) && u == (),
            final(self)@.current == spec_synchronize(
                old(self)@.tokens,
                old(self)@.current,
                sync_types@,
            ),
    {
        let ghost toks = self@.tokens;
        while !self.is_at_end()
            invariant
                self@.tokens == toks,
                toks == old(self)@.tokens,
                0 <= self@.current,
                spec_synchronize(toks, old(self)@.current as int, sync_types@)
                    == spec_synchronize(toks, self@.current as int, sync_types@),
            decreases toks.len() - self@.current,
        {
            let token = match self.peek() {
                Ok(t) => t,
                Err(e) => {
                    proof {
                        assert(false);
                    }
                    return Err(e);
                },
            };
            if slice_contains(sync_types, token.token_type) {
                proof {
                    assert(spec_synchronize(toks, self@.current as int, sync_types@)
                        == self@.current as int);
                }
                return Ok(());
            }
            match self.advance() {
                Ok(_) => (),
                Err(e) => {
                    proof {
                        assert(false);
                    }
                    return Err(e);
                },
            }
        }
        Ok(())
    }
}

/// Whether a slice of token types holds the given type.
fn slice_contains(types: &[TokenType], t: TokenType) -> (r: bool)
    ensures
        r == types@.contains(t),
{
    let n = types.len();
    let mut i: usize = 0;
    while i < n
        invariant
            0 <= i <= n,
            n == types@.len(),
            forall|j: int| 0 <= j < i ==> types@[j] != t,
        decreases n - i,
    {
        if types[i] == t {
            return true;
        }
        i = i + 1;
    }
    proof {
        assert(!types@.contains(t));
    }
    false
}

/// Peeking `count` tokens fails exactly as peeking any larger count does,
/// once the first `k` accesses contain a failure.
proof fn lemma_peek_sequence_err(toks: Seq<TokenView>, cur: int, k: int, count: int)
    requires
        0 < k <= count,
        spec_peek_sequence(toks, cur, k) is Err,
    ensures
        spec_peek_sequence(toks, cur, count) == spec_peek_sequence(toks, cur, k),
    decreases count - k,
{
    if k < count {
        lemma_peek_sequence_err(toks, cur, k + 1, count);
    }
}

/// Parsing is a pure function of the token stream: the stream is read-only,
/// and two parses of the same stream yield structurally equal results —
/// equal trees on success, equal errors on failure.  Together with
/// [`Parser::parse`]'s contract, which pins its result to [`spec_parse`] of
/// the stream's views, this makes re-parsing idempotent.
pub proof fn lemma_parse_deterministic(
    toks: Seq<TokenView>,
    r1: Result<Seq<NodeView>, ParserErrorView>,
    r2: Result<Seq<NodeView>, ParserErrorView>,
)
    requires
        r1 == spec_parse(toks),
        r2 == spec_parse(toks),
    ensures
        r1 == r2,
{
}

} // verus!
