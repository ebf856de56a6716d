//! The error taxonomies of the two pipeline stages, plus the errors of the
//! token and syntax-tree layers.  Each enumeration is closed; a value carries
//! enough context (character, line, offending token) for a caller to render a
//! precise diagnostic.
use vstd::prelude::*;

use crate::token::{Token, TokenType, TokenView};

verus! {

/// Errors raised while scanning source text.
#[derive(Debug)]
pub enum LexerError {
    /// A text scan produced a zero-width lexeme.
    EmptyToken { line: usize },
    /// A character for which no scanning rule applies.
    UnexpectedCharacter { character: char, line: usize },
    /// The source buffer is empty.
    EmptySource,
    /// A cursor access before the start of the source.
    AtBeginningOfSource,
    /// A cursor access past the end of the source.
    AtEndOfSource,
    /// A cursor access that is out of range for another reason.
    InvalidCharacterAccess,
    /// A token type that no lexeme-extraction rule covers.
    UnexpectedTokenType(TokenType),
    /// A token-layer error, carried through.
    TokenError(TokenError),
}

/// Errors raised while constructing syntax-tree nodes.
#[derive(Debug, Clone, Copy, PartialEq, Eq, Structural)]
pub enum NodeError {
    /// An element was given an empty tag name.
    NoTagName,
    /// A templating block was given no name token.
    NoBlockName,
}

/// Errors raised while parsing a token stream.
#[derive(Debug)]
pub enum ParserError {
    /// The token stream holds no tokens at all.
    EmptyTokenStream,
    /// A cursor access before the start of the stream.
    AtBeginningOfStream,
    /// A cursor access past the end of the stream.
    AtEndOfStream,
    /// A cursor access that is out of range for another reason.
    InvalidTokenAccess,
    /// The found token (first field) did not have the expected type (second
    /// field).
    ExpectedTokenType(Token, TokenType),
    /// A token for which no production rule applies.
    UnexpectedToken(Token),
    /// A node-construction error, carried through.
    NodeError(NodeError),
}

/// Errors of the token layer.
#[derive(Debug)]
pub enum TokenError {
    /// A character that maps to no token type.
    UnexpectedCharacter { character: char },
    /// A string that matches no token rule.
    NoTokenMatch,
    /// Input ended where a string literal was expected.
    UnexpectedEndOfInput,
    /// The token type has no fixed size.
    DynamicTokenSize,
}

/// The mathematical value of a [`ParserError`]: token payloads are replaced by
/// their views so that contracts can state error results exactly.
pub enum ParserErrorView {
    EmptyTokenStream,
    AtBeginningOfStream,
    AtEndOfStream,
    InvalidTokenAccess,
    ExpectedTokenType(TokenView, TokenType),
    UnexpectedToken(TokenView),
    NodeError(NodeError),
}

impl DeepView for ParserError {
    type V = ParserErrorView;

    open spec fn deep_view(&self) -> ParserErrorView {
        match self {
            ParserError::EmptyTokenStream => ParserErrorView::EmptyTokenStream,
            ParserError::AtBeginningOfStream => ParserErrorView::AtBeginningOfStream,
            ParserError::AtEndOfStream => ParserErrorView::AtEndOfStream,
            ParserError::InvalidTokenAccess => ParserErrorView::InvalidTokenAccess,
            ParserError::ExpectedTokenType(t, tt) => ParserErrorView::ExpectedTokenType(t@, *tt),
            ParserError::UnexpectedToken(t) => ParserErrorView::UnexpectedToken(t@),
            ParserError::NodeError(e) => ParserErrorView::NodeError(*e),
        }
    }
}

} // verus!
