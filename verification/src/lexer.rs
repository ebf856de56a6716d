//! The lexical scanner: transforms a text buffer into a [`TokenStream`], one
//! token per step, tracking a character cursor and the current 1-based line.
//!
//! The scanning state machine is specified by [`spec_scan_from`]: a function
//! from the source characters, cursor and line to the exact token sequence
//! the scanner produces.  [`Lexer::tokenize`] is proved to return precisely
//! that sequence.
use vstd::prelude::*;
use vstd::string::StrSliceExecFns;

use crate::error::LexerError;
use crate::token::{
    spec_line_breaks, Token, TokenStream, TokenType, TokenView,
};

verus! {

/// The whitespace characters: space, tab, carriage return, line feed.
pub open spec fn is_ws_char(c: char) -> bool {
    c == ' ' || c == '\t' || c == '\r' || c == '\n'
}

/// The token-boundary characters: any of these ends a text run and
/// potentially starts a new token.
pub open spec fn is_boundary_char(c: char) -> bool {
    is_ws_char(c) || c == '(' || c == ')' || c == '[' || c == ']' || c == '{' || c == '}' || c
        == ',' || c == '.' || c == '-' || c == '+' || c == ':' || c == ';' || c == '*' || c == '|'
        || c == '%' || c == '#' || c == '!' || c == '=' || c == '<' || c == '>' || c == '/' || c
        == '"' || c == '\''
}

/// The character at position `i`, or the NUL sentinel when `i` is out of
/// range.
pub open spec fn char_at(src: Seq<char>, i: int) -> char {
    if 0 <= i < src.len() {
        src[i]
    } else {
        '\0'
    }
}

/// The token type selected by the per-character dispatch at position `pos`,
/// looking at most three characters past the cursor.  Meaningful when
/// `0 <= pos < src.len()`.
pub open spec fn spec_token_type_at(src: Seq<char>, pos: int) -> TokenType {
    let c = char_at(src, pos);
    let c1 = char_at(src, pos + 1);
    let c2 = char_at(src, pos + 2);
    let c3 = char_at(src, pos + 3);
    if c == ',' {
        TokenType::Comma
    } else if c == '.' {
        TokenType::Dot
    } else if c == '+' {
        TokenType::Plus
    } else if c == ':' {
        TokenType::Colon
    } else if c == '|' {
        TokenType::Pipe
    } else if c == '\'' {
        TokenType::SingleQuote
    } else if c == '"' {
        TokenType::DoubleQuote
    } else if c == ';' {
        TokenType::Semicolon
    } else if c == '(' {
        TokenType::LeftParen
    } else if c == ')' {
        TokenType::RightParen
    } else if c == '[' {
        TokenType::LeftBracket
    } else if c == ']' {
        TokenType::RightBracket
    } else if c == '{' {
        if c1 == '{' {
            TokenType::DoubleLeftBrace
        } else if c1 == '%' {
            TokenType::LeftBracePercent
        } else if c1 == '#' {
            TokenType::LeftBraceHash
        } else {
            TokenType::Text
        }
    } else if c == '}' {
        if c1 == '}' {
            TokenType::DoubleRightBrace
        } else {
            TokenType::Text
        }
    } else if c == '%' {
        if c1 == '}' {
            TokenType::PercentRightBrace
        } else {
            TokenType::Percent
        }
    } else if c == '#' {
        if c1 == '}' {
            TokenType::HashRightBrace
        } else {
            TokenType::Text
        }
    } else if c == '!' {
        if c1 == '=' {
            TokenType::BangEqual
        } else {
            TokenType::Bang
        }
    } else if c == '=' {
        if c1 == '=' {
            TokenType::DoubleEqual
        } else {
            TokenType::Equal
        }
    } else if c == '<' {
        if c1 == '=' {
            TokenType::LeftAngleEqual
        } else if c1 == '!' && c2 == '-' && c3 == '-' {
            TokenType::LeftAngleBangDashDash
        } else {
            TokenType::LeftAngle
        }
    } else if c == '>' {
        if c1 == '=' {
            TokenType::RightAngleEqual
        } else {
            TokenType::RightAngle
        }
    } else if c == '/' {
        if c1 == '>' {
            TokenType::SlashRightAngle
        } else if c1 == '/' {
            TokenType::DoubleSlash
        } else if c1 == '*' {
            TokenType::SlashStar
        } else {
            TokenType::Slash
        }
    } else if c == '-' {
        if c1 == '-' && c2 == '>' {
            TokenType::DashDashRightAngle
        } else if c1 == '-' {
            TokenType::Text
        } else {
            TokenType::Dash
        }
    } else if c == '*' {
        if c1 == '/' {
            TokenType::StarSlash
        } else {
            TokenType::Star
        }
    } else if is_ws_char(c) {
        TokenType::Whitespace
    } else {
        TokenType::Text
    }
}

/// The end of the whitespace run that starts at `i`: the first position at
/// or after `i` holding a non-whitespace character, capped at the length.
pub open spec fn spec_ws_end(src: Seq<char>, i: int) -> int
    decreases src.len() - i,
    when 0 <= i <= src.len()
{
    if i >= src.len() {
        i
    } else if is_ws_char(src[i]) {
        spec_ws_end(src, i + 1)
    } else {
        i
    }
}

/// The end of the text run that starts at `i`: the first position at or
/// after `i` holding a boundary character, capped at the length.
pub open spec fn spec_text_end(src: Seq<char>, i: int) -> int
    decreases src.len() - i,
    when 0 <= i <= src.len()
{
    if i >= src.len() {
        i
    } else if is_boundary_char(src[i]) {
        i
    } else {
        spec_text_end(src, i + 1)
    }
}

pub proof fn lemma_ws_end_bounds(src: Seq<char>, i: int)
    requires
        0 <= i <= src.len(),
    ensures
        i <= spec_ws_end(src, i) <= src.len(),
        forall|j: int| i <= j < spec_ws_end(src, i) ==> is_ws_char(#[trigger] src[j]),
        spec_ws_end(src, i) < src.len() ==> !is_ws_char(src[spec_ws_end(src, i)]),
        i < src.len() && is_ws_char(src[i]) ==> spec_ws_end(src, i) > i,
    decreases src.len() - i,
{
    if i < src.len() && is_ws_char(src[i]) {
        lemma_ws_end_bounds(src, i + 1);
    }
}

pub proof fn lemma_text_end_bounds(src: Seq<char>, i: int)
    requires
        0 <= i <= src.len(),
    ensures
        i <= spec_text_end(src, i) <= src.len(),
        forall|j: int| i <= j < spec_text_end(src, i) ==> !is_boundary_char(#[trigger] src[j]),
        spec_text_end(src, i) < src.len() ==> is_boundary_char(src[spec_text_end(src, i)]),
        i < src.len() && !is_boundary_char(src[i]) ==> spec_text_end(src, i) > i,
    decreases src.len() - i,
{
    if i < src.len() && !is_boundary_char(src[i]) {
        lemma_text_end_bounds(src, i + 1);
    }
}

/// The exact lexeme that the scanner extracts at `pos` for a token of type
/// `t`.  Meaningful when `0 <= pos <= src.len()`.
pub open spec fn spec_lexeme(src: Seq<char>, pos: int, t: TokenType) -> Seq<char> {
    match t.spec_size() {
        Some(n) => src.subrange(
            pos,
            if pos + n <= src.len() {
                pos + n
            } else {
                src.len() as int
            },
        ),
        None => if t == TokenType::Whitespace {
            src.subrange(pos, spec_ws_end(src, pos))
        } else {
            if 0 <= pos < src.len() && is_boundary_char(src[pos]) {
                src.subrange(pos, pos + 1)
            } else {
                src.subrange(pos, spec_text_end(src, pos))
            }
        },
    }
}

/// The token produced at `(pos, line)`, before whitespace filtering.
pub open spec fn spec_next_token(src: Seq<char>, pos: int, line: int) -> TokenView {
    let t = spec_token_type_at(src, pos);
    TokenView { token_type: t, lexeme: spec_lexeme(src, pos, t), line }
}

/// The token produced at an in-range position is at least one and at most
/// `src.len() - pos` characters wide, so each scanning step advances.
pub proof fn lemma_step_bounds(src: Seq<char>, pos: int)
    requires
        0 <= pos < src.len(),
    ensures
        1 <= spec_next_token(src, pos, 0).lexeme.len() <= src.len() - pos,
{
    let t = spec_token_type_at(src, pos);
    lemma_ws_end_bounds(src, pos);
    lemma_text_end_bounds(src, pos);
    if t == TokenType::Whitespace {
        assert(is_ws_char(src[pos]));
    }
    match t.spec_size() {
        Some(n) => {
            assert(1 <= n <= 4);
        },
        None => {},
    }
}

/// The token sequence the scanner produces from position `pos` on line
/// `line`: every token of the per-character dispatch in source order, with
/// whitespace tokens elided, terminated by exactly one end-of-input token
/// stamped with the final line.
pub open spec fn spec_scan_from(src: Seq<char>, pos: int, line: int) -> Seq<TokenView>
    decreases src.len() - pos,
    when 0 <= pos
    via spec_scan_from_decreases
{
    if pos >= src.len() {
        seq![TokenView::eof(line)]
    } else {
        let tv = spec_next_token(src, pos, line);
        let rest = spec_scan_from(src, pos + tv.lexeme.len(), line + tv.spec_lines());
        if tv.token_type == TokenType::Whitespace {
            rest
        } else {
            seq![tv] + rest
        }
    }
}

#[via_fn]
proof fn spec_scan_from_decreases(src: Seq<char>, pos: int, line: int) {
    if 0 <= pos < src.len() {
        lemma_step_bounds(src, pos);
    }
}

/// The token sequence scanned from the start of the source, on line 1.
pub open spec fn spec_tokenize(src: Seq<char>) -> Seq<TokenView> {
    spec_scan_from(src, 0, 1)
}

/// The mathematical value of a [`Lexer`]: its source characters, the start
/// of the token in progress, the cursor, and the current 1-based line.
pub struct LexerView {
    pub source: Seq<char>,
    pub start: int,
    pub current: int,
    pub line: int,
}

/// The scanner.  `start`, `current` and `line` describe the cursor state;
/// the source buffer is owned and fixed for the lexer's lifetime.
pub struct Lexer {
    source: String,
    pub start: usize,
    pub current: usize,
    pub line: usize,
}

impl View for Lexer {
    type V = LexerView;

    closed spec fn view(&self) -> LexerView {
        LexerView {
            source: self.source@,
            start: self.start as int,
            current: self.current as int,
            line: self.line as int,
        }
    }
}

/// Whether a character is one of the four whitespace characters.
fn ws_char(c: char) -> (r: bool)
    ensures
        r == is_ws_char(c),
{
    c == ' ' || c == '\t' || c == '\r' || c == '\n'
}

/// Whether a character is a token-boundary character.
fn boundary_char(c: char) -> (r: bool)
    ensures
        r == is_boundary_char(c),
{
    ws_char(c) || c == '(' || c == ')' || c == '[' || c == ']' || c == '{' || c == '}' || c == ','
        || c == '.' || c == '-' || c == '+' || c == ':' || c == ';' || c == '*' || c == '|' || c
        == '%' || c == '#' || c == '!' || c == '=' || c == '<' || c == '>' || c == '/' || c == '"'
        || c == '\''
}

impl Lexer {
    /// A fresh scanner over a copy of the given source, with the cursor at
    /// the start and the line counter at 1.
    pub fn new(source: &str) -> (l: Self)
        ensures
            l@ == (LexerView { source: source@, start: 0, current: 0, line: 1 }),
    {
        Lexer { source: source.to_owned(), start: 0, current: 0, line: 1 }
    }

    /// Scans the remaining source to completion and returns the finished
    /// stream: exactly the tokens of [`spec_scan_from`] for the starting
    /// cursor state.  Scanning itself never fails; the `Result` carries the
    /// error taxonomy of the scanning layer.
    pub fn tokenize(&mut self) -> (r: Result<TokenStream, LexerError>)
        requires
            old(self)@.line + old(self)@.source.len() - old(self)@.current <= usize::MAX,
        ensures
            r matches Ok(ts) && ts@ == spec_scan_from(
                old(self)@.source,
                old(self)@.current,
                old(self)@.line,
            ),
            final(self)@.source == old(self)@.source,
    {
        let ghost src = self@.source;
        let ghost pos0 = self@.current as int;
        let ghost line0 = self@.line as int;
        let mut tokens = TokenStream::new();
        while !self.is_at_end()
            invariant
                self@.source == src,
                0 <= self@.current,
                self@.line + src.len() - self@.current <= usize::MAX,
                spec_scan_from(src, pos0, line0) == tokens@ + spec_scan_from(
                    src,
                    self@.current as int,
                    self@.line as int,
                ),
            decreases src.len() - self@.current,
        {
            let ghost cur = self@.current as int;
            let ghost line = self@.line as int;
            let ghost toks_before = tokens@;
            proof {
                lemma_step_bounds(src, cur);
                let tv = spec_next_token(src, cur, line);
                crate::token::lemma_line_breaks_positional(tv.lexeme);
                crate::token::lemma_breaks_le_len(tv.lexeme, 0);
            }
            let token = self.next_token()?;
            tokens.add_token(token);
            proof {
                let tv = spec_next_token(src, cur, line);
                let rest = spec_scan_from(src, cur + tv.lexeme.len(), line + tv.spec_lines());
                if tv.token_type == TokenType::Whitespace {
                    assert(spec_scan_from(src, cur, line) == rest);
                } else {
                    assert(spec_scan_from(src, cur, line) == seq![tv] + rest);
                    assert(toks_before + (seq![tv] + rest) =~= (toks_before.push(tv)) + rest);
                }
            }
        }
        proof {
            assert(spec_scan_from(src, self@.current as int, self@.line as int) =~= seq![
                TokenView::eof(self@.line as int),
            ]);
        }
        let ghost toks_before = tokens@;
        let stream = tokens.finalize(self.line);
        proof {
            assert(toks_before.push(TokenView::eof(self@.line as int)) =~= toks_before + seq![
                TokenView::eof(self@.line as int),
            ]);
        }
        Ok(stream)
    }

    /// Scans one token at the cursor: classifies it, extracts its lexeme,
    /// stamps it with the current line, and advances the cursor past it.
    pub fn next_token(&mut self) -> (r: Result<Token, LexerError>)
        requires
            old(self)@.current < old(self)@.source.len(),
            old(self)@.line + old(self)@.source.len() - old(self)@.current <= usize::MAX,
        ensures
            ({
                let tv = spec_next_token(old(self)@.source, old(self)@.current, old(self)@.line);
                r matches Ok(t) && t@ == tv && final(self)@ == (LexerView {
                    source: old(self)@.source,
                    start: old(self)@.current,
                    current: old(self)@.current + tv.lexeme.len(),
                    line: old(self)@.line + tv.spec_lines(),
                })
            }),
    {
        let _source_len = self.source.as_str().unicode_len();
        let c = self.peek()?;
        let token_type = if c == ',' || c == '.' || c == '+' || c == ':' || c == '|' || c == '\''
            || c == '"' || c == ';' || c == '(' || c == ')' || c == '[' || c == ']' {
            self.single_char(c)?
        } else if c == '{' {
            self.left_brace()?
        } else if c == '}' {
            self.right_brace()?
        } else if c == '%' {
            self.percent()?
        } else if c == '#' {
            self.hash()?
        } else if c == '!' {
            self.bang()?
        } else if c == '=' {
            self.equal()?
        } else if c == '<' {
            self.left_angle()?
        } else if c == '>' {
            self.right_angle()?
        } else if c == '/' {
            self.slash()?
        } else if c == '-' {
            self.dash()?
        } else if c == '*' {
            self.star()?
        } else if ws_char(c) {
            self.whitespace()?
        } else {
            self.text()?
        };
        proof {
            assert(token_type == spec_token_type_at(self@.source, self@.current as int));
            lemma_step_bounds(self@.source, self@.current as int);
        }
        let lexeme = self.extract_lexeme(token_type)?;
        let token = Token::new(token_type, lexeme.as_str(), self.line);
        let size = token.size();
        let lines = token.lines();
        proof {
            crate::token::lemma_line_breaks_positional(token@.lexeme);
            crate::token::lemma_breaks_le_len(token@.lexeme, 0);
        }
        self.advance(size, lines)?;
        Ok(token)
    }

    /// Maps a character that forms a token on its own to its type; any other
    /// character is an error carrying the character and the current line.
    pub fn single_char(&self, c: char) -> (r: Result<TokenType, LexerError>)
        ensures
            c == ',' ==> (r matches Ok(t) && t == TokenType::Comma),
            c == '.' ==> (r matches Ok(t) && t == TokenType::Dot),
            c == '+' ==> (r matches Ok(t) && t == TokenType::Plus),
            c == ':' ==> (r matches Ok(t) && t == TokenType::Colon),
            c == '|' ==> (r matches Ok(t) && t == TokenType::Pipe),
            c == '\'' ==> (r matches Ok(t) && t == TokenType::SingleQuote),
            c == '"' ==> (r matches Ok(t) && t == TokenType::DoubleQuote),
            c == '/' ==> (r matches Ok(t) && t == TokenType::Slash),
            c == '%' ==> (r matches Ok(t) && t == TokenType::Percent),
            c == ';' ==> (r matches Ok(t) && t == TokenType::Semicolon),
            c == '(' ==> (r matches Ok(t) && t == TokenType::LeftParen),
            c == ')' ==> (r matches Ok(t) && t == TokenType::RightParen),
            c == '[' ==> (r matches Ok(t) && t == TokenType::LeftBracket),
            c == ']' ==> (r matches Ok(t) && t == TokenType::RightBracket),
            !(c == ',' || c == '.' || c == '+' || c == ':' || c == '|' || c == '\'' || c == '"'
                || c == '/' || c == '%' || c == ';' || c == '(' || c == ')' || c == '[' || c
                == ']') ==> (r matches Err(e) && e == (LexerError::UnexpectedCharacter {
                character: c,
                line: self@.line as usize,
            })),
    {
        let token_type = if c == ',' {
            TokenType::Comma
        } else if c == '.' {
            TokenType::Dot
        } else if c == '+' {
            TokenType::Plus
        } else if c == ':' {
            TokenType::Colon
        } else if c == '|' {
            TokenType::Pipe
        } else if c == '\'' {
            TokenType::SingleQuote
        } else if c == '"' {
            TokenType::DoubleQuote
        } else if c == '/' {
            TokenType::Slash
        } else if c == '%' {
            TokenType::Percent
        } else if c == ';' {
            TokenType::Semicolon
        } else if c == '(' {
            TokenType::LeftParen
        } else if c == ')' {
            TokenType::RightParen
        } else if c == '[' {
            TokenType::LeftBracket
        } else if c == ']' {
            TokenType::RightBracket
        } else {
            return Err(LexerError::UnexpectedCharacter { character: c, line: self.line });
        };
        Ok(token_type)
    }

    /// Disambiguates `{{`, `{%` and `{#` from a bare `{`, which scans as a
    /// one-character text token.
    pub fn left_brace(&self) -> (r: Result<TokenType, LexerError>)
        requires
            char_at(self@.source, self@.current) == '{',
        ensures
            r matches Ok(t) && t == spec_token_type_at(self@.source, self@.current),
    {
        let token_type = match self.peek_next()? {
            '{' => TokenType::DoubleLeftBrace,
            '%' => TokenType::LeftBracePercent,
            '#' => TokenType::LeftBraceHash,
            _ => return self.text(),
        };
        Ok(token_type)
    }

    /// Disambiguates `}}` from a bare `}`.
    pub fn right_brace(&self) -> (r: Result<TokenType, LexerError>)
        requires
            char_at(self@.source, self@.current) == '}',
        ensures
            r matches Ok(t) && t == spec_token_type_at(self@.source, self@.current),
    {
        let token_type = match self.peek_next()? {
            '}' => TokenType::DoubleRightBrace,
            _ => return self.text(),
        };
        Ok(token_type)
    }

    /// Disambiguates `%}` from a bare `%`.
    pub fn percent(&self) -> (r: Result<TokenType, LexerError>)
        requires
            char_at(self@.source, self@.current) == '%',
        ensures
            r matches Ok(t) && t == spec_token_type_at(self@.source, self@.current),
    {
        let token_type = match self.peek_next()? {
            '}' => TokenType::PercentRightBrace,
            _ => TokenType::Percent,
        };
        Ok(token_type)
    }

    /// Disambiguates `#}` from a bare `#`.
    pub fn hash(&self) -> (r: Result<TokenType, LexerError>)
        requires
            char_at(self@.source, self@.current) == '#',
        ensures
            r matches Ok(t) && t == spec_token_type_at(self@.source, self@.current),
    {
        let token_type = match self.peek_next()? {
            '}' => TokenType::HashRightBrace,
            _ => return self.text(),
        };
        Ok(token_type)
    }

    /// Disambiguates `!=` from a bare `!`.
    pub fn bang(&self) -> (r: Result<TokenType, LexerError>)
        requires
            char_at(self@.source, self@.current) == '!',
        ensures
            r matches Ok(t) && t == spec_token_type_at(self@.source, self@.current),
    {
        let token_type = match self.peek_next()? {
            '=' => TokenType::BangEqual,
            _ => TokenType::Bang,
        };
        Ok(token_type)
    }

    /// Disambiguates `==` from a bare `=`.
    pub fn equal(&self) -> (r: Result<TokenType, LexerError>)
        requires
            char_at(self@.source, self@.current) == '=',
        ensures
            r matches Ok(t) && t == spec_token_type_at(self@.source, self@.current),
    {
        let token_type = match self.peek_next()? {
            '=' => TokenType::DoubleEqual,
            _ => TokenType::Equal,
        };
        Ok(token_type)
    }

    /// Disambiguates `<=` and the comment opener `<!--` from a bare `<`:
    /// when the extended match fails, the scanner backs off to the
    /// single-character `<` token.
    pub fn left_angle(&self) -> (r: Result<TokenType, LexerError>)
        requires
            char_at(self@.source, self@.current) == '<',
        ensures
            r matches Ok(t) && t == spec_token_type_at(self@.source, self@.current),
    {
        let c1 = self.peek_next()?;
        let c2 = self.peek_at(2)?;
        let c3 = self.peek_at(3)?;
        let token_type = if c1 == '=' {
            TokenType::LeftAngleEqual
        } else if c1 == '!' && c2 == '-' && c3 == '-' {
            TokenType::LeftAngleBangDashDash
        } else {
            TokenType::LeftAngle
        };
        Ok(token_type)
    }

    /// Disambiguates `>=` from a bare `>`.
    pub fn right_angle(&self) -> (r: Result<TokenType, LexerError>)
        requires
            char_at(self@.source, self@.current) == '>',
        ensures
            r matches Ok(t) && t == spec_token_type_at(self@.source, self@.current),
    {
        let token_type = match self.peek_next()? {
            '=' => TokenType::RightAngleEqual,
            _ => TokenType::RightAngle,
        };
        Ok(token_type)
    }

    /// Disambiguates `/>`, `//` and `/*` from a bare `/`.
    pub fn slash(&self) -> (r: Result<TokenType, LexerError>)
        requires
            char_at(self@.source, self@.current) == '/',
        ensures
            r matches Ok(t) && t == spec_token_type_at(self@.source, self@.current),
    {
        let token_type = match self.peek_next()? {
            '>' => TokenType::SlashRightAngle,
            '/' => TokenType::DoubleSlash,
            '*' => TokenType::SlashStar,
            _ => TokenType::Slash,
        };
        Ok(token_type)
    }

    /// Disambiguates the comment closer `-->` from a bare `-`; a `--` run
    /// not followed by `>` scans as a one-character text token.
    pub fn dash(&self) -> (r: Result<TokenType, LexerError>)
        requires
            char_at(self@.source, self@.current) == '-',
        ensures
            r matches Ok(t) && t == spec_token_type_at(self@.source, self@.current),
    {
        let c1 = self.peek_next()?;
        let c2 = self.peek_at(2)?;
        let token_type = if c1 == '-' && c2 == '>' {
            TokenType::DashDashRightAngle
        } else if c1 == '-' {
            return self.text();
        } else {
            TokenType::Dash
        };
        Ok(token_type)
    }

    /// Disambiguates `*/` from a bare `*`.
    pub fn star(&self) -> (r: Result<TokenType, LexerError>)
        requires
            char_at(self@.source, self@.current) == '*',
        ensures
            r matches Ok(t) && t == spec_token_type_at(self@.source, self@.current),
    {
        let token_type = match self.peek_next()? {
            '/' => TokenType::StarSlash,
            _ => TokenType::Star,
        };
        Ok(token_type)
    }

    /// The whitespace classification; the cursor is not moved here.
    pub fn whitespace(&mut self) -> (r: Result<TokenType, LexerError>)
        ensures
            r matches Ok(t) && t == TokenType::Whitespace,
            final(self)@ == old(self)@,
    {
        let token_type = TokenType::Whitespace;
        Ok(token_type)
    }

    /// The text classification; the cursor is not moved here.
    pub fn text(&self) -> (r: Result<TokenType, LexerError>)
        ensures
            r matches Ok(t) && t == TokenType::Text,
    {
        let token_type = TokenType::Text;
        Ok(token_type)
    }

    /// Extracts from the cursor position the exact lexeme of a token of the
    /// given type: its fixed width for the fixed-width types (capped at the
    /// end of the source), the maximal whitespace run for `Whitespace`, and
    /// for `Text` either the single boundary character at the cursor or the
    /// maximal run of non-boundary characters.
    pub fn extract_lexeme(&self, token_type: TokenType) -> (r: Result<String, LexerError>)
        requires
            self@.current <= self@.source.len(),
        ensures
            r matches Ok(s) && s@ == spec_lexeme(self@.source, self@.current as int, token_type),
    {
        let s = self.source.as_str();
        let len = s.unicode_len();
        match token_type.size() {
            Ok(size) => {
                let end = if size <= len - self.current {
                    self.current + size
                } else {
                    len
                };
                Ok(s.substring_char(self.current, end).to_owned())
            },
            Err(_) => match token_type {
                TokenType::Whitespace => {
                    let mut end = self.current;
                    while end < len && ws_char(s.get_char(end))
                        invariant
                            s@ == self@.source,
                            len == s@.len(),
                            self@.current <= end <= len,
                            spec_ws_end(s@, self@.current as int) == spec_ws_end(s@, end as int),
                        decreases len - end,
                    {
                        proof {
                            lemma_ws_end_bounds(s@, end as int);
                        }
                        end = end + 1;
                    }
                    proof {
                        lemma_ws_end_bounds(s@, end as int);
                    }
                    Ok(s.substring_char(self.current, end).to_owned())
                },
                TokenType::Text => {
                    if self.current < len {
                        let c0 = s.get_char(self.current);
                        if boundary_char(c0) {
                            return Ok(s.substring_char(self.current, self.current + 1).to_owned());
                        }
                    }
                    let mut end = self.current;
                    while end < len && !boundary_char(s.get_char(end))
                        invariant
                            s@ == self@.source,
                            len == s@.len(),
                            self@.current <= end <= len,
                            spec_text_end(s@, self@.current as int) == spec_text_end(
                                s@,
                                end as int,
                            ),
                        decreases len - end,
                    {
                        proof {
                            lemma_text_end_bounds(s@, end as int);
                        }
                        end = end + 1;
                    }
                    proof {
                        lemma_text_end_bounds(s@, end as int);
                    }
                    Ok(s.substring_char(self.current, end).to_owned())
                },
                _ => {
                    proof {
                        assert(false);
                    }
                    Err(LexerError::UnexpectedTokenType(token_type))
                },
            },
        }
    }

    /// Moves the cursor forward by `chars` characters and the line counter
    /// by `lines`, remembering the old cursor in `start`; an error when the
    /// cursor is already at the end of the source.
    pub fn advance(&mut self, chars: usize, lines: usize) -> (r: Result<(), LexerError>)
        requires
            old(self)@.current + chars <= usize::MAX,
            old(self)@.line + lines <= usize::MAX,
        ensures
            old(self)@.current >= old(self)@.source.len() ==> (r matches Err(e)
                && e matches LexerError::AtEndOfSource && final(self)@ == old(self)@),
            old(self)@.current < old(self)@.source.len() ==> (r matches Ok(u) && u == ()
                && final(self)@ == (LexerView {
                source: old(self)@.source,
                start: old(self)@.current,
                current: old(self)@.current + chars,
                line: old(self)@.line + lines,
            })),
    {
        if self.is_at_end() {
            return Err(LexerError::AtEndOfSource);
        }
        self.start = self.current;
        self.current = self.current + chars;
        self.line = self.line + lines;
        Ok(())
    }

    /// The character at the cursor, or the NUL sentinel past the end.
    pub fn peek(&self) -> (r: Result<char, LexerError>)
        ensures
            r matches Ok(c) && c == char_at(self@.source, self@.current),
    {
        self.peek_at(0)
    }

    /// The character one past the cursor, or the NUL sentinel.
    pub fn peek_next(&self) -> (r: Result<char, LexerError>)
        ensures
            r matches Ok(c) && c == char_at(self@.source, self@.current + 1),
    {
        self.peek_at(1)
    }

    /// The character one before the cursor, or the NUL sentinel.
    pub fn peek_previous(&self) -> (r: Result<char, LexerError>)
        ensures
            r matches Ok(c) && c == char_at(self@.source, self@.current - 1),
    {
        self.peek_at(-1)
    }

    /// The character at the given signed offset from the cursor, or the NUL
    /// sentinel when the position falls outside the source.
    pub fn peek_at(&self, offset: isize) -> (r: Result<char, LexerError>)
        ensures
            r matches Ok(c) && c == char_at(self@.source, self@.current + offset),
    {
        let idx: i128 = self.current as i128 + offset as i128;
        let len = self.source.as_str().unicode_len();
        if idx < 0 || idx >= len as i128 {
            Ok('\0')
        } else {
            self.item_at(idx as usize)
        }
    }

    /// The character at an absolute position, or the NUL sentinel when the
    /// position is past the end of the source.
    pub fn item_at(&self, index: usize) -> (r: Result<char, LexerError>)
        ensures
            r matches Ok(c) && c == char_at(self@.source, index as int),
    {
        let s = self.source.as_str();
        if index >= s.unicode_len() {
            Ok('\0')
        } else {
            Ok(s.get_char(index))
        }
    }

    /// Whether the cursor has consumed the whole source.
    pub fn is_at_end(&self) -> (r: bool)
        ensures
            r == (self@.current >= self@.source.len()),
    {
        self.current >= self.source.as_str().unicode_len()
    }
}


/// Every token sequence the scanner produces is terminated by exactly one
/// end-of-input token, and no whitespace token ever reaches it: whitespace
/// is counted for line tracking and then discarded.
pub proof fn lemma_stream_well_formed(src: Seq<char>, pos: int, line: int)
    requires
        0 <= pos,
    ensures
        ({
            let ts = spec_scan_from(src, pos, line);
            &&& ts.len() >= 1
            &&& ts.last().token_type == TokenType::Eof
            &&& forall|i: int| 0 <= i < ts.len() - 1 ==> (#[trigger] ts[i].token_type)
                != TokenType::Eof
            &&& forall|i: int|
                0 <= i < ts.len() ==> (#[trigger] ts[i].token_type) != TokenType::Whitespace
        }),
    decreases src.len() - pos,
{
    if pos >= src.len() {
    } else {
        lemma_step_bounds(src, pos);
        let tv = spec_next_token(src, pos, line);
        let rest = spec_scan_from(src, pos + tv.lexeme.len(), line + tv.spec_lines());
        lemma_stream_well_formed(src, pos + tv.lexeme.len(), line + tv.spec_lines());
        let ts = spec_scan_from(src, pos, line);
        assert(tv.token_type != TokenType::Eof);
        if tv.token_type == TokenType::Whitespace {
            assert(ts == rest);
        } else {
            assert(ts == seq![tv] + rest);
            assert(ts.len() == 1 + rest.len());
            assert(ts.last() == rest.last());
            assert forall|i: int| 0 <= i < ts.len() - 1 implies (#[trigger] ts[i].token_type)
                != TokenType::Eof by {
                if i > 0 {
                    assert(ts[i] == rest[i - 1]);
                }
            }
            assert forall|i: int| 0 <= i < ts.len() implies (#[trigger] ts[i].token_type)
                != TokenType::Whitespace by {
                if i > 0 {
                    assert(ts[i] == rest[i - 1]);
                }
            }
        }
    }
}

/// Line numbers never decrease along the token sequence, and no token is
/// stamped with a line below the starting one.
pub proof fn lemma_lines_monotone(src: Seq<char>, pos: int, line: int)
    requires
        0 <= pos,
    ensures
        ({
            let ts = spec_scan_from(src, pos, line);
            &&& forall|i: int| 0 <= i < ts.len() ==> (#[trigger] ts[i].line) >= line
            &&& forall|i: int, j: int|
                0 <= i <= j < ts.len() ==> (#[trigger] ts[i].line) <= (#[trigger] ts[j].line)
        }),
    decreases src.len() - pos,
{
    if pos >= src.len() {
    } else {
        lemma_step_bounds(src, pos);
        let tv = spec_next_token(src, pos, line);
        let nline = line + tv.spec_lines();
        let rest = spec_scan_from(src, pos + tv.lexeme.len(), nline);
        lemma_lines_monotone(src, pos + tv.lexeme.len(), nline);
        let ts = spec_scan_from(src, pos, line);
        if tv.token_type == TokenType::Whitespace {
            assert(ts == rest);
        } else {
            assert(ts == seq![tv] + rest);
            assert(tv.spec_lines() == 0);
            assert forall|i: int| 0 <= i < ts.len() implies (#[trigger] ts[i].line) >= line by {
                if i > 0 {
                    assert(ts[i] == rest[i - 1]);
                }
            }
            assert forall|i: int, j: int|
                0 <= i <= j < ts.len() implies (#[trigger] ts[i].line) <= (
            #[trigger] ts[j].line) by {
                if i > 0 {
                    assert(ts[i] == rest[i - 1]);
                    assert(ts[j] == rest[j - 1]);
                } else if j > 0 {
                    assert(ts[j] == rest[j - 1]);
                }
            }
        }
    }
}

/// Scanning a one-character string holding a non-whitespace boundary
/// character yields exactly one token before the end marker: the token the
/// dispatch selects for that character, with the character itself as its
/// lexeme, on line 1.
pub proof fn lemma_single_delimiter_token(c: char)
    requires
        is_boundary_char(c),
        !is_ws_char(c),
    ensures
        ({
            let ts = spec_tokenize(seq![c]);
            &&& ts.len() == 2
            &&& ts[0].token_type == spec_token_type_at(seq![c], 0)
            &&& ts[0].token_type != TokenType::Whitespace
            &&& ts[0].token_type != TokenType::Eof
            &&& ts[0].lexeme == seq![c]
            &&& ts[0].line == 1
            &&& ts[1] == TokenView::eof(1)
        }),
{
    let src = seq![c];
    lemma_step_bounds(src, 0);
    let tv = spec_next_token(src, 0, 1);
    assert(tv.lexeme =~= seq![c]);
    assert(tv.spec_lines() == 0);
    let rest = spec_scan_from(src, 1, 1);
    assert(rest =~= seq![TokenView::eof(1)]);
    assert(spec_tokenize(src) == seq![tv] + rest);
    assert(spec_tokenize(src)[0] == tv);
    assert(spec_tokenize(src)[1] == TokenView::eof(1));
}

/// Scanning a one-character whitespace string yields no token at all
/// before the end marker, whose line reflects the line breaks of the
/// character.
pub proof fn lemma_single_whitespace_elided(c: char)
    requires
        is_ws_char(c),
    ensures
        ({
            let ts = spec_tokenize(seq![c]);
            ts =~= seq![TokenView::eof((1 + spec_line_breaks(seq![c])) as int)]
        }),
{
    let src = seq![c];
    lemma_step_bounds(src, 0);
    lemma_ws_end_bounds(src, 0);
    let tv = spec_next_token(src, 0, 1);
    assert(tv.token_type == TokenType::Whitespace);
    assert(spec_ws_end(src, 0) == 1);
    assert(tv.lexeme =~= seq![c]);
    assert(tv.spec_lines() == spec_line_breaks(seq![c]));
    assert(spec_scan_from(src, 1, (1 + tv.spec_lines()) as int) =~= seq![
        TokenView::eof((1 + tv.spec_lines()) as int),
    ]);
    assert(spec_tokenize(src) == spec_scan_from(src, (0 + tv.lexeme.len()) as int, (1 + tv.spec_lines()) as int));
}

} // verus!
