//! The token data model: the closed set of lexical categories, the `Token`
//! value (category, lexeme text, source line), and the `TokenStream` that the
//! scanner builds and the parser consumes.
use vstd::prelude::*;
use vstd::string::StrSliceExecFns;

use crate::error::TokenError;

verus! {

/// The closed set of lexical categories.
#[derive(Debug, Clone, Copy, PartialEq, Eq, Structural)]
pub enum TokenType {
    /// `<`
    LeftAngle,
    /// `>`
    RightAngle,
    /// `,`
    Comma,
    /// `.`
    Dot,
    /// `-`
    Dash,
    /// `+`
    Plus,
    /// `:`
    Colon,
    /// `/`
    Slash,
    /// `!`
    Bang,
    /// `=`
    Equal,
    /// `|`
    Pipe,
    /// `%`
    Percent,
    /// `'`
    SingleQuote,
    /// `"`
    DoubleQuote,
    /// `;`
    Semicolon,
    /// `*`
    Star,
    /// `(`
    LeftParen,
    /// `)`
    RightParen,
    /// `[`
    LeftBracket,
    /// `]`
    RightBracket,
    /// `{{`
    DoubleLeftBrace,
    /// `}}`
    DoubleRightBrace,
    /// `{%`
    LeftBracePercent,
    /// `%}`
    PercentRightBrace,
    /// `{#`
    LeftBraceHash,
    /// `#}`
    HashRightBrace,
    /// `!=`
    BangEqual,
    /// `==`
    DoubleEqual,
    /// `<=`
    LeftAngleEqual,
    /// `>=`
    RightAngleEqual,
    /// `<!--`
    LeftAngleBangDashDash,
    /// `-->`
    DashDashRightAngle,
    /// `</`
    LeftAngleSlash,
    /// `/>`
    SlashRightAngle,
    /// `//`
    DoubleSlash,
    /// `/*`
    SlashStar,
    /// `*/`
    StarSlash,
    /// A maximal run of insignificant whitespace; never stored in a stream.
    Whitespace,
    /// A maximal run of characters that is not itself a delimiter.
    Text,
    /// The terminal end-of-input marker.
    Eof,
}

impl TokenType {
    /// The fixed width in characters of this token type, or `None` for the
    /// types whose lexemes vary in width (`Whitespace` and `Text`).
    pub open spec fn spec_size(self) -> Option<int> {
        match self {
            TokenType::Eof => Some(0),
            TokenType::LeftAngle
            | TokenType::RightAngle
            | TokenType::Comma
            | TokenType::Dot
            | TokenType::Dash
            | TokenType::Plus
            | TokenType::Colon
            | TokenType::Slash
            | TokenType::Bang
            | TokenType::Equal
            | TokenType::Pipe
            | TokenType::Percent
            | TokenType::SingleQuote
            | TokenType::DoubleQuote
            | TokenType::Semicolon
            | TokenType::Star
            | TokenType::LeftParen
            | TokenType::RightParen
            | TokenType::LeftBracket
            | TokenType::RightBracket => Some(1),
            TokenType::DoubleLeftBrace
            | TokenType::DoubleRightBrace
            | TokenType::LeftBracePercent
            | TokenType::PercentRightBrace
            | TokenType::LeftBraceHash
            | TokenType::HashRightBrace
            | TokenType::BangEqual
            | TokenType::DoubleEqual
            | TokenType::LeftAngleEqual
            | TokenType::RightAngleEqual
            | TokenType::LeftAngleSlash
            | TokenType::SlashRightAngle
            | TokenType::DoubleSlash
            | TokenType::SlashStar
            | TokenType::StarSlash => Some(2),
            TokenType::DashDashRightAngle => Some(3),
            TokenType::LeftAngleBangDashDash => Some(4),
            TokenType::Whitespace | TokenType::Text => None,
        }
    }

    /// The fixed width in characters of this token type; an error for the
    /// types whose lexemes vary in width.
    pub fn size(self) -> (r: Result<usize, TokenError>)
        ensures
            match self.spec_size() {
                Some(n) => r matches Ok(s) && s == n,
                None => r matches Err(e) && e matches TokenError::DynamicTokenSize,
            },
    {
        let size: usize = match self {
            TokenType::Eof => 0,
            TokenType::LeftAngle
            | TokenType::RightAngle
            | TokenType::Comma
            | TokenType::Dot
            | TokenType::Dash
            | TokenType::Plus
            | TokenType::Colon
            | TokenType::Slash
            | TokenType::Bang
            | TokenType::Equal
            | TokenType::Pipe
            | TokenType::Percent
            | TokenType::SingleQuote
            | TokenType::DoubleQuote
            | TokenType::Semicolon
            | TokenType::Star
            | TokenType::LeftParen
            | TokenType::RightParen
            | TokenType::LeftBracket
            | TokenType::RightBracket => 1,
            TokenType::DoubleLeftBrace
            | TokenType::DoubleRightBrace
            | TokenType::LeftBracePercent
            | TokenType::PercentRightBrace
            | TokenType::LeftBraceHash
            | TokenType::HashRightBrace
            | TokenType::BangEqual
            | TokenType::DoubleEqual
            | TokenType::LeftAngleEqual
            | TokenType::RightAngleEqual
            | TokenType::LeftAngleSlash
            | TokenType::SlashRightAngle
            | TokenType::DoubleSlash
            | TokenType::SlashStar
            | TokenType::StarSlash => 2,
            TokenType::DashDashRightAngle => 3,
            TokenType::LeftAngleBangDashDash => 4,
            TokenType::Whitespace | TokenType::Text => {
                return Err(TokenError::DynamicTokenSize);
            },
        };
        Ok(size)
    }
}

/// Counts line breaks in a run of characters: each `\n` counts once, and each
/// `\r` that is not immediately followed by `\n` counts once, so that a
/// `\r\n` pair increments the line count exactly once.
pub open spec fn spec_line_breaks(s: Seq<char>) -> nat
    decreases s.len(),
{
    if s.len() == 0 {
        0
    } else if s[0] == '\n' {
        1 + spec_line_breaks(s.skip(1))
    } else if s[0] == '\r' {
        if s.len() >= 2 && s[1] == '\n' {
            1 + spec_line_breaks(s.skip(2))
        } else {
            1 + spec_line_breaks(s.skip(1))
        }
    } else {
        spec_line_breaks(s.skip(1))
    }
}

/// A break is counted at position `i` exactly when the character there is
/// `\n`, or is `\r` not immediately followed by `\n`.
pub open spec fn spec_break_at(s: Seq<char>, i: int) -> bool {
    s[i] == '\n' || (s[i] == '\r' && (i + 1 == s.len() || s[i + 1] != '\n'))
}

/// Counts the break positions at or after `i`.
pub open spec fn spec_breaks_from(s: Seq<char>, i: int) -> nat
    decreases s.len() - i,
{
    if i < 0 || i >= s.len() {
        0
    } else if spec_break_at(s, i) {
        1 + spec_breaks_from(s, i + 1)
    } else {
        spec_breaks_from(s, i + 1)
    }
}

/// The recursive and the positional break counts agree.
pub proof fn lemma_line_breaks_positional(s: Seq<char>)
    ensures
        spec_line_breaks(s) == spec_breaks_from(s, 0),
    decreases s.len(),
{
    if s.len() == 0 {
    } else if s[0] == '\r' && s.len() >= 2 && s[1] == '\n' {
        lemma_line_breaks_positional(s.skip(2));
        lemma_breaks_from_skip(s, 2);
        // The pair is counted once, at the `\n`.
        assert(!spec_break_at(s, 0));
        assert(spec_break_at(s, 1));
        assert(spec_breaks_from(s, 0) == spec_breaks_from(s, 1));
        assert(spec_breaks_from(s, 1) == 1 + spec_breaks_from(s, 2));
    } else {
        lemma_line_breaks_positional(s.skip(1));
        lemma_breaks_from_skip(s, 1);
        if s[0] == '\n' || s[0] == '\r' {
            assert(spec_break_at(s, 0));
        } else {
            assert(!spec_break_at(s, 0));
        }
    }
}

/// Counting breaks of a suffix equals counting from the matching offset,
/// provided the cut does not separate a `\r` from a following `\n`.
proof fn lemma_breaks_from_skip(s: Seq<char>, k: int)
    requires
        0 <= k <= s.len(),
    ensures
        spec_breaks_from(s.skip(k), 0) == spec_breaks_from(s, k),
    decreases s.len() - k,
{
    if k < s.len() {
        lemma_breaks_from_skip_aux(s, k, 0);
    }
}

proof fn lemma_breaks_from_skip_aux(s: Seq<char>, k: int, j: int)
    requires
        0 <= k <= s.len(),
        0 <= j,
    ensures
        spec_breaks_from(s.skip(k), j) == spec_breaks_from(s, k + j),
    decreases s.len() - k - j,
{
    let t = s.skip(k);
    if j < t.len() {
        assert(t[j] == s[k + j]);
        assert(j + 1 == t.len() ==> k + j + 1 == s.len());
        assert(j + 1 < t.len() ==> t[j + 1] == s[k + j + 1]);
        assert(spec_break_at(t, j) == spec_break_at(s, k + j));
        lemma_breaks_from_skip_aux(s, k, j + 1);
    }
}

/// A run of characters breaks no more lines than it has characters.
pub proof fn lemma_breaks_le_len(s: Seq<char>, i: int)
    requires
        0 <= i <= s.len(),
    ensures
        spec_breaks_from(s, i) <= s.len() - i,
    decreases s.len() - i,
{
    if i < s.len() {
        lemma_breaks_le_len(s, i + 1);
    }
}

/// The mathematical value of a [`Token`]: its category, its lexeme as a
/// character sequence, and its 1-based source line.
pub struct TokenView {
    pub token_type: TokenType,
    pub lexeme: Seq<char>,
    pub line: int,
}

impl TokenView {
    /// How many line breaks this token advances the scanner's line counter:
    /// the breaks of its lexeme for whitespace, zero for everything else.
    pub open spec fn spec_lines(self) -> nat {
        if self.token_type == TokenType::Whitespace {
            spec_line_breaks(self.lexeme)
        } else {
            0
        }
    }

    /// The end-of-input token for a given line.
    pub open spec fn eof(line: int) -> TokenView {
        TokenView { token_type: TokenType::Eof, lexeme: Seq::empty(), line }
    }
}

/// One lexical token: its category, the exact source substring it represents,
/// and the 1-based line on which it starts.
#[derive(Debug, PartialEq)]
pub struct Token {
    pub token_type: TokenType,
    pub lexeme: String,
    pub line: usize,
}

impl View for Token {
    type V = TokenView;

    open spec fn view(&self) -> TokenView {
        TokenView {
            token_type: self.token_type,
            lexeme: self.lexeme@,
            line: self.line as int,
        }
    }
}

impl DeepView for Token {
    type V = TokenView;

    open spec fn deep_view(&self) -> TokenView {
        self.view()
    }
}

impl Clone for Token {
    /// Cloning preserves the token exactly.
    fn clone(&self) -> (r: Self)
        ensures
            r == *self,
    {
        Token {
            token_type: self.token_type,
            lexeme: self.lexeme.clone(),
            line: self.line,
        }
    }
}

impl Token {
    /// Builds a token from its parts, copying the lexeme text.
    pub fn new(token_type: TokenType, lexeme: &str, line: usize) -> (t: Self)
        ensures
            t@ == (TokenView { token_type, lexeme: lexeme@, line: line as int }),
    {
        Token { token_type, lexeme: lexeme.to_owned(), line }
    }

    /// The end-of-input token for a given line; its lexeme is empty.
    pub fn eof(line: usize) -> (t: Self)
        ensures
            t@ == TokenView::eof(line as int),
    {
        Token { token_type: TokenType::Eof, lexeme: String::new(), line }
    }

    /// The width of this token in characters.
    pub fn size(&self) -> (r: usize)
        ensures
            r == self@.lexeme.len(),
    {
        self.lexeme.as_str().unicode_len()
    }

    /// How many line breaks this token advances the line counter: the breaks
    /// of its lexeme for whitespace tokens, zero for every other kind.  A
    /// `\r\n` pair counts as one break.
    pub fn lines(&self) -> (r: usize)
        ensures
            r == self@.spec_lines(),
    {
        match self.token_type {
            TokenType::Whitespace => {
                let s = self.lexeme.as_str();
                let len = s.unicode_len();
                let mut count: usize = 0;
                let mut i: usize = 0;
                proof {
                    lemma_line_breaks_positional(self.lexeme@);
                    lemma_breaks_le_len(self.lexeme@, 0);
                }
                while i < len
                    invariant
                        s@ == self.lexeme@,
                        len == self.lexeme@.len(),
                        0 <= i <= len,
                        count + spec_breaks_from(self.lexeme@, i as int) == spec_breaks_from(
                            self.lexeme@,
                            0,
                        ),
                        spec_breaks_from(self.lexeme@, 0) <= len,
                        spec_breaks_from(self.lexeme@, i as int) <= len - i,
                    decreases len - i,
                {
                    let c = s.get_char(i);
                    let counted: bool = if c == '\n' {
                        true
                    } else if c == '\r' {
                        i + 1 == len || s.get_char(i + 1) != '\n'
                    } else {
                        false
                    };
                    proof {
                        assert(counted == spec_break_at(self.lexeme@, i as int));
                        lemma_breaks_le_len(self.lexeme@, i + 1);
                    }
                    if counted {
                        count = count + 1;
                    }
                    i = i + 1;
                }
                count
            },
            _ => 0,
        }
    }

    /// Whether the stream builder discards this token.
    pub fn is_throwaway(&self) -> (r: bool)
        ensures
            r == (self@.token_type == TokenType::Whitespace),
    {
        self.is_token_type(TokenType::Whitespace)
    }

    /// Whether this token has the given type.
    pub fn is_token_type(&self, token_type: TokenType) -> (r: bool)
        ensures
            r == (self@.token_type == token_type),
    {
        self.token_type == token_type
    }
}

/// Joins the lexemes of a sequence of tokens with single spaces.
pub open spec fn spec_join_lexemes(s: Seq<TokenView>) -> Seq<char>
    decreases s.len(),
{
    if s.len() == 0 {
        Seq::empty()
    } else if s.len() == 1 {
        s[0].lexeme
    } else {
        spec_join_lexemes(s.drop_last()) + seq![' '] + s.last().lexeme
    }
}

/// Concatenates the lexemes of a sequence of tokens with no separator.
pub open spec fn spec_concat_lexemes(s: Seq<TokenView>) -> Seq<char>
    decreases s.len(),
{
    if s.len() == 0 {
        Seq::empty()
    } else {
        spec_concat_lexemes(s.drop_last()) + s.last().lexeme
    }
}

/// Rendering a vector of tokens back to text: the lexemes joined by single
/// spaces.
pub trait TokenVecToString {
    /// The joined lexeme text of `self`.
    fn to_string(&self) -> (r: String)
        ensures
            r@ == spec_join_lexemes(self.token_seq()),
    ;

    /// The token views that the rendering joins.
    spec fn token_seq(&self) -> Seq<TokenView>;
}

impl TokenVecToString for Vec<Token> {
    open spec fn token_seq(&self) -> Seq<TokenView> {
        self.deep_view()
    }

    fn to_string(&self) -> (r: String)
        ensures
            r@ == spec_join_lexemes(self.deep_view()),
    {
        let mut out = String::new();
        let n = self.len();
        let mut i: usize = 0;
        proof {
            assert(self.deep_view().take(0) =~= Seq::<TokenView>::empty());
        }
        while i < n
            invariant
                n == self@.len(),
                self.deep_view().len() == n,
                0 <= i <= n,
                out@ == spec_join_lexemes(self.deep_view().take(i as int)),
            decreases n - i,
        {
            if i > 0 {
                out.append(" ");
                proof {
                    reveal_strlit(" ");
                }
            }
            out.append(self[i].lexeme.as_str());
            proof {
                let dv = self.deep_view();
                assert(dv[i as int] == self@[i as int].deep_view());
                assert(dv.take(i + 1).drop_last() =~= dv.take(i as int));
                assert(dv.take(i + 1).last() == dv[i as int]);
            }
            i = i + 1;
        }
        proof {
            assert(self.deep_view().take(n as int) =~= self.deep_view());
        }
        out
    }
}

/// The ordered token sequence that the scanner builds and the parser reads.
/// A finalized stream ends with exactly one end-of-input token and holds no
/// whitespace tokens.
#[derive(Debug)]
pub struct TokenStream {
    tokens: Vec<Token>,
}

impl View for TokenStream {
    type V = Seq<TokenView>;

    closed spec fn view(&self) -> Seq<TokenView> {
        self.tokens.deep_view()
    }
}

impl Clone for TokenStream {
    /// Cloning preserves the stream exactly.
    fn clone(&self) -> (r: Self)
        ensures
            r@ == self@,
    {
        let mut tokens: Vec<Token> = Vec::new();
        let n = self.tokens.len();
        let mut i: usize = 0;
        while i < n
            invariant
                n == self.tokens@.len(),
                0 <= i <= n,
                tokens@.len() == i,
                forall|j: int| 0 <= j < i ==> tokens@[j] == self.tokens@[j],
            decreases n - i,
        {
            tokens.push(self.tokens[i].clone());
            i = i + 1;
        }
        let r = TokenStream { tokens };
        proof {
            assert(r@ =~= self@);
        }
        r
    }
}

impl Default for TokenStream {
    /// The default stream is empty.
    fn default() -> (r: Self)
        ensures
            r@ == Seq::<TokenView>::empty(),
    {
        TokenStream::new()
    }
}

impl TokenStream {
    /// An empty stream.
    pub fn new() -> (r: Self)
        ensures
            r@ == Seq::<TokenView>::empty(),
    {
        let r = TokenStream { tokens: Vec::new() };
        proof {
            assert(r@ =~= Seq::<TokenView>::empty());
        }
        r
    }

    /// Appends a token unless it is insignificant whitespace, which is
    /// silently discarded.
    pub fn add_token(&mut self, token: Token)
        ensures
            final(self)@ == if token@.token_type == TokenType::Whitespace {
                old(self)@
            } else {
                old(self)@.push(token@)
            },
    {
        if !token.is_throwaway() {
            self.tokens.push(token);
            proof {
                assert(self@ =~= old(self)@.push(token@));
            }
        }
    }

    /// Appends the single end-of-input token stamped with the final line and
    /// returns the completed stream.
    pub fn finalize(&mut self, last_line: usize) -> (r: TokenStream)
        ensures
            final(self)@ == old(self)@.push(TokenView::eof(last_line as int)),
            r@ == final(self)@,
    {
        let eof_token = Token::eof(last_line);
        self.add_token(eof_token);
        self.clone()
    }

    /// How many tokens the stream holds.
    pub fn len(&self) -> (r: usize)
        ensures
            r == self@.len(),
    {
        self.tokens.len()
    }

    /// The token at `index`, if the stream has one there.
    pub fn get(&self, index: usize) -> (r: Option<&Token>)
        ensures
            match r {
                Some(t) => index < self@.len() && t@ == self@[index as int],
                None => index >= self@.len(),
            },
    {
        if index < self.tokens.len() {
            Some(&self.tokens[index])
        } else {
            None
        }
    }
}

} // verus!
