//! Front end of a template-language compiler: a lexical scanner that turns
//! template text into a token stream, and a recursive-descent parser that
//! turns the token stream into a syntax tree.  The template language mixes
//! literal markup with an embedded templating mini-language (variable
//! interpolation, block tags, comments).
pub mod ast;
pub mod error;
pub mod lexer;
pub mod parser;
pub mod scanner;
pub mod token;
