//! Lexical analysis for a JavaScript-like language: source text in, an ordered
//! sequence of classified tokens (or one fatal, span-annotated diagnostic) out.
pub mod lexer;
