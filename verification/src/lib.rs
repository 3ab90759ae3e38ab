//! Lexical analysis for a small statically typed language.
//!
//! Source text is handed over line by line and comes back as the ordered
//! sequence of tokens that a parser consumes. Every public function carries a
//! contract over plain sequences of characters, and the contracts are proved.
//!
//! - [`alphabet`] says which characters and words the language reserves.
//! - [`literal`] holds the grammar of numeric literals.
//! - [`token`] defines the tokens and how a lexeme is classified.
//! - [`scan`] defines how a line falls apart into lexemes, and [`laws`]
//!   states what follows from that definition.
//! - [`lexer`] is the executable lexer, with [`text`] and [`error`] beside it.
//! - [`parser`] and [`symbol_table`] hold the types of the phases to come.

pub mod alphabet;
pub mod error;
pub mod laws;
pub mod lexer;
pub mod literal;
pub mod parser;
pub mod scan;
pub mod symbol_table;
pub mod text;
pub mod token;
