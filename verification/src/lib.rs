//! A verified scanner for the Monkey programming language.
//!
//! [`lexer::Lexer`] turns source text into [`token::Token`]s, one at a
//! time. What it returns is fixed by the grammar in [`grammar`], which is
//! pure mathematics over sequences of characters; [`theorems`] holds what
//! is proved of that grammar for every text. [`repl`] decides what an
//! interactive session does with each line it reads.

pub mod grammar;
pub mod lexer;
pub mod repl;
pub mod text;
pub mod theorems;
pub mod token;
