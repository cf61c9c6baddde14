//! Turns plain text into a line of emoji tokens, one token for each
//! user-perceived character.
//!
//! Upper-case letters become `:alphabet-white-<x>:`, lower-case letters
//! `:alphabet-yellow-<x>:`, digits `:one:` to `:zero:`, `!` and `?` their
//! yellow tokens and whitespace a token of the caller's choice; anything
//! else stands for itself. The tokens are joined with single spaces.
//!
//! [`rules`] states what each character, cluster and text becomes, [`laws`]
//! proves what follows from the rules, and [`parser`] holds the functions
//! that do the work.

pub mod chars;
pub mod cli_args;
pub mod error;
pub mod laws;
pub mod parser;
pub mod rules;
pub mod segment;
pub mod text;
pub mod tokens;
