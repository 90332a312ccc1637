//! A line-oriented command interpreter for a contact book.
//!
//! A line of input is split into tokens by [`lexer::tokenize`]. The tokens
//! are walked by [`dispatch::dispatch`], which names the commands that the
//! host has to carry out, and performs none itself. [`contacts`] and
//! [`account`] hold the rules that the host follows when it carries them
//! out: what an answer of the store means, and who may log in.
//!
//! [`lexer_laws`] and [`dispatch_laws`] state what follows from the
//! definitions.

pub mod account;
pub mod chars;
pub mod contacts;
pub mod dispatch;
pub mod dispatch_laws;
pub mod lexer;
pub mod lexer_laws;
pub mod token;
