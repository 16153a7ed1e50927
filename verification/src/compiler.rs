//! The beginnings of a front end for source text.

pub mod lexer;
pub mod token;
