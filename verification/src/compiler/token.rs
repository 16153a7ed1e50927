//! Tokens of a source text.

use vstd::prelude::*;

verus! {

/// What kind of thing a token is.
#[derive(Clone, Copy, Debug, PartialEq, Eq, Structural)]
pub enum TokenKind {
    Nothing,
    String,
    Number,
}

/// A piece of source text: its kind, its text, and where it starts.
pub struct Token {
    kind: TokenKind,
    lit: String,
    start: usize,
    ln: usize,
}

/// A token as plain values.
pub struct TokenView {
    pub kind: TokenKind,
    pub lit: Seq<char>,
    pub start: nat,
    pub ln: nat,
}

impl View for Token {
    type V = TokenView;

    closed spec fn view(&self) -> TokenView {
        TokenView { kind: self.kind, lit: self.lit@, start: self.start as nat, ln: self.ln as nat }
    }
}

impl Token {
    /// A token of the given kind and text, starting at offset `start` on
    /// line `ln`.
    pub fn new(kind: TokenKind, lit: String, start: usize, ln: usize) -> (r: Token)
        ensures
            r@ == (TokenView { kind, lit: lit@, start: start as nat, ln: ln as nat }),
    {
        Token { kind, lit, start, ln }
    }

    /// The token's kind.
    pub fn kind(&self) -> (r: TokenKind)
        ensures
            r == self@.kind,
    {
        self.kind
    }

    /// The token's text.
    pub fn lit(&self) -> (r: &String)
        ensures
            r@ == self@.lit,
    {
        &self.lit
    }

    /// The offset at which the token starts.
    pub fn start(&self) -> (r: usize)
        ensures
            r == self@.start,
    {
        self.start
    }

    /// The line on which the token starts.
    pub fn ln(&self) -> (r: usize)
        ensures
            r == self@.ln,
    {
        self.ln
    }
}

} // verus!
