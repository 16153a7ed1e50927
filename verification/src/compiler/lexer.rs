//! A cursor over the bytes of a source text.

use super::token::Token;
use crate::common::Error;
use vstd::prelude::*;
use vstd::string::StrSliceExecFns;
use vstd::utf8::encode_utf8;

verus! {

/// Walks over a source text byte by byte, keeping count of lines and
/// columns.
pub struct Lexer {
    text: Vec<u8>,
    init: bool,
    idx: usize,
    col: usize,
    ln: usize,
    ch: char,
}

/// A lexer as plain values.
pub struct LexerView {
    /// The bytes of the source text.
    pub text: Seq<u8>,
    /// Whether the next step stays on the current byte.
    pub init: bool,
    /// The offset of the current byte.
    pub idx: int,
    /// The column of the current byte, counted from one.
    pub col: int,
    /// The line of the current byte, counted from one.
    pub ln: int,
    /// The current byte as a character, or NUL beyond the end of the text.
    pub ch: char,
}

/// One step: the lexer moves to the next byte, unless it was told to stay,
/// and a line feed starts a new line.
pub open spec fn advance_spec(v: LexerView) -> LexerView {
    let idx = if v.init {
        v.idx
    } else {
        v.idx + 1
    };
    let col = if v.init {
        v.col
    } else {
        v.col + 1
    };
    let ch = if 0 <= idx < v.text.len() {
        v.text[idx] as char
    } else {
        '\0'
    };
    LexerView {
        text: v.text,
        init: false,
        idx,
        col: if ch == '\n' {
            1
        } else {
            col
        },
        ln: if ch == '\n' {
            v.ln + 1
        } else {
            v.ln
        },
        ch,
    }
}

impl View for Lexer {
    type V = LexerView;

    closed spec fn view(&self) -> LexerView {
        LexerView {
            text: self.text@,
            init: self.init,
            idx: self.idx as int,
            col: self.col as int,
            ln: self.ln as int,
            ch: self.ch,
        }
    }
}

impl Lexer {
    /// A lexer over the bytes of `text`, one step into it.
    pub fn new(text: String) -> (r: Lexer)
        ensures
            r@ == advance_spec(
                LexerView { text: encode_utf8(text@), init: false, idx: 0, col: 1, ln: 1, ch: '\0' },
            ),
    {
        let mut c = Lexer {
            text: text.as_str().as_bytes_vec(),
            init: false,
            idx: 0,
            col: 1,
            ln: 1,
            ch: '\0',
        };
        c.advance();
        c
    }

    fn advance(&mut self)
        requires
            old(self)@.idx < usize::MAX,
            old(self)@.col < usize::MAX,
            old(self)@.ln < usize::MAX,
        ensures
            final(self)@ == advance_spec(old(self)@),
    {
        if self.init {
            self.init = false;
        } else {
            self.idx += 1;
            self.col += 1;
        }
        self.ch = if self.idx < self.text.len() {
            self.text[self.idx] as char
        } else {
            '\0'
        };
        if self.ch == '\n' {
            self.ln += 1;
            self.col = 1;
        }
    }

    /// The tokens of the text. No token is recognised yet: the list is
    /// empty, and the lexer stays where it is.
    pub fn lex(&mut self) -> (r: Result<Vec<Token>, Error>)
        ensures
            r is Ok,
            r->Ok_0@.len() == 0,
            final(self)@ == old(self)@,
    {
        Ok(Vec::new())
    }

    /// The offset of the current byte.
    pub fn idx(&self) -> (r: usize)
        ensures
            r == self@.idx,
    {
        self.idx
    }

    /// The column of the current byte.
    pub fn col(&self) -> (r: usize)
        ensures
            r == self@.col,
    {
        self.col
    }

    /// The line of the current byte.
    pub fn ln(&self) -> (r: usize)
        ensures
            r == self@.ln,
    {
        self.ln
    }

    /// The current byte as a character.
    pub fn ch(&self) -> (r: char)
        ensures
            r == self@.ch,
    {
        self.ch
    }
}

} // verus!
