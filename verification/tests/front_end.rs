use rs100::common::{Dest, Opcode};
use rs100::compiler::lexer::Lexer;
use rs100::compiler::token::{Token, TokenKind};
use rs100::emitter::Emitter;

#[test]
fn a_new_emitter_holds_nothing() {
    let e = Emitter::new();
    assert!(e.instructions().is_empty());
}

#[test]
fn emit_appends_the_bytes_as_they_are() {
    let mut e = Emitter::new();
    e.emit(&[1, 2, 3]);
    e.emit(&[]);
    e.emit(&[4]);
    assert_eq!(e.instructions(), &vec![1, 2, 3, 4]);
}

#[test]
fn emit_instruction_writes_opcode_and_selectors() {
    let mut e = Emitter::new();
    e.emit_instruction(Opcode::Mov, Dest::Up, Dest::Down);
    assert_eq!(e.instructions(), &vec![0x01, 0x00, 0x02, 0x03]);
    e.emit_instruction(Opcode::Jro, Dest::Last, Dest::Acc);
    assert_eq!(e.instructions(), &vec![0x01, 0x00, 0x02, 0x03, 0x0c, 0x00, 0x00, 0x01]);
}

#[test]
fn emit_instruction_of_nop_is_four_zero_bytes() {
    let mut e = Emitter::new();
    e.emit_instruction(Opcode::Nop, Dest::Last, Dest::Last);
    assert_eq!(e.instructions(), &vec![0, 0, 0, 0]);
}

#[test]
fn emit_literal_instruction_sets_the_flag_and_spells_the_literal() {
    let mut e = Emitter::new();
    e.emit_literal_instruction(Opcode::Mov, 42, Dest::Acc);
    assert_eq!(e.instructions(), &vec![0x11, 0x00, 0x2a, 0x01]);
    e.emit_literal_instruction(Opcode::Sub, -2, Dest::Last);
    assert_eq!(e.instructions()[4..], [0x15, 0xff, 0xfe, 0x00]);
}

#[test]
fn emit_literal_instruction_saturates_the_literal() {
    let mut e = Emitter::new();
    e.emit_literal_instruction(Opcode::Add, 1500, Dest::Last);
    e.emit_literal_instruction(Opcode::Add, -1500, Dest::Last);
    assert_eq!(e.instructions(), &vec![0x14, 0x03, 0xe7, 0x00, 0x14, 0xfc, 0x19, 0x00]);
}

#[test]
fn a_clone_of_an_emitter_holds_the_same_bytes() {
    let mut e = Emitter::new();
    e.emit(&[9, 8, 7]);
    let mut copy = e.clone();
    assert_eq!(copy.instructions(), e.instructions());
    copy.emit(&[6]);
    assert_eq!(e.instructions(), &vec![9, 8, 7]);
    assert_eq!(copy.instructions(), &vec![9, 8, 7, 6]);
}

#[test]
fn a_token_holds_what_it_was_made_with() {
    let t = Token::new(TokenKind::Number, String::from("42"), 7, 3);
    assert_eq!(t.kind(), TokenKind::Number);
    assert_eq!(t.lit(), "42");
    assert_eq!(t.start(), 7);
    assert_eq!(t.ln(), 3);
    let t = Token::new(TokenKind::String, String::new(), 0, 1);
    assert_eq!(t.kind(), TokenKind::String);
    assert_eq!(t.lit(), "");
    let t = Token::new(TokenKind::Nothing, String::from("x"), 1, 1);
    assert_eq!(t.kind(), TokenKind::Nothing);
}

#[test]
fn a_new_lexer_stands_one_step_into_the_text() {
    let lexer = Lexer::new(String::from("mov"));
    assert_eq!(lexer.idx(), 1);
    assert_eq!(lexer.col(), 2);
    assert_eq!(lexer.ln(), 1);
    assert_eq!(lexer.ch(), 'o');
}

#[test]
fn a_new_lexer_counts_a_line_feed_under_it() {
    let lexer = Lexer::new(String::from("a\nb"));
    assert_eq!(lexer.idx(), 1);
    assert_eq!(lexer.col(), 1);
    assert_eq!(lexer.ln(), 2);
    assert_eq!(lexer.ch(), '\n');
}

#[test]
fn a_new_lexer_beyond_the_text_reads_nul() {
    for text in ["", "a"] {
        let lexer = Lexer::new(String::from(text));
        assert_eq!(lexer.idx(), 1);
        assert_eq!(lexer.col(), 2);
        assert_eq!(lexer.ln(), 1);
        assert_eq!(lexer.ch(), '\0');
    }
}

#[test]
fn a_lexer_walks_over_bytes() {
    let lexer = Lexer::new(String::from("a\u{e9}"));
    assert_eq!(lexer.ch(), '\u{c3}');
}

#[test]
fn lex_finds_no_token_and_stays_where_it_is() {
    let mut lexer = Lexer::new(String::from("mov 1, acc\n"));
    let tokens = lexer.lex();
    assert!(matches!(tokens, Ok(ref list) if list.is_empty()));
    assert_eq!(lexer.idx(), 1);
    assert_eq!(lexer.col(), 2);
    assert_eq!(lexer.ln(), 1);
    assert_eq!(lexer.ch(), 'o');
}
