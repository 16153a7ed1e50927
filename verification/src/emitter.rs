//! Writing instructions in the machine's binary format: four bytes each,
//! the opcode and the literal flag in the first, operand A in the second
//! and third, and the destination in the fourth.

use crate::common::{high_byte, low_byte, saturate, Dest, Error, Num, Opcode};
use crate::vm::{literal_flag, literal_value, opcode_tag, selector};
use vstd::prelude::*;

verus! {

/// The four bytes of an instruction whose operand A is read through `src`.
pub open spec fn encode(opcode: Opcode, src: Dest, dst: Dest) -> Seq<u8> {
    seq![
        opcode.tag(),
        0u8,
        src.byte(),
        dst.byte(),
    ]
}

/// The four bytes of an instruction whose operand A is the literal `lit`,
/// saturated.
pub open spec fn encode_literal(opcode: Opcode, lit: i16, dst: Dest) -> Seq<u8> {
    seq![
        (opcode.tag() + 16) as u8,
        high_byte(saturate(lit as int)) as u8,
        low_byte(saturate(lit as int)) as u8,
        dst.byte(),
    ]
}

/// Collects the bytes of a program, instruction by instruction.
pub struct Emitter {
    instructions: Vec<u8>,
}

impl View for Emitter {
    type V = Seq<u8>;

    /// The bytes emitted so far.
    closed spec fn view(&self) -> Seq<u8> {
        self.instructions@
    }
}

impl Clone for Emitter {
    fn clone(&self) -> (r: Emitter)
        ensures
            r@ == self@,
    {
        Emitter { instructions: self.instructions.clone() }
    }
}

impl Emitter {
    /// An emitter that has emitted nothing.
    pub fn new() -> (r: Emitter)
        ensures
            r@ == Seq::<u8>::empty(),
    {
        Emitter { instructions: Vec::new() }
    }

    /// The bytes emitted so far.
    pub fn instructions(&self) -> (r: &Vec<u8>)
        ensures
            r@ == self@,
    {
        &self.instructions
    }

    /// Appends `bytes` as they are.
    pub fn emit(&mut self, bytes: &[u8])
        ensures
            final(self)@ == old(self)@ + bytes@,
    {
        self.instructions.extend_from_slice(bytes)
    }

    /// Appends the instruction `encode(opcode, src, dst)`.
    pub fn emit_instruction(&mut self, opcode: Opcode, src: Dest, dst: Dest)
        ensures
            final(self)@ == old(self)@ + encode(opcode, src, dst),
    {
        let bytes: [u8; 4] = [opcode.into(), 0, src.into(), dst.into()];
        assert(bytes@ =~= encode(opcode, src, dst));
        self.emit(&bytes)
    }

    /// Appends the instruction `encode_literal(opcode, lit, dst)`.
    pub fn emit_literal_instruction(&mut self, opcode: Opcode, lit: i16, dst: Dest)
        ensures
            final(self)@ == old(self)@ + encode_literal(opcode, lit, dst),
    {
        let (a, b) = Num::from(lit).to_u8();
        let tag: u8 = opcode.into();
        let bytes: [u8; 4] = [tag + 16, a, b, dst.into()];
        assert(bytes@ =~= encode_literal(opcode, lit, dst));
        self.emit(&bytes)
    }
}

/// An emitted instruction is decoded as what was asked for: the opcode, no
/// literal, and the two selectors.
pub proof fn lemma_encode_decodes(opcode: Opcode, src: Dest, dst: Dest)
    ensures
        ({
            let b = encode(opcode, src, dst);
            &&& b.len() == 4
            &&& Opcode::of_tag(opcode_tag(b[0])) == Ok::<Opcode, Error>(opcode)
            &&& !literal_flag(b[0])
            &&& selector(b[2]) == src
            &&& selector(b[3]) == dst
        }),
{
}

/// An emitted literal instruction is decoded as what was asked for: the
/// opcode, the literal saturated, and the destination.
pub proof fn lemma_encode_literal_decodes(opcode: Opcode, lit: i16, dst: Dest)
    ensures
        ({
            let b = encode_literal(opcode, lit, dst);
            &&& b.len() == 4
            &&& Opcode::of_tag(opcode_tag(b[0])) == Ok::<Opcode, Error>(opcode)
            &&& literal_flag(b[0])
            &&& literal_value(b[1], b[2]) == saturate(lit as int)
            &&& selector(b[3]) == dst
        }),
{
}

} // verus!
