//! The values that the machine computes with, and the vocabulary of its
//! instructions: opcodes, destination selectors and errors.

use std::cmp::Ordering;
use std::ops::{Add, Sub};
use crate::decimal::{decimal, decimal_string};
use vstd::prelude::*;
use vstd::std_specs::cmp::{PartialEqSpecImpl, PartialOrdSpecImpl};
use vstd::std_specs::convert::{FromSpecImpl, TryFromSpecImpl};
use vstd::std_specs::ops::{AddSpecImpl, SubSpecImpl};
use vstd::string::StringExecFns;

verus! {

/// Every instruction occupies this many bytes of a program.
pub const INSTRUCTION_SIZE: usize = 4;

/// The largest value a [`Num`] can hold.
pub const NUM_MAX: i16 = 999;

/// The smallest value a [`Num`] can hold.
pub const NUM_MIN: i16 = -999;

/// Clamps an integer into the closed range from `NUM_MIN` to `NUM_MAX`.
pub open spec fn saturate(n: int) -> int {
    if n > NUM_MAX {
        NUM_MAX as int
    } else if n < NUM_MIN {
        NUM_MIN as int
    } else {
        n
    }
}

/// The number that a sixteen-bit word stands for in two's complement, given
/// the word's high and low byte.
pub open spec fn word(hi: u8, lo: u8) -> int {
    let unsigned = hi as int * 256 + lo as int;
    if unsigned < 32768 {
        unsigned
    } else {
        unsigned - 65536
    }
}

/// The high byte of the sixteen-bit two's-complement word that stands for `v`.
pub open spec fn high_byte(v: int) -> int {
    (v % 65536) / 256
}

/// The low byte of the sixteen-bit two's-complement word that stands for `v`.
pub open spec fn low_byte(v: int) -> int {
    v % 256
}

/// Where a value lands when it is taken for an unsigned offset: a negative
/// value wraps around the top of the address space.
pub open spec fn offset_of(v: int) -> int {
    if v >= 0 {
        v
    } else {
        usize::MAX + 1 + v
    }
}

/// The machine's unit of data: a signed integer that saturates at
/// `NUM_MIN` and `NUM_MAX` instead of wrapping or overflowing.
#[derive(Clone, Copy, Debug, Eq, Ord)]
pub struct Num {
    value: i16,
}

impl View for Num {
    type V = int;

    closed spec fn view(&self) -> int {
        self.value as int
    }
}

impl Num {
    /// Every `Num` holds a value from `NUM_MIN` to `NUM_MAX`.
    #[verifier::type_invariant]
    pub open spec fn in_range(self) -> bool {
        NUM_MIN <= self@ <= NUM_MAX
    }

    /// The value zero.
    pub fn new() -> (r: Num)
        ensures
            r@ == 0,
    {
        Num { value: 0 }
    }

    /// Reads a value from two bytes, the high byte first: the sixteen-bit
    /// two's-complement number they spell, saturated.
    pub fn from_u8(a: u8, b: u8) -> (r: Num)
        ensures
            r@ == saturate(word(a, b)),
    {
        let unsigned: i32 = (a as i32) * 256 + (b as i32);
        let signed: i32 = if unsigned < 32768 {
            unsigned
        } else {
            unsigned - 65536
        };
        Num::from(signed as i16)
    }

    /// The negated value. Negation never leaves the range, so nothing is lost.
    pub fn neg(&self) -> (r: Num)
        ensures
            r@ == -self@,
            r@ == saturate(-self@),
    {
        proof {
            use_type_invariant(self);
        }
        Num::from(-self.value)
    }

    /// Spells the value as two bytes, the high byte first, in sixteen-bit
    /// two's complement.
    pub fn to_u8(&self) -> (r: (u8, u8))
        ensures
            r.0 == high_byte(self@),
            r.1 == low_byte(self@),
            word(r.0, r.1) == self@,
    {
        proof {
            use_type_invariant(self);
        }
        let unsigned: i32 = if self.value < 0 {
            self.value as i32 + 65536
        } else {
            self.value as i32
        };
        ((unsigned / 256) as u8, (unsigned % 256) as u8)
    }

    /// The value in decimal.
    pub fn to_string(&self) -> (r: String)
        ensures
            r@ == decimal(self@),
    {
        decimal_string(self.value as i32)
    }
}

impl PartialEq for Num {
    /// Whether the two hold the same value, as `eq_spec` says.
    fn eq(&self, other: &Self) -> (r: bool) {
        self.value == other.value
    }
}

impl PartialEqSpecImpl for Num {
    open spec fn obeys_eq_spec() -> bool {
        true
    }

    open spec fn eq_spec(&self, other: &Self) -> bool {
        self@ == other@
    }
}

impl PartialOrd for Num {
    /// The order of the two values, as `partial_cmp_spec` says. Any two
    /// values are ordered.
    fn partial_cmp(&self, other: &Self) -> (r: Option<Ordering>) {
        if self.value > other.value {
            Some(Ordering::Greater)
        } else if self.value < other.value {
            Some(Ordering::Less)
        } else {
            Some(Ordering::Equal)
        }
    }
}

impl PartialOrdSpecImpl for Num {
    open spec fn obeys_partial_cmp_spec() -> bool {
        true
    }

    open spec fn partial_cmp_spec(&self, other: &Self) -> Option<Ordering> {
        if self@ > other@ {
            Some(Ordering::Greater)
        } else if self@ < other@ {
            Some(Ordering::Less)
        } else {
            Some(Ordering::Equal)
        }
    }
}

impl From<i16> for Num {
    /// Saturates `value`: a value in range is kept, one above the range
    /// becomes `NUM_MAX`, one below it `NUM_MIN`.
    fn from(value: i16) -> (r: Num)
        ensures
            r@ == saturate(value as int),
            NUM_MIN <= r@ <= NUM_MAX,
            NUM_MIN <= value <= NUM_MAX ==> r@ == value,
            value > NUM_MAX ==> r@ == NUM_MAX,
            value < NUM_MIN ==> r@ == NUM_MIN,
    {
        if value > NUM_MAX {
            Num { value: NUM_MAX }
        } else if value < NUM_MIN {
            Num { value: NUM_MIN }
        } else {
            Num { value }
        }
    }
}

impl FromSpecImpl<i16> for Num {
    open spec fn obeys_from_spec() -> bool {
        true
    }

    closed spec fn from_spec(value: i16) -> Num {
        Num { value: saturate(value as int) as i16 }
    }
}

impl Add for Num {
    type Output = Num;

    /// The saturated sum.
    fn add(self, rhs: Self) -> (r: Num)
        ensures
            r@ == saturate(self@ + rhs@),
            NUM_MIN <= r@ <= NUM_MAX,
    {
        proof {
            use_type_invariant(&self);
            use_type_invariant(&rhs);
        }
        Num::from(self.value + rhs.value)
    }
}

impl AddSpecImpl for Num {
    open spec fn obeys_add_spec() -> bool {
        true
    }

    open spec fn add_req(self, rhs: Num) -> bool {
        true
    }

    closed spec fn add_spec(self, rhs: Num) -> Num {
        Num { value: saturate(self@ + rhs@) as i16 }
    }
}

impl Sub for Num {
    type Output = Num;

    /// The saturated difference.
    fn sub(self, rhs: Self) -> (r: Num)
        ensures
            r@ == saturate(self@ - rhs@),
            NUM_MIN <= r@ <= NUM_MAX,
    {
        proof {
            use_type_invariant(&self);
            use_type_invariant(&rhs);
        }
        Num::from(self.value - rhs.value)
    }
}

impl SubSpecImpl for Num {
    open spec fn obeys_sub_spec() -> bool {
        true
    }

    open spec fn sub_req(self, rhs: Num) -> bool {
        true
    }

    closed spec fn sub_spec(self, rhs: Num) -> Num {
        Num { value: saturate(self@ - rhs@) as i16 }
    }
}

impl From<Num> for i16 {
    /// The value as a plain integer.
    fn from(n: Num) -> (r: i16)
        ensures
            r == n@,
            NUM_MIN <= r <= NUM_MAX,
    {
        proof {
            use_type_invariant(&n);
        }
        n.value
    }
}

impl FromSpecImpl<Num> for i16 {
    open spec fn obeys_from_spec() -> bool {
        true
    }

    open spec fn from_spec(n: Num) -> i16 {
        n@ as i16
    }
}

impl From<Num> for usize {
    /// The value as an offset. A negative value wraps around, as `offset_of`
    /// says, and so lands above every offset that a program has.
    fn from(n: Num) -> (r: usize)
        ensures
            r == offset_of(n@),
    {
        proof {
            use_type_invariant(&n);
        }
        if n.value >= 0 {
            n.value as usize
        } else {
            usize::MAX - ((-1 - n.value) as usize)
        }
    }
}

impl FromSpecImpl<Num> for usize {
    open spec fn obeys_from_spec() -> bool {
        true
    }

    open spec fn from_spec(n: Num) -> usize {
        offset_of(n@) as usize
    }
}

/// Why a run, a conversion or a port exchange failed.
#[derive(Debug, PartialEq, Eq)]
pub enum Error {
    /// The low four bits of an instruction's first byte name no opcode.
    /// Carries those four bits.
    InvalidOpcode(u8),
    /// Fewer than `INSTRUCTION_SIZE` bytes are left at the program counter.
    TruncatedInstruction,
    /// A byte that names no destination selector.
    InvalidDest(u8),
    /// A port was asked for under a name that no port has.
    InvalidModule(String),
    /// A stack port was read while empty.
    StackUnderflow,
    /// An input port has nothing left to give.
    EndOfInput,
    /// A port's input or output failed; carries the system's message.
    Io(String),
}

/// What an instruction does.
#[derive(Clone, Copy, Debug, PartialEq, Eq, Structural)]
pub enum Opcode {
    Nop,
    Mov,
    Swp,
    Sav,
    Add,
    Sub,
    Neg,
    Jmp,
    Jez,
    Jnz,
    Jgz,
    Jlz,
    Jro,
}

impl TryFrom<u8> for Opcode {
    type Error = Error;

    /// The opcode that `value` names, or `InvalidOpcode` with `value`.
    fn try_from(value: u8) -> (r: Result<Opcode, Error>)
        ensures
            r == Opcode::of_tag(value),
    {
        match value {
            0 => Ok(Opcode::Nop),
            1 => Ok(Opcode::Mov),
            2 => Ok(Opcode::Swp),
            3 => Ok(Opcode::Sav),
            4 => Ok(Opcode::Add),
            5 => Ok(Opcode::Sub),
            6 => Ok(Opcode::Neg),
            7 => Ok(Opcode::Jmp),
            8 => Ok(Opcode::Jez),
            9 => Ok(Opcode::Jnz),
            10 => Ok(Opcode::Jgz),
            11 => Ok(Opcode::Jlz),
            12 => Ok(Opcode::Jro),
            _ => Err(Error::InvalidOpcode(value)),
        }
    }
}

impl Opcode {
    /// The opcode that a tag names. A tag above twelve names none.
    pub open spec fn of_tag(tag: u8) -> Result<Opcode, Error> {
        match tag {
            0 => Ok(Opcode::Nop),
            1 => Ok(Opcode::Mov),
            2 => Ok(Opcode::Swp),
            3 => Ok(Opcode::Sav),
            4 => Ok(Opcode::Add),
            5 => Ok(Opcode::Sub),
            6 => Ok(Opcode::Neg),
            7 => Ok(Opcode::Jmp),
            8 => Ok(Opcode::Jez),
            9 => Ok(Opcode::Jnz),
            10 => Ok(Opcode::Jgz),
            11 => Ok(Opcode::Jlz),
            12 => Ok(Opcode::Jro),
            _ => Err(Error::InvalidOpcode(tag)),
        }
    }

    /// The tag that names the opcode.
    pub open spec fn tag(self) -> u8 {
        match self {
            Opcode::Nop => 0,
            Opcode::Mov => 1,
            Opcode::Swp => 2,
            Opcode::Sav => 3,
            Opcode::Add => 4,
            Opcode::Sub => 5,
            Opcode::Neg => 6,
            Opcode::Jmp => 7,
            Opcode::Jez => 8,
            Opcode::Jnz => 9,
            Opcode::Jgz => 10,
            Opcode::Jlz => 11,
            Opcode::Jro => 12,
        }
    }
}

impl TryFromSpecImpl<u8> for Opcode {
    open spec fn obeys_try_from_spec() -> bool {
        true
    }

    open spec fn try_from_spec(value: u8) -> Result<Opcode, Error> {
        Opcode::of_tag(value)
    }
}

impl From<Opcode> for u8 {
    /// The tag that stands for the opcode in an instruction's first byte.
    fn from(op: Opcode) -> (r: u8)
        ensures
            r == op.tag(),
    {
        match op {
            Opcode::Nop => 0,
            Opcode::Mov => 1,
            Opcode::Swp => 2,
            Opcode::Sav => 3,
            Opcode::Add => 4,
            Opcode::Sub => 5,
            Opcode::Neg => 6,
            Opcode::Jmp => 7,
            Opcode::Jez => 8,
            Opcode::Jnz => 9,
            Opcode::Jgz => 10,
            Opcode::Jlz => 11,
            Opcode::Jro => 12,
        }
    }
}

impl FromSpecImpl<Opcode> for u8 {
    open spec fn obeys_from_spec() -> bool {
        true
    }

    open spec fn from_spec(op: Opcode) -> u8 {
        op.tag()
    }
}

/// Names where an operand comes from or where a result goes.
#[derive(Clone, Copy, Debug, PartialEq, Eq, Structural)]
pub enum Dest {
    /// Whichever port was engaged last.
    Last,
    /// The accumulator.
    Acc,
    /// The up port.
    Up,
    /// The down port.
    Down,
}

impl Default for Dest {
    /// `Last`.
    fn default() -> (r: Dest)
        ensures
            r == Dest::Last,
    {
        Dest::Last
    }
}

impl TryFrom<u8> for Dest {
    type Error = Error;

    /// The selector that `value` names, or `InvalidDest` with `value`.
    fn try_from(value: u8) -> (r: Result<Dest, Error>)
        ensures
            r == Dest::of_byte(value),
    {
        match value {
            0 => Ok(Dest::Last),
            1 => Ok(Dest::Acc),
            2 => Ok(Dest::Up),
            3 => Ok(Dest::Down),
            _ => Err(Error::InvalidDest(value)),
        }
    }
}

impl Dest {
    /// The selector that a byte names. A byte above three names none.
    pub open spec fn of_byte(byte: u8) -> Result<Dest, Error> {
        match byte {
            0 => Ok(Dest::Last),
            1 => Ok(Dest::Acc),
            2 => Ok(Dest::Up),
            3 => Ok(Dest::Down),
            _ => Err(Error::InvalidDest(byte)),
        }
    }

    /// The byte that names the selector.
    pub open spec fn byte(self) -> u8 {
        match self {
            Dest::Last => 0,
            Dest::Acc => 1,
            Dest::Up => 2,
            Dest::Down => 3,
        }
    }
}

impl TryFromSpecImpl<u8> for Dest {
    open spec fn obeys_try_from_spec() -> bool {
        true
    }

    open spec fn try_from_spec(value: u8) -> Result<Dest, Error> {
        Dest::of_byte(value)
    }
}

impl From<Dest> for u8 {
    /// The byte that stands for the selector in an instruction.
    fn from(d: Dest) -> (r: u8)
        ensures
            r == d.byte(),
    {
        match d {
            Dest::Last => 0,
            Dest::Acc => 1,
            Dest::Up => 2,
            Dest::Down => 3,
        }
    }
}

impl FromSpecImpl<Dest> for u8 {
    open spec fn obeys_from_spec() -> bool {
        true
    }

    open spec fn from_spec(d: Dest) -> u8 {
        d.byte()
    }
}

impl Dest {
    /// The selector's name.
    pub fn to_string(&self) -> (r: String)
        ensures
            r@ == match *self {
                Dest::Last => "Last"@,
                Dest::Acc => "Acc"@,
                Dest::Up => "Up"@,
                Dest::Down => "Down"@,
            },
    {
        String::from_str(
            match self {
                Dest::Last => "Last",
                Dest::Acc => "Acc",
                Dest::Up => "Up",
                Dest::Down => "Down",
            },
        )
    }
}

impl Error {
    /// The text of `message`.
    pub open spec fn text(&self) -> Seq<char> {
        match *self {
            Error::InvalidOpcode(tag) => "invalid opcode "@ + decimal(tag as int),
            Error::TruncatedInstruction => "truncated instruction"@,
            Error::InvalidDest(byte) => decimal(byte as int) + " is not a valid Dest value"@,
            Error::InvalidModule(name) => "'"@ + name@ + "' is not a valid module"@,
            Error::StackUnderflow => "stack underflow"@,
            Error::EndOfInput => "end of input"@,
            Error::Io(detail) => detail@,
        }
    }

    /// Describes the error for a reader.
    pub fn message(&self) -> (r: String)
        ensures
            r@ == self.text(),
    {
        match self {
            Error::InvalidOpcode(tag) => {
                let mut s = String::from_str("invalid opcode ");
                s.append(decimal_string(*tag as i32).as_str());
                s
            },
            Error::TruncatedInstruction => String::from_str("truncated instruction"),
            Error::InvalidDest(byte) => {
                let mut s = decimal_string(*byte as i32);
                s.append(" is not a valid Dest value");
                s
            },
            Error::InvalidModule(name) => {
                let mut s = String::from_str("'");
                s.append(name.as_str());
                s.append("' is not a valid module");
                s
            },
            Error::StackUnderflow => String::from_str("stack underflow"),
            Error::EndOfInput => String::from_str("end of input"),
            Error::Io(detail) => detail.clone(),
        }
    }
}

/// An opcode's tag names that opcode, and a selector's byte that selector.
pub proof fn lemma_tags_round_trip(op: Opcode, d: Dest)
    ensures
        op.tag() <= 12,
        Opcode::of_tag(op.tag()) == Ok::<Opcode, Error>(op),
        d.byte() <= 3,
        Dest::of_byte(d.byte()) == Ok::<Dest, Error>(d),
{
}

/// Saturation lands in the range, keeps what is in it, and sends what is
/// above it to `NUM_MAX` and what is below it to `NUM_MIN`.
pub proof fn lemma_saturate_clamps(n: int)
    ensures
        NUM_MIN <= saturate(n) <= NUM_MAX,
        NUM_MIN <= n <= NUM_MAX ==> saturate(n) == n,
        n > NUM_MAX ==> saturate(n) == NUM_MAX,
        n < NUM_MIN ==> saturate(n) == NUM_MIN,
{
}

/// Saturated sums and differences stay in the range whatever the operands,
/// and stop at the end of the range that the exact result lies beyond.
pub proof fn lemma_sum_and_difference_saturate(a: int, b: int)
    requires
        NUM_MIN <= a <= NUM_MAX,
        NUM_MIN <= b <= NUM_MAX,
    ensures
        NUM_MIN <= saturate(a + b) <= NUM_MAX,
        NUM_MIN <= saturate(a - b) <= NUM_MAX,
        a + b >= NUM_MAX ==> saturate(a + b) == NUM_MAX,
        a + b <= NUM_MIN ==> saturate(a + b) == NUM_MIN,
        a - b >= NUM_MAX ==> saturate(a - b) == NUM_MAX,
        a - b <= NUM_MIN ==> saturate(a - b) == NUM_MIN,
{
}

/// Negation keeps zero, and negating twice gives the value back. The range
/// is symmetric, so this holds at both of its ends too.
pub proof fn lemma_neg_involution(v: int)
    requires
        NUM_MIN <= v <= NUM_MAX,
    ensures
        saturate(-saturate(0)) == saturate(0),
        saturate(-saturate(-v)) == v,
{
}

/// The two bytes that `to_u8` gives for a value in the range spell that
/// value again when `from_u8` reads them.
pub proof fn lemma_bytes_round_trip(v: int)
    requires
        NUM_MIN <= v <= NUM_MAX,
    ensures
        0 <= high_byte(v) < 256,
        0 <= low_byte(v) < 256,
        word(high_byte(v) as u8, low_byte(v) as u8) == v,
        saturate(word(high_byte(v) as u8, low_byte(v) as u8)) == v,
{
}

} // verus!
