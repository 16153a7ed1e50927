//! The machine and what its instructions mean.
//!
//! The meaning is given by specification functions over a plain model of
//! the registers: [`step_spec`] for one instruction and [`run_spec`] for a
//! run. What the ports answer is not known beforehand, so both take it from
//! a journal, which has one [`Exchange`] for each instruction executed;
//! [`RS100::execute`] is verified to compute what they say and to call the
//! ports as the journal records.

use crate::common::{
    offset_of, saturate, word, Dest, Error, Num, Opcode, INSTRUCTION_SIZE, NUM_MAX, NUM_MIN,
};
use crate::decimal::decimal;
use crate::modules::{reply_of, Call, LoggedPort, Module};
use vstd::prelude::*;
use vstd::string::StringExecFns;

verus! {

/// The registers of a machine, as plain mathematical values.
pub struct State {
    /// The program counter: a byte offset into the program.
    pub pc: int,
    /// The accumulator.
    pub acc: int,
    /// The backup register.
    pub bak: int,
    /// The port that was engaged last.
    pub last: Port,
}

impl State {
    /// Whether both registers hold values that a `Num` can hold, and the
    /// program counter is an offset.
    pub open spec fn valid(self) -> bool {
        &&& self.pc >= 0
        &&& NUM_MIN <= self.acc <= NUM_MAX
        &&& NUM_MIN <= self.bak <= NUM_MAX
    }
}

/// One of the machine's two ports.
#[derive(Clone, Copy, Debug, PartialEq, Eq, Structural)]
pub enum Port {
    Up,
    Down,
}

/// One read of a port: which port was asked and what it answered.
pub struct ReadRecord {
    pub port: Port,
    pub reply: Result<int, Error>,
}

/// One write to a port: which port was handed which value, and what it
/// answered (`None` where it took the value).
pub struct WriteRecord {
    pub port: Port,
    pub value: int,
    pub reply: Option<Error>,
}

/// What one instruction exchanged with the ports: at most one read, and
/// after it at most one write.
pub struct Exchange {
    pub read: Option<ReadRecord>,
    pub write: Option<WriteRecord>,
}

impl Exchange {
    /// Whether the value that was read, if one was, is one that a `Num` can
    /// hold.
    pub open spec fn valid(self) -> bool {
        match self.read {
            Some(rec) => match rec.reply {
                Ok(v) => NUM_MIN <= v <= NUM_MAX,
                Err(_) => true,
            },
            None => true,
        }
    }
}

/// The calls that an instruction made to port `p`, in their order: the read,
/// if it went to `p`, and then the write, if it went to `p`.
pub open spec fn calls_of(p: Port, x: Exchange) -> Seq<Call> {
    let read = match x.read {
        Some(rec) if rec.port == p => seq![Call::Read(rec.reply)],
        _ => Seq::<Call>::empty(),
    };
    let write = match x.write {
        Some(rec) if rec.port == p => seq![Call::Write(rec.value, rec.reply)],
        _ => Seq::<Call>::empty(),
    };
    read + write
}

/// The calls that the instructions of a journal made to port `p`, in their
/// order.
pub open spec fn calls_on(p: Port, xs: Seq<Exchange>) -> Seq<Call>
    decreases xs.len(),
{
    if xs.len() == 0 {
        Seq::<Call>::empty()
    } else {
        calls_on(p, xs.drop_last()) + calls_of(p, xs.last())
    }
}

/// The opcode tag of an instruction: the low four bits of its first byte.
pub open spec fn opcode_tag(b0: u8) -> u8 {
    (b0 % 16) as u8
}

/// Whether operand A is a literal: bit four of the first byte. The three
/// bits above it mean nothing.
pub open spec fn literal_flag(b0: u8) -> bool {
    (b0 / 16) % 2 == 1
}

/// The literal that the second and third byte of an instruction spell.
pub open spec fn literal_value(b1: u8, b2: u8) -> int {
    saturate(word(b1, b2))
}

/// The selector that a byte names. A byte that names none stands for `Last`.
pub open spec fn selector(b: u8) -> Dest {
    match Dest::of_byte(b) {
        Ok(d) => d,
        Err(_) => Dest::Last,
    }
}

/// The jump target of an instruction: its last three bytes as one number
/// of twenty-four bits, the first of them the most significant.
pub open spec fn jump_target(b1: u8, b2: u8, b3: u8) -> int {
    b1 as int * 65536 + b2 as int * 256 + b3 as int
}

/// The port that a selector engages, or `None` where it stands for the
/// accumulator. `Last` stands for the port that was engaged last, so it
/// never leads to the accumulator.
pub open spec fn port_of(sel: Dest, last: Port) -> Option<Port> {
    match sel {
        Dest::Last => Some(last),
        Dest::Acc => None,
        Dest::Up => Some(Port::Up),
        Dest::Down => Some(Port::Down),
    }
}

/// The port that answers when port `p` is read: the up port, whichever is
/// read. The up port is the machine's one source of input; the down port is
/// only ever written to.
pub open spec fn answering(p: Port) -> Port {
    Port::Up
}

/// A read through `sel`: the state after it and the value read. `rec` is the
/// record of the port read that it makes, if it makes one.
///
/// The accumulator is read in place and engages nothing. A port that
/// answers with a value becomes the port engaged last; one that fails
/// leaves the state as it was.
pub open spec fn read_through(s: State, sel: Dest, rec: Option<ReadRecord>) -> (
    State,
    Result<int, Error>,
) {
    match port_of(sel, s.last) {
        None => (s, Ok(s.acc)),
        Some(p) => match rec->0.reply {
            Ok(v) => (State { last: p, ..s }, Ok(v)),
            Err(e) => (s, Err(e)),
        },
    }
}

/// A write of `v` through `sel`: the state after it and whether it went
/// well. `rec` is the record of the port write that it makes, if it makes
/// one.
///
/// The accumulator takes the value and engages nothing. A port that takes
/// the value becomes the port engaged last; one that fails leaves the state
/// as it was.
pub open spec fn write_through(s: State, sel: Dest, v: int, rec: Option<WriteRecord>) -> (
    State,
    Result<(), Error>,
) {
    match port_of(sel, s.last) {
        None => (State { acc: v, ..s }, Ok(())),
        Some(p) => match rec->0.reply {
            None => (State { last: p, ..s }, Ok(())),
            Some(e) => (s, Err(e)),
        },
    }
}

/// Operand A of an instruction, before it is read: a literal that the
/// instruction carries, or the selector to read it through.
#[derive(Clone, Copy)]
enum Operand {
    Literal(Num),
    Select(Dest),
}

/// Operand A of the instruction with the given bytes, read in state `s`:
/// the state after the read and the value. A literal is read from the
/// instruction itself; anything else is read through the selector in the
/// third byte.
pub open spec fn operand_a(s: State, b0: u8, b1: u8, b2: u8, rec: Option<ReadRecord>) -> (
    State,
    Result<int, Error>,
) {
    if literal_flag(b0) {
        (s, Ok(literal_value(b1, b2)))
    } else {
        read_through(s, selector(b2), rec)
    }
}

/// The state with the program counter moved to the next instruction.
pub open spec fn advance(s: State) -> State {
    State { pc: s.pc + INSTRUCTION_SIZE, ..s }
}

/// The state with the program counter at `target` if `taken`, else at the
/// next instruction.
pub open spec fn branch(s: State, taken: bool, target: int) -> State {
    if taken {
        State { pc: target, ..s }
    } else {
        advance(s)
    }
}

/// What the instruction with opcode `op` and bytes `b0` to `b3` does to
/// state `s`, where `x` records what the ports answered.
///
/// An instruction that fails leaves the program counter where it is, and
/// keeps what it had changed before it failed.
pub open spec fn apply(op: Opcode, b0: u8, b1: u8, b2: u8, b3: u8, s: State, x: Exchange) -> (
    State,
    Result<(), Error>,
) {
    let target = jump_target(b1, b2, b3);
    match op {
        Opcode::Nop => (advance(s), Ok(())),
        Opcode::Mov => {
            let (s1, a) = operand_a(s, b0, b1, b2, x.read);
            match a {
                Ok(v) => {
                    let (s2, w) = write_through(s1, selector(b3), v, x.write);
                    match w {
                        Ok(_) => (advance(s2), Ok(())),
                        Err(e) => (s2, Err(e)),
                    }
                },
                Err(e) => (s1, Err(e)),
            }
        },
        Opcode::Swp => (advance(State { acc: s.bak, bak: s.acc, ..s }), Ok(())),
        Opcode::Sav => (advance(State { bak: s.acc, ..s }), Ok(())),
        Opcode::Add => {
            let (s1, a) = operand_a(s, b0, b1, b2, x.read);
            match a {
                Ok(v) => (advance(State { acc: saturate(s1.acc + v), ..s1 }), Ok(())),
                Err(e) => (s1, Err(e)),
            }
        },
        Opcode::Sub => {
            let (s1, a) = operand_a(s, b0, b1, b2, x.read);
            match a {
                Ok(v) => (advance(State { acc: saturate(s1.acc - v), ..s1 }), Ok(())),
                Err(e) => (s1, Err(e)),
            }
        },
        Opcode::Neg => (advance(State { acc: saturate(-s.acc), ..s }), Ok(())),
        Opcode::Jmp => (branch(s, true, target), Ok(())),
        Opcode::Jez => (branch(s, s.acc == 0, target), Ok(())),
        Opcode::Jnz => (branch(s, s.acc != 0, target), Ok(())),
        Opcode::Jgz => (branch(s, s.acc > 0, target), Ok(())),
        Opcode::Jlz => (branch(s, s.acc < 0, target), Ok(())),
        Opcode::Jro => (State { pc: offset_of(s.acc), ..s }, Ok(())),
    }
}

/// The port that the instruction reads, if it reads one: only `Mov`, `Add`
/// and `Sub` read operand A, and only where it is no literal.
pub open spec fn port_read(op: Opcode, b0: u8, b2: u8, s: State) -> Option<Port> {
    if (op == Opcode::Mov || op == Opcode::Add || op == Opcode::Sub) && !literal_flag(b0) {
        match port_of(selector(b2), s.last) {
            Some(p) => Some(answering(p)),
            None => None,
        }
    } else {
        None
    }
}

/// The port that the instruction writes to and the value it hands over, if
/// it writes to one: only `Mov` writes, and only once it has its operand.
pub open spec fn port_write(
    op: Opcode,
    b0: u8,
    b1: u8,
    b2: u8,
    b3: u8,
    s: State,
    rec: Option<ReadRecord>,
) -> Option<(Port, int)> {
    let (s1, a) = operand_a(s, b0, b1, b2, rec);
    if op == Opcode::Mov && a is Ok {
        match port_of(selector(b3), s1.last) {
            Some(p) => Some((p, a->Ok_0)),
            None => None,
        }
    } else {
        None
    }
}

/// Whether the machine is at the end of its program.
pub open spec fn halted(prog: Seq<u8>, s: State) -> bool {
    s.pc >= prog.len()
}

/// The instruction at the program counter: its opcode, where four bytes
/// are left and the first names one.
pub open spec fn fetch(prog: Seq<u8>, s: State) -> Result<Opcode, Error> {
    if s.pc + INSTRUCTION_SIZE > prog.len() {
        Err(Error::TruncatedInstruction)
    } else {
        Opcode::of_tag(opcode_tag(prog[s.pc]))
    }
}

/// One instruction: the state after the machine in state `s` has executed
/// the instruction at its program counter, and whether that went well. `x`
/// records what the ports answered meanwhile.
///
/// An instruction that cannot be decoded changes nothing.
pub open spec fn step_spec(prog: Seq<u8>, s: State, x: Exchange) -> (State, Result<(), Error>) {
    match fetch(prog, s) {
        Ok(op) => apply(op, prog[s.pc], prog[s.pc + 1], prog[s.pc + 2], prog[s.pc + 3], s, x),
        Err(e) => (s, Err(e)),
    }
}

/// Whether `x` is what the instruction at the program counter exchanges
/// with the ports: it reads the port that the instruction reads and no
/// other, and writes the value that the instruction writes, to the port
/// that it writes to, and nothing else.
pub open spec fn exchange_fits(prog: Seq<u8>, s: State, x: Exchange) -> bool {
    match fetch(prog, s) {
        Ok(op) => {
            let b0 = prog[s.pc];
            let b1 = prog[s.pc + 1];
            let b2 = prog[s.pc + 2];
            let b3 = prog[s.pc + 3];
            &&& match x.read {
                Some(r) => port_read(op, b0, b2, s) == Some(r.port),
                None => port_read(op, b0, b2, s) is None,
            }
            &&& match x.write {
                Some(w) => port_write(op, b0, b1, b2, b3, s, x.read) == Some((w.port, w.value)),
                None => port_write(op, b0, b1, b2, b3, s, x.read) is None,
            }
        },
        Err(_) => x.read is None && x.write is None,
    }
}

/// A run: the state after the machine, started in state `s`, has executed
/// one instruction for each entry of `xs`, and how the last of them ended.
/// It is `None` where `xs` is no journal of such a run: where an entry does
/// not fit its instruction, or stands after the end of the program or after
/// a failure.
pub open spec fn run_spec(prog: Seq<u8>, s: State, xs: Seq<Exchange>) -> Option<
    (State, Result<(), Error>),
>
    decreases xs.len(),
{
    if xs.len() == 0 {
        Some((s, Ok(())))
    } else {
        match run_spec(prog, s, xs.drop_last()) {
            Some((before, Ok(_))) => {
                if !halted(prog, before) && exchange_fits(prog, before, xs.last()) {
                    Some(step_spec(prog, before, xs.last()))
                } else {
                    None
                }
            },
            _ => None,
        }
    }
}

/// Once a port has taken a value written through `Up` or `Down`, `Last`
/// stands for that port: a read or a write through `Last` engages the same
/// port, leaves the same state and gives the same result as one through the
/// selector that was written through.
pub proof fn lemma_last_follows_port(
    s: State,
    sel: Dest,
    v: int,
    w: Option<WriteRecord>,
    r2: Option<ReadRecord>,
    v2: int,
    w2: Option<WriteRecord>,
)
    requires
        sel == Dest::Up || sel == Dest::Down,
        write_through(s, sel, v, w).1 is Ok,
    ensures
        ({
            let after = write_through(s, sel, v, w).0;
            &&& port_of(Dest::Last, after.last) == port_of(sel, after.last)
            &&& read_through(after, Dest::Last, r2) == read_through(after, sel, r2)
            &&& write_through(after, Dest::Last, v2, w2) == write_through(after, sel, v2, w2)
        }),
{
}

/// The same after a port has answered a read through `Up` or `Down` with a
/// value.
pub proof fn lemma_last_follows_read(
    s: State,
    sel: Dest,
    r: Option<ReadRecord>,
    r2: Option<ReadRecord>,
    v2: int,
    w2: Option<WriteRecord>,
)
    requires
        sel == Dest::Up || sel == Dest::Down,
        read_through(s, sel, r).1 is Ok,
    ensures
        ({
            let after = read_through(s, sel, r).0;
            &&& port_of(Dest::Last, after.last) == port_of(sel, after.last)
            &&& read_through(after, Dest::Last, r2) == read_through(after, sel, r2)
            &&& write_through(after, Dest::Last, v2, w2) == write_through(after, sel, v2, w2)
        }),
{
}

/// Reading or writing the accumulator engages no port: what `Last` stands
/// for afterwards is what it stood for before.
pub proof fn lemma_accumulator_keeps_last(
    s: State,
    v: int,
    r: Option<ReadRecord>,
    w: Option<WriteRecord>,
)
    ensures
        read_through(s, Dest::Acc, r) == (s, Ok::<int, Error>(s.acc)),
        write_through(s, Dest::Acc, v, w) == (State { acc: v, ..s }, Ok::<(), Error>(())),
        port_of(Dest::Last, read_through(s, Dest::Acc, r).0.last) == port_of(Dest::Last, s.last),
        port_of(Dest::Last, write_through(s, Dest::Acc, v, w).0.last) == port_of(
            Dest::Last,
            s.last,
        ),
{
}

/// An instruction keeps the registers within what a `Num` can hold, as
/// long as what the ports answer is within it.
pub proof fn lemma_step_keeps_state_valid(prog: Seq<u8>, s: State, x: Exchange)
    requires
        s.valid(),
        x.valid(),
        exchange_fits(prog, s, x),
    ensures
        step_spec(prog, s, x).0.valid(),
{
}

/// A run keeps the registers within what a `Num` can hold at every step,
/// as long as what the ports answer is within it.
pub proof fn lemma_run_keeps_state_valid(prog: Seq<u8>, s: State, xs: Seq<Exchange>)
    requires
        s.valid(),
        forall|i: int| 0 <= i < xs.len() ==> (#[trigger] xs[i]).valid(),
        run_spec(prog, s, xs) is Some,
    ensures
        run_spec(prog, s, xs) matches Some((reached, _)) && reached.valid(),
    decreases xs.len(),
{
    if xs.len() > 0 {
        lemma_run_keeps_state_valid(prog, s, xs.drop_last());
        match run_spec(prog, s, xs.drop_last()) {
            Some((before, _)) => lemma_step_keeps_state_valid(prog, before, xs.last()),
            None => {},
        }
    }
}

/// Only `Mov`, `Add` and `Sub` can touch a port: any other instruction
/// exchanges nothing, whatever its bytes spell, and never fails.
pub proof fn lemma_other_instructions_touch_no_port(prog: Seq<u8>, s: State, x: Exchange)
    requires
        fetch(prog, s) is Ok,
        fetch(prog, s)->Ok_0 != Opcode::Mov,
        fetch(prog, s)->Ok_0 != Opcode::Add,
        fetch(prog, s)->Ok_0 != Opcode::Sub,
    ensures
        exchange_fits(prog, s, x) <==> x.read is None && x.write is None,
        step_spec(prog, s, x).1 is Ok,
        fetch(prog, s)->Ok_0 == Opcode::Nop ==> step_spec(prog, s, x).0 == advance(s),
{
}

/// A run can be taken up where it stopped: executing the entries of `xs`
/// and then, from the state reached, those of `ys` is executing those of
/// `xs + ys` in one go.
pub proof fn lemma_run_continues(prog: Seq<u8>, s: State, xs: Seq<Exchange>, ys: Seq<Exchange>)
    requires
        run_spec(prog, s, xs) matches Some((_, Ok(_))),
    ensures
        run_spec(prog, s, xs) matches Some((reached, _)) && run_spec(prog, s, xs + ys) == run_spec(
            prog,
            reached,
            ys,
        ),
    decreases ys.len(),
{
    if ys.len() == 0 {
        assert(xs + ys =~= xs);
    } else {
        lemma_run_continues(prog, s, xs, ys.drop_last());
        assert((xs + ys).drop_last() =~= xs + ys.drop_last());
        assert((xs + ys).last() == ys.last());
    }
}

/// A first byte whose low four bits name no opcode stops the machine where
/// it stands: the instruction fails with those four bits, changes nothing
/// and touches no port, and no instruction is executed after it.
pub proof fn lemma_invalid_opcode_stops(prog: Seq<u8>, s: State, x: Exchange, next: Exchange)
    requires
        0 <= s.pc,
        s.pc + INSTRUCTION_SIZE <= prog.len(),
        opcode_tag(prog[s.pc]) > 12,
    ensures
        step_spec(prog, s, x) == (s, Err::<(), Error>(Error::InvalidOpcode(opcode_tag(prog[s.pc])))),
        exchange_fits(prog, s, x) <==> x.read is None && x.write is None,
        run_spec(prog, s, seq![x, next]) is None,
{
    let xs = seq![x, next];
    assert(xs.drop_last() =~= seq![x]);
    assert(seq![x].drop_last() =~= Seq::<Exchange>::empty());
    reveal_with_fuel(run_spec, 3);
}

/// A conditional jump moves the program counter and nothing else: to the
/// jump target where its condition holds of the accumulator, else to the
/// next instruction. It touches no port.
pub proof fn lemma_conditional_jump(prog: Seq<u8>, s: State, x: Exchange)
    requires
        fetch(prog, s) is Ok,
        ({
            let op = fetch(prog, s)->Ok_0;
            op == Opcode::Jez || op == Opcode::Jnz || op == Opcode::Jgz || op == Opcode::Jlz
        }),
    ensures
        ({
            let op = fetch(prog, s)->Ok_0;
            let target = jump_target(prog[s.pc + 1], prog[s.pc + 2], prog[s.pc + 3]);
            let taken = match op {
                Opcode::Jez => s.acc == 0,
                Opcode::Jnz => s.acc != 0,
                Opcode::Jgz => s.acc > 0,
                _ => s.acc < 0,
            };
            &&& step_spec(prog, s, x).1 is Ok
            &&& step_spec(prog, s, x).0 == (State {
                pc: if taken {
                    target
                } else {
                    s.pc + INSTRUCTION_SIZE
                },
                ..s
            })
            &&& exchange_fits(prog, s, x) <==> x.read is None && x.write is None
        }),
{
}

/// The machine: a program, two ports, and the registers.
pub struct RS100 {
    data: Vec<u8>,
    up: LoggedPort,
    down: LoggedPort,
    last_dst: Port,
    pc: usize,
    acc: Num,
    bak: Num,
    journal: Ghost<Seq<Exchange>>,
}

impl RS100 {
    /// The program.
    pub closed spec fn program(&self) -> Seq<u8> {
        self.data@
    }

    /// The registers.
    pub closed spec fn state(&self) -> State {
        State { pc: self.pc as int, acc: self.acc@, bak: self.bak@, last: self.last_dst }
    }

    /// The machine's record of its exchanges with the ports: one entry for
    /// each instruction that it has executed, the first one first.
    pub closed spec fn journal(&self) -> Seq<Exchange> {
        self.journal@
    }

    /// Every call that was made to the port `p`, the first one first.
    pub closed spec fn calls(&self, p: Port) -> Seq<Call> {
        match p {
            Port::Up => self.up.calls(),
            Port::Down => self.down.calls(),
        }
    }

    /// A machine at the start of `data`, with both registers at zero and the
    /// down port counted as engaged last.
    pub fn new(data: Vec<u8>, up: Box<dyn Module>, down: Box<dyn Module>) -> (r: RS100)
        ensures
            r.program() == data@,
            r.state() == (State { pc: 0, acc: 0, bak: 0, last: Port::Down }),
            r.state().valid(),
            r.journal() == Seq::<Exchange>::empty(),
            r.calls(Port::Up) == Seq::<Call>::empty(),
            r.calls(Port::Down) == Seq::<Call>::empty(),
    {
        RS100 {
            data,
            up: LoggedPort::new(up),
            down: LoggedPort::new(down),
            last_dst: Port::Down,
            pc: 0,
            acc: Num::new(),
            bak: Num::new(),
            journal: Ghost(Seq::empty()),
        }
    }

    /// Runs the program from where the machine stands: one instruction after
    /// the other, until the program counter is at or beyond the end of the
    /// program, an instruction fails, or `limit` instructions have been
    /// executed.
    ///
    /// `Ok(true)` says that the machine has halted, `Ok(false)` that the
    /// limit was reached first: calling again goes on from there. An error
    /// is the failed instruction's own, unchanged: one from decoding, or one
    /// that a port gave. Nothing is undone then: the registers are as the
    /// failed instruction left them.
    ///
    /// The journal grows by one entry for each instruction executed. The
    /// registers and the result are those that `run_spec` computes from
    /// these entries, and the ports were called as the entries say and not
    /// otherwise.
    pub fn execute(&mut self, limit: u64) -> (r: Result<bool, Error>)
        ensures
            final(self).program() == old(self).program(),
            final(self).state().valid(),
            old(self).journal().is_prefix_of(final(self).journal()),
            ({
                let xs = final(self).journal().skip(old(self).journal().len() as int);
                &&& xs.len() <= limit
                &&& run_spec(old(self).program(), old(self).state(), xs) == Some(
                    (
                        final(self).state(),
                        match r {
                            Ok(_) => Ok(()),
                            Err(e) => Err(e),
                        },
                    ),
                )
                &&& final(self).calls(Port::Up) == old(self).calls(Port::Up) + calls_on(
                    Port::Up,
                    xs,
                )
                &&& final(self).calls(Port::Down) == old(self).calls(Port::Down) + calls_on(
                    Port::Down,
                    xs,
                )
                &&& match r {
                    Ok(done) => {
                        &&& done == halted(final(self).program(), final(self).state())
                        &&& !done ==> xs.len() == limit
                    },
                    Err(_) => true,
                }
            }),
    {
        let mut steps: u64 = 0;
        assert(self.journal().skip(old(self).journal().len() as int) =~= Seq::<Exchange>::empty());
        while steps < limit
            invariant
                self.program() == old(self).program(),
                old(self).journal().is_prefix_of(self.journal()),
                self.journal().len() - old(self).journal().len() == steps,
                steps <= limit,
                run_spec(
                    old(self).program(),
                    old(self).state(),
                    self.journal().skip(old(self).journal().len() as int),
                ) == Some((self.state(), Ok::<(), Error>(()))),
                self.calls(Port::Up) == old(self).calls(Port::Up) + calls_on(
                    Port::Up,
                    self.journal().skip(old(self).journal().len() as int),
                ),
                self.calls(Port::Down) == old(self).calls(Port::Down) + calls_on(
                    Port::Down,
                    self.journal().skip(old(self).journal().len() as int),
                ),
            decreases limit - steps,
        {
            if self.pc >= self.data.len() {
                proof {
                    use_type_invariant(&self.acc);
                    use_type_invariant(&self.bak);
                }
                return Ok(true);
            }
            let ghost before = self.journal().skip(old(self).journal().len() as int);
            let (done, exchange) = self.step();
            self.journal = Ghost(self.journal@.push(exchange@));
            steps += 1;
            proof {
                let after = self.journal().skip(old(self).journal().len() as int);
                assert(after =~= before.push(exchange@));
                assert(after.drop_last() =~= before);
            }
            match done {
                Ok(_) => {},
                Err(e) => {
                    proof {
                        use_type_invariant(&self.acc);
                        use_type_invariant(&self.bak);
                    }
                    return Err(e);
                },
            }
        }
        proof {
            use_type_invariant(&self.acc);
            use_type_invariant(&self.bak);
        }
        Ok(self.pc >= self.data.len())
    }

    /// The two registers in braces, the accumulator first.
    pub fn to_string(&self) -> (r: String)
        ensures
            r@ == "{"@ + decimal(self.state().acc) + ", "@ + decimal(self.state().bak) + "}"@,
    {
        let mut s = String::from_str("{");
        s.append(self.acc.to_string().as_str());
        s.append(", ");
        s.append(self.bak.to_string().as_str());
        s.append("}");
        s
    }

    /// The program counter.
    pub fn pc(&self) -> (r: usize)
        ensures
            r == self.state().pc,
    {
        self.pc
    }

    /// The accumulator.
    pub fn acc(&self) -> (r: Num)
        ensures
            r@ == self.state().acc,
    {
        self.acc
    }

    /// The backup register.
    pub fn bak(&self) -> (r: Num)
        ensures
            r@ == self.state().bak,
    {
        self.bak
    }

    /// The port that was engaged last.
    pub fn last(&self) -> (r: Port)
        ensures
            r == self.state().last,
    {
        self.last_dst
    }

    fn get_opcode(&self) -> (r: Result<Opcode, Error>)
        requires
            self.state().pc < self.program().len(),
        ensures
            r == Opcode::of_tag(opcode_tag(self.program()[self.state().pc])),
    {
        let b0 = self.data[self.pc];
        assert(b0 & 0b1111 == b0 % 16) by (bit_vector);
        Opcode::try_from(b0 & 0b1111)
    }

    fn get_flags(&self) -> (r: u8)
        requires
            self.state().pc < self.program().len(),
        ensures
            r == self.program()[self.state().pc] / 16,
    {
        let b0 = self.data[self.pc];
        assert((b0 & 0b11110000) >> 4 == b0 / 16) by (bit_vector);
        (b0 & 0b11110000) >> 4
    }

    fn is_literal(&self) -> (r: bool)
        requires
            self.state().pc < self.program().len(),
        ensures
            r == literal_flag(self.program()[self.state().pc]),
    {
        let flags = self.get_flags();
        assert(flags & 0b1 == flags % 2) by (bit_vector);
        flags & 0b1 == 1
    }

    fn get_operands(&self) -> (r: (Operand, Dest, u32))
        requires
            self.state().pc + INSTRUCTION_SIZE <= self.program().len(),
        ensures
            match r.0 {
                Operand::Literal(n) => literal_flag(self.program()[self.state().pc]) && n@
                    == literal_value(
                    self.program()[self.state().pc + 1],
                    self.program()[self.state().pc + 2],
                ),
                Operand::Select(d) => !literal_flag(self.program()[self.state().pc]) && d
                    == selector(self.program()[self.state().pc + 2]),
            },
            r.1 == selector(self.program()[self.state().pc + 3]),
            r.2 == jump_target(
                self.program()[self.state().pc + 1],
                self.program()[self.state().pc + 2],
                self.program()[self.state().pc + 3],
            ),
    {
        assert(self.data@.len() == self.data.len());
        let b1 = self.data[self.pc + 1];
        let b2 = self.data[self.pc + 2];
        let b3 = self.data[self.pc + 3];
        let a = if self.is_literal() {
            Operand::Literal(Num::from_u8(b1, b2))
        } else {
            Operand::Select(Self::dest(b2))
        };
        let target: u32 = (b1 as u32) * 65536 + (b2 as u32) * 256 + (b3 as u32);
        (a, Self::dest(b3), target)
    }

    /// Reads through `dst`, and says in the record which port was asked and
    /// what it answered, if one was asked.
    ///
    /// The accumulator is read in place. Every port read goes to the up
    /// port, the machine's one source of input, also where the selector
    /// stands for `Down`; the down port is never read. A port that answers
    /// with a value becomes the port engaged last.
    fn get(&mut self, dst: Dest) -> (r: (Result<Num, Error>, Ghost<Option<ReadRecord>>))
        ensures
            final(self).program() == old(self).program(),
            final(self).journal() == old(self).journal(),
            match r.1@ {
                Some(rec) => match port_of(dst, old(self).state().last) {
                    Some(p) => rec.port == answering(p),
                    None => false,
                },
                None => port_of(dst, old(self).state().last) is None,
            },
            (final(self).state(), reply_of(r.0)) == read_through(old(self).state(), dst, r.1@),
            final(self).calls(Port::Up) == old(self).calls(Port::Up) + calls_of(
                Port::Up,
                Exchange { read: r.1@, write: None },
            ),
            final(self).calls(Port::Down) == old(self).calls(Port::Down),
    {
        let port = match dst {
            Dest::Last => self.last_dst,
            Dest::Acc => {
                return (Ok(self.acc), Ghost(None));
            },
            Dest::Up => Port::Up,
            Dest::Down => Port::Down,
        };
        let reply = self.up.read();
        let ghost rec = ReadRecord { port: Port::Up, reply: reply_of(reply) };
        if reply.is_ok() {
            self.last_dst = port;
        }
        (reply, Ghost(Some(rec)))
    }

    /// Writes `n` through `dst`, and says in the record which port was handed
    /// the value and what it answered, if one was.
    ///
    /// The accumulator takes the value in place. A port that takes the value
    /// becomes the port engaged last; a port's failure is handed on.
    fn set(&mut self, dst: Dest, n: Num) -> (r: (Result<(), Error>, Ghost<Option<WriteRecord>>))
        ensures
            final(self).program() == old(self).program(),
            final(self).journal() == old(self).journal(),
            match r.1@ {
                Some(rec) => port_of(dst, old(self).state().last) == Some(rec.port) && rec.value
                    == n@,
                None => port_of(dst, old(self).state().last) is None,
            },
            (final(self).state(), r.0) == write_through(old(self).state(), dst, n@, r.1@),
            final(self).calls(Port::Up) == old(self).calls(Port::Up) + calls_of(
                Port::Up,
                Exchange { read: None, write: r.1@ },
            ),
            final(self).calls(Port::Down) == old(self).calls(Port::Down) + calls_of(
                Port::Down,
                Exchange { read: None, write: r.1@ },
            ),
    {
        let port = match dst {
            Dest::Last => self.last_dst,
            Dest::Acc => {
                self.acc = n;
                return (Ok(()), Ghost(None));
            },
            Dest::Up => Port::Up,
            Dest::Down => Port::Down,
        };
        let reply = match port {
            Port::Up => self.up.write(n),
            Port::Down => self.down.write(n),
        };
        let ghost rec = WriteRecord { port, value: n@, reply };
        match reply {
            None => {
                self.last_dst = port;
                (Ok(()), Ghost(Some(rec)))
            },
            Some(e) => (Err(e), Ghost(Some(rec))),
        }
    }

    /// Reads operand A: a literal as it stands, a selector through `get`.
    fn read_operand(&mut self, a: Operand) -> (r: (
        Result<Num, Error>,
        Ghost<Option<ReadRecord>>,
    ))
        ensures
            final(self).program() == old(self).program(),
            final(self).journal() == old(self).journal(),
            match a {
                Operand::Literal(n) => {
                    &&& r.0 == Ok::<Num, Error>(n)
                    &&& r.1@ is None
                    &&& final(self).state() == old(self).state()
                },
                Operand::Select(d) => {
                    &&& match r.1@ {
                        Some(rec) => match port_of(d, old(self).state().last) {
                            Some(p) => rec.port == answering(p),
                            None => false,
                        },
                        None => port_of(d, old(self).state().last) is None,
                    }
                    &&& (final(self).state(), reply_of(r.0)) == read_through(
                        old(self).state(),
                        d,
                        r.1@,
                    )
                },
            },
            final(self).calls(Port::Up) == old(self).calls(Port::Up) + calls_of(
                Port::Up,
                Exchange { read: r.1@, write: None },
            ),
            final(self).calls(Port::Down) == old(self).calls(Port::Down),
    {
        match a {
            Operand::Literal(n) => (Ok(n), Ghost(None)),
            Operand::Select(d) => self.get(d),
        }
    }

    /// Executes the instruction at the program counter, and says in the
    /// record what it exchanged with the ports.
    fn step(&mut self) -> (r: (Result<(), Error>, Ghost<Exchange>))
        requires
            !halted(old(self).program(), old(self).state()),
        ensures
            final(self).program() == old(self).program(),
            final(self).journal() == old(self).journal(),
            exchange_fits(old(self).program(), old(self).state(), r.1@),
            (final(self).state(), r.0) == step_spec(old(self).program(), old(self).state(), r.1@),
            final(self).calls(Port::Up) == old(self).calls(Port::Up) + calls_of(Port::Up, r.1@),
            final(self).calls(Port::Down) == old(self).calls(Port::Down) + calls_of(
                Port::Down,
                r.1@,
            ),
    {
        let ghost nothing = Exchange { read: None, write: None };
        if self.data.len() - self.pc < INSTRUCTION_SIZE {
            return (Err(Error::TruncatedInstruction), Ghost(nothing));
        }
        let opcode = match self.get_opcode() {
            Ok(opcode) => opcode,
            Err(e) => {
                return (Err(e), Ghost(nothing));
            },
        };
        let (a, b, target) = self.get_operands();
        match opcode {
            Opcode::Nop => {
                self.pc += INSTRUCTION_SIZE;
                (Ok(()), Ghost(nothing))
            },
            Opcode::Mov => {
                let (value, read) = self.read_operand(a);
                match value {
                    Ok(n) => {
                        let (done, write) = self.set(b, n);
                        let ghost x = Exchange { read: read@, write: write@ };
                        match done {
                            Ok(_) => {
                                self.pc += INSTRUCTION_SIZE;
                                (Ok(()), Ghost(x))
                            },
                            Err(e) => (Err(e), Ghost(x)),
                        }
                    },
                    Err(e) => (Err(e), Ghost(Exchange { read: read@, write: None })),
                }
            },
            Opcode::Swp => {
                let temp = self.bak;
                self.bak = self.acc;
                self.acc = temp;
                self.pc += INSTRUCTION_SIZE;
                (Ok(()), Ghost(nothing))
            },
            Opcode::Sav => {
                self.bak = self.acc;
                self.pc += INSTRUCTION_SIZE;
                (Ok(()), Ghost(nothing))
            },
            Opcode::Add => {
                let (value, read) = self.read_operand(a);
                match value {
                    Ok(n) => {
                        self.acc = self.acc + n;
                        self.pc += INSTRUCTION_SIZE;
                        (Ok(()), Ghost(Exchange { read: read@, write: None }))
                    },
                    Err(e) => (Err(e), Ghost(Exchange { read: read@, write: None })),
                }
            },
            Opcode::Sub => {
                let (value, read) = self.read_operand(a);
                match value {
                    Ok(n) => {
                        self.acc = self.acc - n;
                        self.pc += INSTRUCTION_SIZE;
                        (Ok(()), Ghost(Exchange { read: read@, write: None }))
                    },
                    Err(e) => (Err(e), Ghost(Exchange { read: read@, write: None })),
                }
            },
            Opcode::Neg => {
                self.acc = self.acc.neg();
                self.pc += INSTRUCTION_SIZE;
                (Ok(()), Ghost(nothing))
            },
            Opcode::Jmp => {
                self.pc = target as usize;
                (Ok(()), Ghost(nothing))
            },
            Opcode::Jez => {
                if self.acc == Num::from(0) {
                    self.pc = target as usize;
                } else {
                    self.pc += INSTRUCTION_SIZE;
                }
                (Ok(()), Ghost(nothing))
            },
            Opcode::Jnz => {
                if self.acc != Num::from(0) {
                    self.pc = target as usize;
                } else {
                    self.pc += INSTRUCTION_SIZE;
                }
                (Ok(()), Ghost(nothing))
            },
            Opcode::Jgz => {
                if self.acc > Num::from(0) {
                    self.pc = target as usize;
                } else {
                    self.pc += INSTRUCTION_SIZE;
                }
                (Ok(()), Ghost(nothing))
            },
            Opcode::Jlz => {
                if self.acc < Num::from(0) {
                    self.pc = target as usize;
                } else {
                    self.pc += INSTRUCTION_SIZE;
                }
                (Ok(()), Ghost(nothing))
            },
            Opcode::Jro => {
                self.pc = self.acc.into();
                (Ok(()), Ghost(nothing))
            },
        }
    }

    fn dest(b: u8) -> (r: Dest)
        ensures
            r == selector(b),
    {
        match Dest::try_from(b) {
            Ok(d) => d,
            Err(_) => Dest::default(),
        }
    }
}

} // verus!
