//! Ports: the trait that the machine calls, the ports that need no
//! console, what the console ports compute, and the lookup of a port by its
//! name.

use crate::common::{high_byte, low_byte, saturate, word, Error, Num};
use crate::decimal::{ascii_bytes, decimal, decimal_bytes};
use vstd::prelude::*;
use vstd::string::StringExecFns;

verus! {

/// A port: a channel through which the machine exchanges values with the
/// world around it. The machine is handed two of them, and whoever builds
/// the machine chooses what stands behind each.
///
/// Nothing is promised of what a port answers: the machine is verified for
/// every answer.
pub trait Module {
    /// Takes the next value from the port.
    fn read(&mut self) -> Result<Num, Error>;

    /// Hands a value to the port. `None` means that the port took it.
    fn write(&mut self, n: Num) -> Option<Error>;
}

/// One call of a port's method, with its answer.
pub enum Call {
    /// A read, and the value or the error that came back.
    Read(Result<int, Error>),
    /// A write of a value, and the error that came back, if one did.
    Write(int, Option<Error>),
}

/// The value of a port's answer to a read.
pub open spec fn reply_of(r: Result<Num, Error>) -> Result<int, Error> {
    match r {
        Ok(n) => Ok(n@),
        Err(e) => Err(e),
    }
}

/// A port together with the record of every call that was made to it.
///
/// The port can only be reached through `read` and `write` here, and each
/// of them adds its call to the record: whoever holds a `LoggedPort` can
/// make no call that the record does not show.
pub struct LoggedPort {
    port: Box<dyn Module>,
    calls: Ghost<Seq<Call>>,
}

impl LoggedPort {
    /// The calls made so far, the first one first.
    pub closed spec fn calls(&self) -> Seq<Call> {
        self.calls@
    }

    /// Wraps a port that has not been called yet.
    pub fn new(port: Box<dyn Module>) -> (r: LoggedPort)
        ensures
            r.calls() == Seq::<Call>::empty(),
    {
        LoggedPort { port, calls: Ghost(Seq::empty()) }
    }

    /// Reads the port, once, and hands its answer on as it is.
    pub fn read(&mut self) -> (r: Result<Num, Error>)
        ensures
            final(self).calls() == old(self).calls().push(Call::Read(reply_of(r))),
    {
        let reply = self.port.read();
        self.calls = Ghost(self.calls@.push(Call::Read(reply_of(reply))));
        reply
    }

    /// Writes `n` to the port, once, and hands its answer on as it is.
    pub fn write(&mut self, n: Num) -> (r: Option<Error>)
        ensures
            final(self).calls() == old(self).calls().push(Call::Write(n@, r)),
    {
        let reply = self.port.write(n);
        self.calls = Ghost(self.calls@.push(Call::Write(n@, reply)));
        reply
    }
}

/// A port that holds nothing: it reads as zero and swallows what is written.
pub struct NoneModule {}

impl NoneModule {
    /// The port that holds nothing.
    pub fn new() -> NoneModule {
        NoneModule {  }
    }
}

impl Module for NoneModule {
    /// Always zero.
    fn read(&mut self) -> (r: Result<Num, Error>)
        ensures
            r is Ok,
            r->Ok_0@ == 0,
    {
        Ok(Num::from(0))
    }

    /// Takes the value and drops it.
    fn write(&mut self, _n: Num) -> (r: Option<Error>)
        ensures
            r is None,
    {
        None
    }
}

/// A port that gives back what was written to it, the latest value first.
pub struct StackModule {
    stack: Vec<Num>,
}

impl View for StackModule {
    type V = Seq<int>;

    /// The values held, the oldest first.
    closed spec fn view(&self) -> Seq<int> {
        self.stack@.map_values(|n: Num| n@)
    }
}

impl StackModule {
    /// An empty stack.
    pub fn new() -> (r: StackModule)
        ensures
            r@ == Seq::<int>::empty(),
    {
        StackModule { stack: Vec::new() }
    }
}

impl Module for StackModule {
    /// Takes the latest value off the stack; fails on an empty stack, which
    /// it leaves empty.
    fn read(&mut self) -> (r: Result<Num, Error>)
        ensures
            old(self)@.len() == 0 ==> r == Err::<Num, Error>(Error::StackUnderflow) && final(self)@
                == old(self)@,
            old(self)@.len() > 0 ==> r is Ok && r->Ok_0@ == old(self)@.last() && final(self)@
                == old(self)@.drop_last(),
    {
        if self.stack.len() == 0 {
            Err(Error::StackUnderflow)
        } else {
            let top = self.stack.pop().unwrap();
            assert(self@ =~= old(self)@.drop_last());
            Ok(top)
        }
    }

    /// Puts a value on top of the stack. This never fails.
    fn write(&mut self, n: Num) -> (r: Option<Error>)
        ensures
            r is None,
            final(self)@ == old(self)@.push(n@),
    {
        self.stack.push(n);
        assert(self@ =~= old(self)@.push(n@));
        None
    }
}

/// What a console input port makes of the lines that it reads. Reading the
/// lines is left to the program around the machine.
pub struct ConsoleInputModule {}

impl ConsoleInputModule {
    /// The one way to read console input.
    pub fn new() -> ConsoleInputModule {
        ConsoleInputModule {  }
    }

    /// The value that a line of input stands for: the line's first byte is
    /// the high byte of the value and its low byte is zero. A line without
    /// a byte is the end of the input.
    pub fn parse(&self, line: &[u8]) -> (r: Result<Num, Error>)
        ensures
            line@.len() == 0 ==> r == Err::<Num, Error>(Error::EndOfInput),
            line@.len() > 0 ==> r is Ok && r->Ok_0@ == saturate(word(line@[0], 0)),
    {
        if line.len() == 0 {
            Err(Error::EndOfInput)
        } else {
            Ok(Num::from_u8(line[0], 0))
        }
    }

    /// An input port takes what is written to it and drops it.
    pub fn write(&self, _n: Num) -> (r: Option<Error>)
        ensures
            r is None,
    {
        None
    }
}

/// What a console output port makes of the values that it is handed.
/// Printing the bytes is left to the program around the machine.
pub struct ConsoleOutputModule {
    print_as_number: bool,
}

impl ConsoleOutputModule {
    /// Whether values are printed as decimal numbers; otherwise as the two
    /// bytes that spell them.
    pub closed spec fn as_number(&self) -> bool {
        self.print_as_number
    }

    /// Console output that prints numbers if `print_as_number`, else byte
    /// pairs.
    pub fn new(print_as_number: bool) -> (r: ConsoleOutputModule)
        ensures
            r.as_number() == print_as_number,
    {
        ConsoleOutputModule { print_as_number }
    }

    /// An output port reads as zero.
    pub fn read(&self) -> (r: Result<Num, Error>)
        ensures
            r is Ok,
            r->Ok_0@ == 0,
    {
        Ok(Num::from(0))
    }

    /// The bytes to print for a value: its decimal text, or its high and its
    /// low byte.
    pub fn render(&self, n: Num) -> (r: Vec<u8>)
        ensures
            self.as_number() ==> r@ == ascii_bytes(decimal(n@)),
            !self.as_number() ==> r@ == seq![high_byte(n@) as u8, low_byte(n@) as u8],
    {
        if self.print_as_number {
            let value: i16 = n.into();
            decimal_bytes(value as i32)
        } else {
            let (a, b) = n.to_u8();
            let mut bytes = Vec::new();
            bytes.push(a);
            bytes.push(b);
            assert(bytes@ =~= seq![a, b]);
            bytes
        }
    }
}

/// A port of one of the four kinds that have a name.
pub enum NamedModule {
    /// `none`
    Discard(NoneModule),
    /// `stdin`
    Input(ConsoleInputModule),
    /// `stdout`
    Output(ConsoleOutputModule),
    /// `stack-`
    Stack(StackModule),
}

/// The lower-case form of a text, as `str::to_lowercase` gives it.
pub uninterp spec fn lowercase(text: Seq<char>) -> Seq<char>;

/// Calls `str::to_lowercase`, which maps each character to its lower-case
/// form as Unicode defines it; the contract only names the result.
#[verifier::external_body]
fn to_lowercase(text: &String) -> (r: String)
    ensures
        r@ == lowercase(text@),
{
    text.to_lowercase()
}

/// The port that goes by the name `name`, spelled exactly. `num` says
/// whether a console output port prints numbers.
pub fn module_named(name: String, num: bool) -> (r: Result<NamedModule, Error>)
    ensures
        match r {
            Ok(NamedModule::Discard(_)) => name@ == "none"@,
            Ok(NamedModule::Input(_)) => name@ == "stdin"@,
            Ok(NamedModule::Output(port)) => name@ == "stdout"@ && port.as_number() == num,
            Ok(NamedModule::Stack(port)) => name@ == "stack-"@ && port@ == Seq::<int>::empty(),
            Err(e) => {
                &&& name@ != "none"@
                &&& name@ != "stdin"@
                &&& name@ != "stdout"@
                &&& name@ != "stack-"@
                &&& e == Error::InvalidModule(name)
            },
        },
{
    if name == String::from_str("none") {
        Ok(NamedModule::Discard(NoneModule::new()))
    } else if name == String::from_str("stdin") {
        Ok(NamedModule::Input(ConsoleInputModule::new()))
    } else if name == String::from_str("stdout") {
        Ok(NamedModule::Output(ConsoleOutputModule::new(num)))
    } else if name == String::from_str("stack-") {
        Ok(NamedModule::Stack(StackModule::new()))
    } else {
        Err(Error::InvalidModule(name))
    }
}

/// The port that goes by the name `m`, in whatever case it is written.
pub fn get_module(m: String, num: bool) -> (r: Result<NamedModule, Error>)
    ensures
        match r {
            Ok(NamedModule::Discard(_)) => lowercase(m@) == "none"@,
            Ok(NamedModule::Input(_)) => lowercase(m@) == "stdin"@,
            Ok(NamedModule::Output(port)) => lowercase(m@) == "stdout"@ && port.as_number() == num,
            Ok(NamedModule::Stack(port)) => lowercase(m@) == "stack-"@ && port@ == Seq::<
                int,
            >::empty(),
            Err(e) => {
                &&& lowercase(m@) != "none"@
                &&& lowercase(m@) != "stdin"@
                &&& lowercase(m@) != "stdout"@
                &&& lowercase(m@) != "stack-"@
                &&& e matches Error::InvalidModule(name)
                &&& name@ == lowercase(m@)
            },
        },
{
    module_named(to_lowercase(&m), num)
}

} // verus!
