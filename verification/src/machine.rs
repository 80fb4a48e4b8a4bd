//! The machine as a mathematical value, and what one cycle does to it.
//!
//! The contracts of [`crate::computer::Computer`] are stated over the
//! functions of this module. All of it is ghost code.

use vstd::prelude::*;
use crate::computer::CPUError;
use crate::interrupts::{Interrupt, InterruptVec};
use crate::opcodes::Opcode;
use crate::parser::{Parser, ParserError, Selection, Type};

verus! {

/// The state of a machine: memory, vector table, the addresses at which a
/// port is registered, the running flag, the seven 16-bit registers and the
/// flags.
pub struct State {
    pub memory: Seq<u8>,
    pub ivt: Seq<InterruptVec>,
    pub ports: Set<usize>,
    pub running: bool,
    pub ip: u16,
    pub sp: u16,
    pub ax: u16,
    pub bx: u16,
    pub cx: u16,
    pub dx: u16,
    pub ex: u16,
    pub flags: u8,
}

/// A state together with the report of how it was reached. Where the report
/// is an error, the state holds what had been done before the failure.
pub struct Outcome {
    pub state: State,
    pub result: Result<(), CPUError>,
}

/// What a cycle asks of a port.
pub enum PortRequest {
    /// Nothing: no port is touched.
    Idle,
    /// One byte is read from the port at this address.
    Read { port: usize },
    /// This byte is written to the port at this address.
    Write { port: usize, value: u8 },
}

/// The low byte of a word.
pub open spec fn low(word: u16) -> u8 {
    (word % 256) as u8
}

/// The high byte of a word.
pub open spec fn high(word: u16) -> u8 {
    (word / 256) as u8
}

/// The word with the given high and low byte.
pub open spec fn join(high: u8, low: u8) -> u16 {
    (high * 256 + low) as u16
}

/// The 16-bit register value that stands for an integer: registers count
/// modulo 65536.
pub open spec fn wrap(value: int) -> u16 {
    (value % 0x1_0000) as u16
}

/// Whether the zero flag, bit 7, is set in a flags byte.
pub open spec fn zero_flag(flags: u8) -> bool {
    flags / 128 == 1
}

/// Whether the carry flag, bit 6, is set in a flags byte.
pub open spec fn carry_flag(flags: u8) -> bool {
    (flags / 64) % 2 == 1
}

/// Whether the sign flag, bit 5, is set in a flags byte.
pub open spec fn sign_flag(flags: u8) -> bool {
    (flags / 32) % 2 == 1
}

/// The reserved bits 4 to 0 of a flags byte.
pub open spec fn reserved_bits(flags: u8) -> int {
    flags as int % 32
}

/// The flags after an arithmetic operation with the 16-bit result `value`:
/// zero where the low byte is 0, carry where the value does not fit in a
/// byte, sign where bit 7 of the low byte is set; the reserved bits stay.
pub open spec fn flags_after(flags: u8, value: u16) -> u8 {
    (reserved_bits(flags) + (if value % 256 == 0 {
        128int
    } else {
        0int
    }) + (if value > 255 {
        64int
    } else {
        0int
    }) + (if value % 256 >= 128 {
        32int
    } else {
        0int
    })) as u8
}

/// The 16-bit result of adding two bytes.
pub open spec fn sum(a: u8, b: u8) -> u16 {
    (a + b) as u16
}

/// The 16-bit result of subtracting `b` from `a`; below zero it wraps.
pub open spec fn difference(a: u8, b: u8) -> u16 {
    wrap(a - b)
}

impl Outcome {
    /// The state was reached without a failure.
    pub open spec fn ok(state: State) -> Outcome {
        Outcome { state, result: Ok(()) }
    }

    /// The failure `error` happened in this state.
    pub open spec fn fail(state: State, error: CPUError) -> Outcome {
        Outcome { state, result: Err(error) }
    }

    /// After a step that did not fail, the instruction pointer moves on by
    /// the length of the instruction; after one that failed, nothing moves.
    pub open spec fn advance(self, p: Parser) -> Outcome {
        if self.result is Ok {
            Outcome::ok(State { ip: wrap(self.state.ip + p.length), ..self.state })
        } else {
            self
        }
    }
}

impl State {
    /// The register with the given index: 0 is IP, 1 is SP, and 2 to 6 are
    /// AX, BX, CX, DX and EX.
    pub open spec fn word(self, index: int) -> u16 {
        if index == 0 {
            self.ip
        } else if index == 1 {
            self.sp
        } else if index == 2 {
            self.ax
        } else if index == 3 {
            self.bx
        } else if index == 4 {
            self.cx
        } else if index == 5 {
            self.dx
        } else {
            self.ex
        }
    }

    /// This state with another value in the register with the given index.
    pub open spec fn with_word(self, index: int, word: u16) -> State {
        if index == 0 {
            State { ip: word, ..self }
        } else if index == 1 {
            State { sp: word, ..self }
        } else if index == 2 {
            State { ax: word, ..self }
        } else if index == 3 {
            State { bx: word, ..self }
        } else if index == 4 {
            State { cx: word, ..self }
        } else if index == 5 {
            State { dx: word, ..self }
        } else {
            State { ex: word, ..self }
        }
    }

    /// The byte that a register code names. Code 14 is the flags. A code
    /// `2 * i` up to 13 is the low byte, and `2 * i + 1` the high byte, of
    /// the register with index `i`.
    #[verifier::opaque]
    pub open spec fn register(self, code: u8) -> u8 {
        if code == 14 {
            self.flags
        } else if code % 2 == 0 {
            low(self.word(code as int / 2))
        } else {
            high(self.word(code as int / 2))
        }
    }

    /// This state with another value in the byte that a register code names.
    #[verifier::opaque]
    pub open spec fn with_register(self, code: u8, value: u8) -> State {
        if code == 14 {
            State { flags: value, ..self }
        } else if code % 2 == 0 {
            self.with_word(code as int / 2, join(high(self.word(code as int / 2)), value))
        } else {
            self.with_word(code as int / 2, join(value, low(self.word(code as int / 2))))
        }
    }

    /// Reading a register: codes from 15 on name none.
    pub open spec fn read_register(self, code: u8) -> Result<u8, CPUError> {
        if code <= 14 {
            Ok(self.register(code))
        } else {
            Err(CPUError::InvalidOpcode)
        }
    }

    /// Writing a register: codes from 15 on name none.
    pub open spec fn write_register(self, code: u8, value: u8) -> Outcome {
        if code <= 14 {
            Outcome::ok(self.with_register(code, value))
        } else {
            Outcome::fail(self, CPUError::InvalidOpcode)
        }
    }

    /// Reading a byte of memory.
    pub open spec fn read_memory(self, address: int) -> Result<u8, CPUError> {
        if 0 <= address < self.memory.len() {
            Ok(self.memory[address])
        } else {
            Err(CPUError::MemoryAccessError(address as usize))
        }
    }

    /// Writing a byte of memory.
    pub open spec fn write_memory(self, address: int, value: u8) -> Outcome {
        if 0 <= address < self.memory.len() {
            Outcome::ok(State { memory: self.memory.update(address, value), ..self })
        } else {
            Outcome::fail(self, CPUError::MemoryAccessError(address as usize))
        }
    }

    /// The value of the first or the second operand of an instruction: of a
    /// register the byte it holds, of an address the byte in memory, of a
    /// constant the constant. An empty operand has no value.
    pub open spec fn read_operand(self, p: Parser, first: bool) -> Result<u8, CPUError> {
        match (if first {
            p.operand_1
        } else {
            p.operand_2
        }) {
            Type::Register => self.read_register(
                if first {
                    p.register_1
                } else {
                    p.register_2
                },
            ),
            Type::Constant => Ok(p.operand),
            Type::Address => self.read_memory(p.address as int),
            Type::Empty => Err(CPUError::GetEmptyOperand),
        }
    }

    /// Storing a byte in the first or the second operand of an instruction.
    /// Only a register and an address can be stored to.
    pub open spec fn write_operand(self, p: Parser, first: bool, value: u8) -> Outcome {
        match (if first {
            p.operand_1
        } else {
            p.operand_2
        }) {
            Type::Register => self.write_register(
                if first {
                    p.register_1
                } else {
                    p.register_2
                },
                value,
            ),
            Type::Address => self.write_memory(p.address as int, value),
            Type::Constant => Outcome::fail(self, CPUError::SetImmutableOperand),
            Type::Empty => Outcome::fail(self, CPUError::SetImmutableOperand),
        }
    }

    /// Pushing two bytes: the first is stored at the stack pointer, the
    /// second at the address behind it, and then the stack pointer goes down
    /// by 2. A store outside the memory ends the push where it stands.
    pub open spec fn push_pair(self, first: u8, second: u8) -> Outcome {
        let stored = self.write_memory(self.sp as int, first);
        if stored.result is Err {
            stored
        } else {
            let both = stored.state.write_memory(self.sp + 1, second);
            if both.result is Err {
                both
            } else {
                Outcome::ok(State { sp: wrap(self.sp - 2), ..both.state })
            }
        }
    }

    /// Pushing one byte: it is stored at the stack pointer, which then goes
    /// down by 1.
    pub open spec fn push_byte(self, value: u8) -> Outcome {
        let stored = self.write_memory(self.sp as int, value);
        if stored.result is Err {
            stored
        } else {
            Outcome::ok(State { sp: wrap(self.sp - 1), ..stored.state })
        }
    }

    /// Dispatching an interrupt: the instruction pointer is pushed, low byte
    /// first, and execution goes on at the address that the vector table
    /// holds for the interrupt, cut to 16 bits. Without such an entry the
    /// dispatch fails after the push.
    ///
    /// The two kinds of push keep their own byte order: a dispatch stores
    /// the low byte of the return address at the stack pointer, while PUSH
    /// stores its first operand there, which is the high byte of the word
    /// that a jump makes of the same two operands.
    pub open spec fn dispatch(self, number: u8) -> Outcome {
        let pushed = self.push_pair(low(self.ip), high(self.ip));
        if pushed.result is Err {
            pushed
        } else if number < self.ivt.len() {
            Outcome::ok(State { ip: wrap(self.ivt[number as int].address as int), ..pushed.state })
        } else {
            Outcome::fail(pushed.state, CPUError::IVTAccessError(number as usize))
        }
    }

    /// Whether an addressing mode has two operands.
    pub open spec fn is_pair(selection: Selection) -> bool {
        selection.spec_operand_count() == 2
    }

    /// MOV: the second operand is stored in the first.
    pub open spec fn execute_mov(self, p: Parser) -> Outcome {
        match self.read_operand(p, false) {
            Err(e) => Outcome::fail(self, e),
            Ok(value) => self.write_operand(p, true, value),
        }
    }

    /// ADD and SUB: the low byte of the 16-bit result is stored in the
    /// first operand, and the flags follow from all 16 bits. The result is
    /// the sum of the two operands, or for SUB the first less the second.
    pub open spec fn execute_arithmetic(self, p: Parser) -> Outcome {
        match self.read_operand(p, true) {
            Err(e) => Outcome::fail(self, e),
            Ok(a) => match self.read_operand(p, false) {
                Err(e) => Outcome::fail(self, e),
                Ok(b) => {
                    let value = if p.opcode == Opcode::SUB {
                        difference(a, b)
                    } else {
                        sum(a, b)
                    };
                    let stored = self.write_operand(p, true, low(value));
                    if stored.result is Err {
                        stored
                    } else {
                        Outcome::ok(
                            State { flags: flags_after(stored.state.flags, value), ..stored.state },
                        )
                    }
                },
            },
        }
    }

    /// The port that an IN or OUT instruction names with its second operand.
    pub open spec fn port_of(self, p: Parser) -> Result<usize, CPUError> {
        match self.read_operand(p, false) {
            Err(e) => Err(e),
            Ok(address) => if self.ports.contains(address as usize) {
                Ok(address as usize)
            } else {
                Err(CPUError::IOPortAccessError(address as usize))
            },
        }
    }

    /// OUT: the first operand is read for the port that the second names.
    /// The state stays as it is.
    pub open spec fn execute_out(self, p: Parser) -> Outcome {
        match self.port_of(p) {
            Err(e) => Outcome::fail(self, e),
            Ok(_) => match self.read_operand(p, true) {
                Err(e) => Outcome::fail(self, e),
                Ok(_) => Outcome::ok(self),
            },
        }
    }

    /// IN: the byte `input`, which the port that the second operand names
    /// has given, is stored in the first operand.
    pub open spec fn execute_in(self, p: Parser, input: u8) -> Outcome {
        match self.port_of(p) {
            Err(e) => Outcome::fail(self, e),
            Ok(_) => self.write_operand(p, true, input),
        }
    }

    /// PUSH: with two operands, the first is stored at the stack pointer and
    /// the second behind it, and the stack pointer goes down by 2; with one
    /// operand, it is stored at the stack pointer, which goes down by 1.
    pub open spec fn execute_push(self, p: Parser) -> Outcome {
        if State::is_pair(p.selection) {
            match self.read_operand(p, true) {
                Err(e) => Outcome::fail(self, e),
                Ok(first) => match self.read_operand(p, false) {
                    Err(e) => Outcome::fail(self, e),
                    Ok(second) => self.push_pair(first, second),
                },
            }
        } else if p.selection != Selection::NoArguments {
            match self.read_operand(p, true) {
                Err(e) => Outcome::fail(self, e),
                Ok(value) => self.push_byte(value),
            }
        } else {
            Outcome::fail(self, CPUError::InvalidOpcode)
        }
    }

    /// POP: with two operands that can be stored to, the byte at the stack
    /// pointer goes to the first and the byte behind it to the second, and
    /// the stack pointer goes up by 2; with one such operand, it takes the
    /// byte at the stack pointer, which goes up by 1. Each step works on
    /// what the step before has left, the stack pointer included.
    pub open spec fn execute_pop(self, p: Parser) -> Outcome {
        if p.selection == Selection::RegReg || p.selection == Selection::MemReg || p.selection
            == Selection::RegMem {
            match self.read_memory(self.sp as int) {
                Err(e) => Outcome::fail(self, e),
                Ok(first) => {
                    let one = self.write_operand(p, true, first);
                    if one.result is Err {
                        one
                    } else {
                        match one.state.read_memory(one.state.sp + 1) {
                            Err(e) => Outcome::fail(one.state, e),
                            Ok(second) => {
                                let two = one.state.write_operand(p, false, second);
                                if two.result is Err {
                                    two
                                } else {
                                    Outcome::ok(
                                        State { sp: wrap(two.state.sp + 2), ..two.state },
                                    )
                                }
                            },
                        }
                    }
                },
            }
        } else if p.selection == Selection::JustMem || p.selection == Selection::JustReg {
            match self.read_memory(self.sp as int) {
                Err(e) => Outcome::fail(self, e),
                Ok(value) => {
                    let one = self.write_operand(p, true, value);
                    if one.result is Err {
                        one
                    } else {
                        Outcome::ok(State { sp: wrap(one.state.sp + 1), ..one.state })
                    }
                },
            }
        } else {
            Outcome::fail(self, CPUError::InvalidOpcode)
        }
    }

    /// The target of a jump: with two operands the word whose high byte is
    /// the first and whose low byte is the second, with one operand its
    /// value.
    pub open spec fn jump_target(self, p: Parser) -> Result<u16, CPUError> {
        if State::is_pair(p.selection) {
            match self.read_operand(p, true) {
                Err(e) => Err(e),
                Ok(first) => match self.read_operand(p, false) {
                    Err(e) => Err(e),
                    Ok(second) => Ok(join(first, second)),
                },
            }
        } else if p.selection != Selection::NoArguments {
            match self.read_operand(p, true) {
                Err(e) => Err(e),
                Ok(value) => Ok(value as u16),
            }
        } else {
            Err(CPUError::InvalidOpcode)
        }
    }

    /// INT: the interrupt that the first operand numbers is dispatched.
    pub open spec fn execute_int(self, p: Parser) -> Outcome {
        match self.read_operand(p, true) {
            Err(e) => Outcome::fail(self, e),
            Ok(number) => self.dispatch(number),
        }
    }

    /// What executing the instruction `p` makes of this state. `input` is the
    /// byte that the port gives if the instruction reads one.
    ///
    /// A jump that is taken, a halt and an interrupt settle where execution
    /// goes on. After every other instruction that did not fail, the
    /// instruction pointer moves on by the instruction's length.
    #[verifier::opaque]
    pub open spec fn execute(self, p: Parser, input: u8) -> Outcome {
        match p.opcode {
            Opcode::MOV => self.execute_mov(p).advance(p),
            Opcode::ADD => self.execute_arithmetic(p).advance(p),
            Opcode::SUB => self.execute_arithmetic(p).advance(p),
            Opcode::OUT => self.execute_out(p).advance(p),
            Opcode::IN => self.execute_in(p, input).advance(p),
            Opcode::PUSH => self.execute_push(p).advance(p),
            Opcode::POP => self.execute_pop(p).advance(p),
            Opcode::JNZ => if zero_flag(self.flags) {
                Outcome::ok(self).advance(p)
            } else {
                match self.jump_target(p) {
                    Err(e) => Outcome::fail(self, e),
                    Ok(target) => Outcome::ok(State { ip: target, ..self }),
                }
            },
            Opcode::HLT => Outcome::ok(State { running: false, ..self }),
            Opcode::INT => self.execute_int(p),
        }
    }

    /// The byte at the given distance behind the instruction pointer, if the
    /// memory reaches that far.
    pub open spec fn fetch(self, offset: int) -> Option<u8> {
        if self.ip + offset < self.memory.len() {
            Some(self.memory[self.ip + offset])
        } else {
            None
        }
    }

    /// The instruction at the instruction pointer.
    pub open spec fn instruction(self) -> Result<Parser, ParserError> {
        Parser::decode(self.fetch(0), self.fetch(1), self.fetch(2))
    }

    /// The failure of a cycle that a failure to decode comes to: bytes that
    /// are not there are a memory access at the address of the first of
    /// them, and an undefined opcode is an invalid opcode.
    pub open spec fn decode_failure(self, error: ParserError) -> CPUError {
        match error {
            ParserError::BusErrorOccurred(offset) => CPUError::MemoryAccessError(
                (self.ip + offset) as usize,
            ),
            ParserError::UnexpectedLength(available) => CPUError::MemoryAccessError(
                (self.ip + available) as usize,
            ),
            ParserError::InvalidOpcode(_) => CPUError::InvalidOpcode,
        }
    }

    /// One fetch, decode and execute, with its failure left as it is.
    pub open spec fn cycle(self, input: u8) -> Outcome {
        match self.instruction() {
            Err(e) => Outcome::fail(self, self.decode_failure(e)),
            Ok(p) => self.execute(p, input),
        }
    }

    /// The interrupt that a failed cycle raises.
    pub open spec fn trap_of(error: CPUError) -> Interrupt {
        match error {
            CPUError::MemoryAccessError(_) => Interrupt::MachineCheck,
            CPUError::IOPortAccessError(_) => Interrupt::MachineCheck,
            CPUError::IVTAccessError(_) => Interrupt::MachineCheck,
            CPUError::SetImmutableOperand => Interrupt::InvalidOpcode,
            CPUError::GetEmptyOperand => Interrupt::InvalidOpcode,
            CPUError::InvalidOpcode => Interrupt::InvalidOpcode,
        }
    }

    /// The value that a failed cycle leaves in AX for the handler: 0 for a
    /// memory access, 1 for a port, 2 for the vector table. Other failures
    /// leave AX as it is.
    pub open spec fn diagnostic_of(self, error: CPUError) -> u16 {
        match error {
            CPUError::MemoryAccessError(_) => 0,
            CPUError::IOPortAccessError(_) => 1,
            CPUError::IVTAccessError(_) => 2,
            _ => self.ax,
        }
    }

    /// Turning the failure of a cycle into an interrupt. If the dispatch
    /// fails too, the machine stops for good and reports why.
    pub open spec fn trap(self, error: CPUError) -> Outcome {
        let dispatched = State { ax: self.diagnostic_of(error), ..self }.dispatch(
            State::trap_of(error).spec_number(),
        );
        if dispatched.result is Ok {
            dispatched
        } else {
            Outcome { state: State { running: false, ..dispatched.state }, result: dispatched.result }
        }
    }

    /// One tick. A machine that does not run stays as it is. A running one
    /// makes one cycle, and a cycle that fails ends in a trap.
    pub open spec fn tick(self, input: u8) -> Outcome {
        if !self.running {
            Outcome::ok(self)
        } else {
            let cycled = self.cycle(input);
            match cycled.result {
                Ok(_) => cycled,
                Err(e) => cycled.state.trap(e),
            }
        }
    }

    /// What executing the instruction `p` asks of a port.
    pub open spec fn port_request_of(self, p: Parser) -> PortRequest {
        match (p.opcode, self.port_of(p), self.read_operand(p, true)) {
            (Opcode::IN, Ok(port), _) => PortRequest::Read { port },
            (Opcode::OUT, Ok(port), Ok(value)) => PortRequest::Write { port, value },
            _ => PortRequest::Idle,
        }
    }

    /// What one cycle asks of a port.
    pub open spec fn port_request(self) -> PortRequest {
        match self.instruction() {
            Ok(p) => self.port_request_of(p),
            Err(_) => PortRequest::Idle,
        }
    }

    /// What one tick asks of a port.
    pub open spec fn tick_request(self) -> PortRequest {
        if self.running {
            self.port_request()
        } else {
            PortRequest::Idle
        }
    }
}

/// Only an instruction that reads a port depends on what a port gives.
pub proof fn lemma_input_matters_to_read_only(s: State, p: Parser, input: u8, other: u8)
    requires
        !(s.port_request_of(p) is Read),
    ensures
        s.execute(p, input) == s.execute(p, other),
{
    reveal(State::execute);
}

/// Only a cycle that reads a port depends on what a port gives.
pub proof fn lemma_cycle_input_matters_to_read_only(s: State, input: u8, other: u8)
    requires
        !(s.port_request() is Read),
    ensures
        s.cycle(input) == s.cycle(other),
        s.tick(input) == s.tick(other),
{
    if s.instruction() is Ok {
        lemma_input_matters_to_read_only(s, s.instruction()->Ok_0, input, other);
    }
}

} // verus!
