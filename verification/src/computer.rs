use std::collections::HashMap;
use vstd::prelude::*;
use crate::disk::Disk;
use crate::interrupts::{Interrupt, InterruptVec};
use crate::machine::{flags_after, wrap, Outcome, PortRequest, State};
use crate::memory::Memory;
use crate::opcodes::Opcode;
use crate::parser::{Parser, ParserError, Selection, Type};
use crate::port::Port;

verus! {

/// The address at which the stack starts after boot.
pub const BOOT_STACK_POINTER: u16 = 0x02FF;

/// What can go wrong while one instruction is fetched, decoded and executed.
#[derive(Debug, Clone, Copy, PartialEq, Eq, Structural)]
pub enum CPUError {
    /// A memory address outside the memory was accessed.
    MemoryAccessError(usize),
    /// No port is registered at the port address.
    IOPortAccessError(usize),
    /// A constant or absent operand was written.
    SetImmutableOperand,
    /// An absent operand was read.
    GetEmptyOperand,
    /// The interrupt has no entry in the vector table.
    IVTAccessError(usize),
    /// The opcode or a register code is undefined, or the opcode cannot be
    /// executed with its operands.
    InvalidOpcode,
}

/// The machine: memory, boot disk, ports by address, interrupt vector
/// table, and the registers.
pub struct Computer<I: Fn() -> u8, O: Fn(u8)> {
    pub memory: Memory,
    pub disk: Disk,
    pub io: HashMap<usize, Port<I, O>>,
    pub ivt: Vec<InterruptVec>,
    pub running: bool,
    pub ip: u16,
    pub sp: u16,
    pub ax: u16,
    pub bx: u16,
    pub cx: u16,
    pub dx: u16,
    pub ex: u16,
    pub flags: u8,
}

impl<I: Fn() -> u8, O: Fn(u8)> View for Computer<I, O> {
    type V = State;

    /// The state of the machine. The disk and what the ports do are no part
    /// of it.
    open spec fn view(&self) -> State {
        State {
            memory: self.memory@,
            ivt: self.ivt@,
            ports: self.io@.dom(),
            running: self.running,
            ip: self.ip,
            sp: self.sp,
            ax: self.ax,
            bx: self.bx,
            cx: self.cx,
            dx: self.dx,
            ex: self.ex,
            flags: self.flags,
        }
    }
}

impl<I: Fn() -> u8, O: Fn(u8)> Computer<I, O> {
    /// Whether `other` has the same disk, the same ports and the same vector
    /// table as this machine.
    pub open spec fn same_devices(self, other: Self) -> bool {
        &&& self.disk == other.disk
        &&& self.io == other.io
        &&& self.ivt == other.ivt
    }

    /// Whether the ports of this machine can have answered `request` with
    /// the byte `input`: a byte that is read is one that the port can give,
    /// and a byte that is written went to the port. Where nothing is read,
    /// any byte will do, since nothing depends on it.
    pub open spec fn accepts(self, request: PortRequest, input: u8) -> bool {
        match request {
            PortRequest::Idle => true,
            PortRequest::Write { port, value } => self.io@[port].writes(value),
            PortRequest::Read { port } => self.io@[port].reads(input),
        }
    }

    /// A machine with `memory_size` bytes of zeroed memory and the given
    /// boot disk. It has no ports and no interrupt vectors, does not run,
    /// and all its registers are 0.
    pub fn new(memory_size: usize, disk: Disk) -> (computer: Self)
        ensures
            computer.disk == disk,
            computer@ == (State {
                memory: Seq::new(memory_size as nat, |i: int| 0u8),
                ivt: Seq::empty(),
                ports: Set::empty(),
                running: false,
                ip: 0,
                sp: 0,
                ax: 0,
                bx: 0,
                cx: 0,
                dx: 0,
                ex: 0,
                flags: 0,
            }),
    {
        let memory = Memory::new(memory_size);
        assert(memory@ =~= Seq::new(memory_size as nat, |i: int| 0u8));
        let computer = Self {
            memory,
            disk,
            io: HashMap::new(),
            ivt: Vec::new(),
            running: false,
            ip: 0,
            sp: 0,
            ax: 0,
            bx: 0,
            cx: 0,
            dx: 0,
            ex: 0,
            flags: 0,
        };
        assert(computer.io@.dom() =~= Set::<usize>::empty());
        computer
    }

    /// Starts the machine: the disk is copied to the start of the memory,
    /// the instruction pointer is set to 0 and the stack pointer to
    /// `BOOT_STACK_POINTER`, and the machine runs.
    pub fn boot(&mut self)
        requires
            old(self).disk.data@.len() <= old(self)@.memory.len(),
        ensures
            old(self).same_devices(*final(self)),
            final(self)@ == (State {
                memory: old(self).disk.data@ + old(self)@.memory.skip(
                    old(self).disk.data@.len() as int,
                ),
                running: true,
                ip: 0,
                sp: BOOT_STACK_POINTER,
                ..old(self)@
            }),
    {
        self.running = true;

        let mut i: usize = 0usize;
        while i < self.disk.data.len()
            invariant
                i <= self.disk.data@.len() <= self.memory@.len(),
                self.memory@.len() == old(self).memory@.len(),
                forall|j: int| 0 <= j < i ==> self.memory@[j] == self.disk.data@[j],
                forall|j: int| i <= j < self.memory@.len() ==> self.memory@[j] == old(self).memory@[j],
                old(self).same_devices(*self),
                self.running,
                self.ax == old(self).ax,
                self.bx == old(self).bx,
                self.cx == old(self).cx,
                self.dx == old(self).dx,
                self.ex == old(self).ex,
                self.flags == old(self).flags,
            decreases self.disk.data@.len() - i,
        {
            let byte = self.disk.data[i];
            let _ = self.memory.set(i, byte);
            i += 1;
        }

        self.ip = 0x0000;
        self.sp = BOOT_STACK_POINTER;
        assert(self.memory@ =~= old(self).disk.data@ + old(self)@.memory.skip(
            old(self).disk.data@.len() as int,
        ));
    }
}

impl<I: Fn() -> u8, O: Fn(u8)> Computer<I, O> {
    /// Sets the zero, carry and sign flag from the 16-bit result of an
    /// arithmetic operation. The five reserved bits stay as they are.
    pub fn set_flags(&mut self, value: u16)
        ensures
            final(self)@ == (State { flags: flags_after(old(self).flags, value), ..old(self)@ }),
            old(self).same_devices(*final(self)),
    {
        let zf: u8 = if value & 0x00FF == 0 {
            0b1000_0000u8
        } else {
            0
        };
        let cf: u8 = if value > 0x00FF {
            0b0100_0000u8
        } else {
            0
        };
        let sf: u8 = if value & 0b1000_0000 > 0 {
            0b0010_0000u8
        } else {
            0
        };
        let kept: u8 = self.flags & 0b0001_1111;
        let flags: u8 = kept | zf | cf | sf;
        proof {
            let before = self.flags;
            assert((value & 0x00FF == 0) == (value % 256 == 0)) by (bit_vector);
            assert((value & 0b1000_0000 > 0) == (value % 256 >= 128)) by (bit_vector);
            assert(kept == before % 32) by (bit_vector)
                requires
                    kept == before & 0b0001_1111,
            ;
            assert(flags == kept + zf + cf + sf) by (bit_vector)
                requires
                    flags == kept | zf | cf | sf,
                    kept < 32,
                    zf == 0 || zf == 128,
                    cf == 0 || cf == 64,
                    sf == 0 || sf == 32,
            ;
        }
        self.flags = flags;
    }

    /// Reads the byte that a register code names.
    pub fn get_register(&self, register: u8) -> (result: Result<u8, CPUError>)
        ensures
            result == self@.read_register(register),
    {
        proof {
            reveal(State::register);
        }
        if register == 0b1110 {
            return Ok(self.flags);
        }
        let word: u16 = match register / 2 {
            0 => self.ip,
            1 => self.sp,
            2 => self.ax,
            3 => self.bx,
            4 => self.cx,
            5 => self.dx,
            6 => self.ex,
            _ => {
                return Err(CPUError::InvalidOpcode);
            },
        };
        assert(word == self@.word(register as int / 2));
        if register % 2 == 0 {
            let byte: u8 = word as u8;
            assert(byte == word % 256) by (bit_vector)
                requires
                    byte == word as u8,
            ;
            Ok(byte)
        } else {
            let byte: u8 = (word >> 8) as u8;
            assert(byte == word / 256) by (bit_vector)
                requires
                    byte == (word >> 8) as u8,
            ;
            Ok(byte)
        }
    }

    /// Stores `value` in the byte that a register code names. With a code
    /// that names none, nothing is stored.
    pub fn set_register(&mut self, register: u8, value: u8) -> (result: Result<(), CPUError>)
        ensures
            (Outcome { state: final(self)@, result }) == old(self)@.write_register(register, value),
            old(self).same_devices(*final(self)),
    {
        proof {
            reveal(State::with_register);
        }
        if register == 0b1110 {
            self.flags = value;
            return Ok(());
        }
        if register > 0b1110 {
            return Err(CPUError::InvalidOpcode);
        }
        let lower = register % 2 == 0;
        let mask: u16 = if lower {
            0xFF00u16
        } else {
            0x00FF
        };
        let converted_value: u16 = if lower {
            value as u16
        } else {
            (value as u16) << 8
        };
        let index: u8 = register / 2;
        let word: u16 = match index {
            0 => self.ip,
            1 => self.sp,
            2 => self.ax,
            3 => self.bx,
            4 => self.cx,
            5 => self.dx,
            _ => self.ex,
        };
        let changed: u16 = (word & mask) | converted_value;
        proof {
            if lower {
                assert(changed == (word / 256) * 256 + value) by (bit_vector)
                    requires
                        changed == (word & 0xFF00u16) | (value as u16),
                ;
            } else {
                assert(changed == value * 256 + word % 256) by (bit_vector)
                    requires
                        changed == (word & 0x00FFu16) | ((value as u16) << 8),
                ;
            }
        }
        match index {
            0 => {
                self.ip = changed;
            },
            1 => {
                self.sp = changed;
            },
            2 => {
                self.ax = changed;
            },
            3 => {
                self.bx = changed;
            },
            4 => {
                self.cx = changed;
            },
            5 => {
                self.dx = changed;
            },
            _ => {
                self.ex = changed;
            },
        }
        Ok(())
    }

    /// Reads the first or the second operand of an instruction.
    pub fn get_operand(&self, first_operand: bool, parsed: &Parser) -> (result: Result<
        u8,
        CPUError,
    >)
        ensures
            result == self@.read_operand(*parsed, first_operand),
    {
        match if first_operand {
            parsed.operand_1
        } else {
            parsed.operand_2
        } {
            Type::Register => self.get_register(
                if first_operand {
                    parsed.register_1
                } else {
                    parsed.register_2
                },
            ),
            Type::Constant => Ok(parsed.operand),
            Type::Address => self.memory.get(parsed.address as usize),
            Type::Empty => Err(CPUError::GetEmptyOperand),
        }
    }

    /// Stores `value` in the first or the second operand of an instruction.
    pub fn set_operand(&mut self, first_operand: bool, parsed: &Parser, value: u8) -> (result:
        Result<(), CPUError>)
        ensures
            (Outcome { state: final(self)@, result }) == old(self)@.write_operand(
                *parsed,
                first_operand,
                value,
            ),
            old(self).same_devices(*final(self)),
    {
        match if first_operand {
            parsed.operand_1
        } else {
            parsed.operand_2
        } {
            Type::Register => self.set_register(
                if first_operand {
                    parsed.register_1
                } else {
                    parsed.register_2
                },
                value,
            ),
            Type::Constant => Err(CPUError::SetImmutableOperand),
            Type::Address => self.memory.set(parsed.address as usize, value),
            Type::Empty => Err(CPUError::SetImmutableOperand),
        }
    }

    /// Dispatches the interrupt with the given number: pushes the
    /// instruction pointer, low byte first, and jumps to the handler that
    /// the vector table names. The handler's address is cut to 16 bits.
    pub fn irq(&mut self, int_number: u8) -> (result: Result<(), CPUError>)
        ensures
            (Outcome { state: final(self)@, result }) == old(self)@.dispatch(int_number),
            old(self).same_devices(*final(self)),
    {
        let ip = self.ip;
        let ip_low: u8 = ip as u8;
        let ip_high: u8 = (ip >> 8) as u8;
        proof {
            assert(ip_low == ip % 256 && ip_high == ip / 256) by (bit_vector)
                requires
                    ip_low == ip as u8,
                    ip_high == (ip >> 8) as u8,
            ;
        }
        self.memory.set(self.sp as usize, ip_low)?;
        self.memory.set(self.sp as usize + 1, ip_high)?;
        self.sp = self.sp.wrapping_sub(2);

        if (int_number as usize) < self.ivt.len() {
            let address: usize = self.ivt[int_number as usize].address;
            let target: u16 = address as u16;
            assert(target == address % 0x1_0000) by (bit_vector)
                requires
                    target == address as u16,
            ;
            self.ip = target;
            Ok(())
        } else {
            Err(CPUError::IVTAccessError(int_number as usize))
        }
    }
}

impl<I: Fn() -> u8, O: Fn(u8)> Computer<I, O> {
    /// MOV: stores the second operand in the first.
    fn execute_mov(&mut self, parsed: &Parser) -> (result: Result<(), CPUError>)
        ensures
            old(self).same_devices(*final(self)),
            (Outcome { state: final(self)@, result }) == old(self)@.execute_mov(*parsed),
    {
        let value = self.get_operand(false, parsed)?;
        self.set_operand(true, parsed, value)
    }

    /// ADD and SUB: stores the low byte of the result in the first operand
    /// and sets the flags from all 16 bits of it.
    fn execute_arithmetic(&mut self, parsed: &Parser) -> (result: Result<(), CPUError>)
        ensures
            old(self).same_devices(*final(self)),
            (Outcome { state: final(self)@, result }) == old(self)@.execute_arithmetic(*parsed),
    {
        let a = self.get_operand(true, parsed)? as u16;
        let b = self.get_operand(false, parsed)? as u16;
        let c: u16 = match parsed.opcode {
            Opcode::SUB => a.wrapping_sub(b),
            _ => a.wrapping_add(b),
        };
        let c_low: u8 = c as u8;
        assert(c_low == c % 256) by (bit_vector)
            requires
                c_low == c as u8,
        ;
        self.set_operand(true, parsed, c_low)?;
        self.set_flags(c);
        Ok(())
    }

    /// OUT: writes the first operand to the port that the second names.
    fn execute_out(&mut self, parsed: &Parser) -> (result: Result<(), CPUError>)
        ensures
            old(self).same_devices(*final(self)),
            (Outcome { state: final(self)@, result }) == old(self)@.execute_out(*parsed),
            result is Ok ==> old(self)@.port_of(*parsed) is Ok && old(self)@.read_operand(
                *parsed,
                true,
            ) is Ok && old(self).io@[old(self)@.port_of(*parsed)->Ok_0].writes(
                old(self)@.read_operand(*parsed, true)->Ok_0,
            ),
    {
        let port_address = self.get_operand(false, parsed)? as usize;
        match self.io.get(&port_address) {
            Some(port) => {
                let value = self.get_operand(true, parsed)?;
                port.out(value);
                Ok(())
            },
            None => Err(CPUError::IOPortAccessError(port_address)),
        }
    }

    /// IN: stores a byte from the port that the second operand names in the
    /// first operand. The byte that the port gave is handed back for the
    /// proof.
    fn execute_in(&mut self, parsed: &Parser) -> (done: (Result<(), CPUError>, Ghost<u8>))
        ensures
            old(self).same_devices(*final(self)),
            (Outcome { state: final(self)@, result: done.0 }) == old(self)@.execute_in(
                *parsed,
                done.1@,
            ),
            old(self)@.port_of(*parsed) matches Ok(port) ==> old(self).io@[port].reads(done.1@),
    {
        let port_address = match self.get_operand(false, parsed) {
            Ok(address) => address as usize,
            Err(e) => {
                return (Err(e), Ghost(0u8));
            },
        };
        let byte = match self.io.get(&port_address) {
            Some(port) => port.input(),
            None => {
                return (Err(CPUError::IOPortAccessError(port_address)), Ghost(0u8));
            },
        };
        (self.set_operand(true, parsed, byte), Ghost(byte))
    }

    /// PUSH: stores one or two operands at the stack pointer and moves the
    /// stack pointer down.
    fn execute_push(&mut self, parsed: &Parser) -> (result: Result<(), CPUError>)
        ensures
            old(self).same_devices(*final(self)),
            (Outcome { state: final(self)@, result }) == old(self)@.execute_push(*parsed),
    {
        match parsed.selection {
            Selection::RegReg | Selection::RegIm8 | Selection::MemReg | Selection::RegMem => {
                let upper = self.get_operand(true, parsed)?;
                let lower = self.get_operand(false, parsed)?;
                let val: u16 = (upper as u16) << 8 | lower as u16;
                let val_high: u8 = (val >> 8) as u8;
                let val_low: u8 = val as u8;
                assert(val_high == upper && val_low == lower) by (bit_vector)
                    requires
                        val == (upper as u16) << 8 | lower as u16,
                        val_high == (val >> 8) as u8,
                        val_low == val as u8,
                ;
                self.memory.set(self.sp as usize, val_high)?;
                self.memory.set(self.sp as usize + 1, val_low)?;
                self.sp = self.sp.wrapping_sub(2);
                Ok(())
            },
            Selection::JustMem | Selection::JustReg | Selection::JustIm8 => {
                let val: u8 = self.get_operand(true, parsed)?;
                self.memory.set(self.sp as usize, val)?;
                self.sp = self.sp.wrapping_sub(1);
                Ok(())
            },
            Selection::NoArguments => Err(CPUError::InvalidOpcode),
        }
    }

    /// POP: stores one or two bytes from the stack pointer on in the
    /// operands and moves the stack pointer up.
    fn execute_pop(&mut self, parsed: &Parser) -> (result: Result<(), CPUError>)
        ensures
            old(self).same_devices(*final(self)),
            (Outcome { state: final(self)@, result }) == old(self)@.execute_pop(*parsed),
    {
        match parsed.selection {
            Selection::RegReg | Selection::MemReg | Selection::RegMem => {
                let first = self.memory.get(self.sp as usize)?;
                self.set_operand(true, parsed, first)?;
                let second = self.memory.get(self.sp as usize + 1)?;
                self.set_operand(false, parsed, second)?;
                self.sp = self.sp.wrapping_add(2);
                Ok(())
            },
            Selection::JustMem | Selection::JustReg => {
                let value = self.memory.get(self.sp as usize)?;
                self.set_operand(true, parsed, value)?;
                self.sp = self.sp.wrapping_add(1);
                Ok(())
            },
            _ => Err(CPUError::InvalidOpcode),
        }
    }

    /// The address that a jump goes to.
    fn jump_target(&self, parsed: &Parser) -> (result: Result<u16, CPUError>)
        ensures
            result == self@.jump_target(*parsed),
    {
        match parsed.selection {
            Selection::RegReg | Selection::RegIm8 | Selection::MemReg | Selection::RegMem => {
                let higher = self.get_operand(true, parsed)?;
                let lower = self.get_operand(false, parsed)?;
                let target: u16 = ((higher as u16) << 8) | (lower as u16);
                assert(target == higher * 256 + lower) by (bit_vector)
                    requires
                        target == ((higher as u16) << 8) | (lower as u16),
                ;
                Ok(target)
            },
            Selection::JustMem | Selection::JustReg | Selection::JustIm8 => {
                let value = self.get_operand(true, parsed)?;
                Ok(value as u16)
            },
            Selection::NoArguments => Err(CPUError::InvalidOpcode),
        }
    }

    /// Moves the instruction pointer on by the length of the instruction.
    fn advance(&mut self, parsed: &Parser)
        ensures
            old(self).same_devices(*final(self)),
            final(self)@ == (State { ip: wrap(old(self).ip + parsed.length), ..old(self)@ }),
    {
        let length: u16 = parsed.length as u16;
        proof {
            let full = parsed.length;
            assert(length == full % 0x1_0000) by (bit_vector)
                requires
                    length == full as u16,
            ;
        }
        self.ip = self.ip.wrapping_add(length);
    }

    /// Executes a decoded instruction. A failure is handed back as it is,
    /// with the machine as the failure left it.
    ///
    /// What is reached is what the model gives for some byte `input` that
    /// the ports accept; `input` matters only where the instruction reads a
    /// port.
    pub fn execute(&mut self, parsed: &Parser) -> (result: Result<(), CPUError>)
        ensures
            old(self).same_devices(*final(self)),
            exists|input: u8| #[trigger]
                old(self).accepts(old(self)@.port_request_of(*parsed), input) && (Outcome {
                    state: final(self)@,
                    result,
                }) == old(self)@.execute(*parsed, input),
    {
        proof {
            reveal(State::execute);
        }
        let ghost mut input: u8 = 0;
        let mut moves_on = true;
        let done = match parsed.opcode {
            Opcode::MOV => self.execute_mov(parsed),
            Opcode::OUT => self.execute_out(parsed),
            Opcode::IN => {
                let (done, given) = self.execute_in(parsed);
                proof {
                    input = given@;
                }
                done
            },
            Opcode::SUB => self.execute_arithmetic(parsed),
            Opcode::ADD => self.execute_arithmetic(parsed),
            Opcode::PUSH => self.execute_push(parsed),
            Opcode::POP => self.execute_pop(parsed),
            Opcode::JNZ => {
                let flags = self.flags;
                assert((flags & 0b1000_0000 == 0) == (flags / 128 != 1)) by (bit_vector);
                if (flags & 0b1000_0000) == 0 {
                    moves_on = false;
                    match self.jump_target(parsed) {
                        Ok(jump_address) => {
                            self.ip = jump_address;
                            Ok(())
                        },
                        Err(e) => Err(e),
                    }
                } else {
                    Ok(())
                }
            },
            Opcode::HLT => {
                moves_on = false;
                self.running = false;
                Ok(())
            },
            Opcode::INT => {
                moves_on = false;
                match self.get_operand(true, parsed) {
                    Ok(n) => self.irq(n),
                    Err(e) => Err(e),
                }
            },
        };

        if moves_on && done.is_ok() {
            self.advance(parsed);
        }
        assert(old(self).accepts(old(self)@.port_request_of(*parsed), input));
        done
    }

    /// One fetch, decode and execute. A failure is handed back as it is;
    /// a failure to decode leaves the machine untouched.
    pub fn tick_internal(&mut self) -> (result: Result<(), CPUError>)
        ensures
            old(self).same_devices(*final(self)),
            exists|input: u8| #[trigger]
                old(self).accepts(old(self)@.port_request(), input) && (Outcome {
                    state: final(self)@,
                    result,
                }) == old(self)@.cycle(input),
    {
        let at = self.ip as usize;
        let byte_1 = self.memory.peek(at);
        let byte_2 = self.memory.peek(at + 1);
        let byte_3 = self.memory.peek(at + 2);
        assert(Parser::byte(byte_1) == self@.fetch(0));
        assert(Parser::byte(byte_2) == self@.fetch(1));
        assert(Parser::byte(byte_3) == self@.fetch(2));

        match Parser::new(byte_1, byte_2, byte_3) {
            Ok(parsed) => self.execute(&parsed),
            Err(e) => {
                assert(old(self).accepts(old(self)@.port_request(), 0u8));
                match e {
                    ParserError::BusErrorOccurred(offset) => Err(
                        CPUError::MemoryAccessError(at + offset),
                    ),
                    ParserError::UnexpectedLength(available) => Err(
                        CPUError::MemoryAccessError(at + available),
                    ),
                    ParserError::InvalidOpcode(_) => Err(CPUError::InvalidOpcode),
                }
            },
        }
    }

    /// One tick of the machine. A machine that does not run is left as it
    /// is. A running one makes one cycle; if the cycle fails, the failure is
    /// turned into an interrupt, with a diagnostic value in AX where the
    /// interrupt is a machine check. Only if that interrupt cannot be
    /// dispatched either, the tick fails: the machine then stops running
    /// and the failure of the dispatch is handed back.
    pub fn tick(&mut self) -> (result: Result<(), CPUError>)
        ensures
            old(self).same_devices(*final(self)),
            exists|input: u8| #[trigger]
                old(self).accepts(old(self)@.tick_request(), input) && (Outcome {
                    state: final(self)@,
                    result,
                }) == old(self)@.tick(input),
    {
        if !self.running {
            assert(old(self).accepts(old(self)@.tick_request(), 0u8));
            return Ok(());
        }
        let cycled = self.tick_internal();
        let ghost reached = Outcome { state: self@, result: cycled };
        let ghost input = choose|input: u8| #[trigger]
            old(self).accepts(old(self)@.port_request(), input) && reached == old(self)@.cycle(
                input,
            );
        let result = match cycled {
            Err(tick_err) => self.trap(tick_err),
            done => done,
        };
        assert(old(self).accepts(old(self)@.tick_request(), input));
        result
    }

    /// Turns the failure of a cycle into an interrupt: a machine check with
    /// a diagnostic value in AX, or an invalid opcode. If the interrupt
    /// cannot be dispatched, the machine stops running and the failure of
    /// the dispatch is handed back.
    pub fn trap(&mut self, tick_err: CPUError) -> (result: Result<(), CPUError>)
        ensures
            old(self).same_devices(*final(self)),
            (Outcome { state: final(self)@, result }) == old(self)@.trap(tick_err),
    {
        let irq_creation = match tick_err {
            CPUError::MemoryAccessError(_) => {
                self.ax = 0;
                self.irq(Interrupt::MachineCheck.number())
            },
            CPUError::IOPortAccessError(_) => {
                self.ax = 1;
                self.irq(Interrupt::MachineCheck.number())
            },
            CPUError::IVTAccessError(_) => {
                self.ax = 2;
                self.irq(Interrupt::MachineCheck.number())
            },
            CPUError::SetImmutableOperand
            | CPUError::GetEmptyOperand
            | CPUError::InvalidOpcode => self.irq(Interrupt::InvalidOpcode.number()),
        };
        if irq_creation.is_err() {
            self.running = false;
        }
        irq_creation
    }
}

} // verus!
