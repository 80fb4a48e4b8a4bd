//! What follows from the model of [`crate::machine`]: facts about registers,
//! flags, the stack and traps that hold of every state.

use vstd::prelude::*;
use crate::computer::CPUError;
use crate::machine::{
    carry_flag,
    difference,
    flags_after,
    high,
    join,
    low,
    reserved_bits,
    sign_flag,
    sum,
    wrap,
    zero_flag,
    Outcome,
    State,
};
use crate::opcodes::Opcode;
use crate::parser::{Parser, ParserError, Selection, Type};

verus! {

/// A word is made of its two bytes, and the bytes of a word that was put
/// together from two bytes are those two.
pub proof fn lemma_word_bytes(word: u16, upper: u8, lower: u8)
    ensures
        join(high(word), low(word)) == word,
        high(join(upper, lower)) == upper,
        low(join(upper, lower)) == lower,
{
}

/// A byte written to a register is read back from it, and the write
/// disturbs no other register byte: not the other half of the same
/// register, no other register, and not the flags. It leaves memory, the
/// vector table, the ports and the running flag alone.
pub proof fn lemma_register_write_read(s: State, code: u8, value: u8, other: u8)
    requires
        code <= 14,
        other <= 14,
    ensures
        s.with_register(code, value).register(code) == value,
        other != code ==> s.with_register(code, value).register(other) == s.register(other),
        s.with_register(code, value).memory == s.memory,
        s.with_register(code, value).ivt == s.ivt,
        s.with_register(code, value).ports == s.ports,
        s.with_register(code, value).running == s.running,
        s.write_register(code, value).result is Ok,
        s.write_register(code, value).state.read_register(code) == Ok::<u8, CPUError>(value),
        other != code ==> s.write_register(code, value).state.read_register(other)
            == s.read_register(other),
{
    reveal(State::register);
    reveal(State::with_register);
    lemma_word_bytes(s.word(code as int / 2), value, value);
    lemma_word_bytes(s.word(code as int / 2), high(s.word(code as int / 2)), value);
    lemma_word_bytes(s.word(code as int / 2), value, low(s.word(code as int / 2)));
}

/// Register codes from 15 on name no register: reading and writing them
/// fails with an invalid opcode, and the write changes nothing.
pub proof fn lemma_register_undefined(s: State, code: u8, value: u8)
    requires
        code >= 15,
    ensures
        s.read_register(code) == Err::<u8, CPUError>(CPUError::InvalidOpcode),
        s.write_register(code, value) == Outcome::fail(s, CPUError::InvalidOpcode),
{
}

/// The flags after an arithmetic result: zero exactly if the low byte of
/// the result is 0, carry exactly if the result is above 255, sign exactly
/// if bit 7 of the low byte is set. The reserved bits are kept.
pub proof fn lemma_flags_after(flags: u8, value: u16)
    ensures
        zero_flag(flags_after(flags, value)) <==> low(value) == 0,
        carry_flag(flags_after(flags, value)) <==> value > 255,
        sign_flag(flags_after(flags, value)) <==> low(value) >= 128,
        reserved_bits(flags_after(flags, value)) == reserved_bits(flags),
{
}

/// After an addition of the bytes `a` and `b`, the carry flag is set
/// exactly if `a + b` is above 255, and the zero flag exactly if the byte
/// that is stored is 0, whatever the carry and the sign are.
pub proof fn lemma_add_flags(flags: u8, a: u8, b: u8)
    ensures
        carry_flag(flags_after(flags, sum(a, b))) <==> a + b > 255,
        zero_flag(flags_after(flags, sum(a, b))) <==> low(sum(a, b)) == 0,
        zero_flag(flags_after(flags, sum(a, b))) <==> (a + b == 0 || a + b == 256),
        sign_flag(flags_after(flags, sum(a, b))) <==> low(sum(a, b)) >= 128,
        low(sum(a, b)) == (a + b) % 256,
{
    lemma_flags_after(flags, sum(a, b));
}

/// After a subtraction of the byte `b` from the byte `a`, the carry flag is
/// set exactly if `b` is above `a`, and the zero flag exactly if the byte
/// that is stored is 0, which is when `a` and `b` are equal.
pub proof fn lemma_sub_flags(flags: u8, a: u8, b: u8)
    ensures
        carry_flag(flags_after(flags, difference(a, b))) <==> b > a,
        zero_flag(flags_after(flags, difference(a, b))) <==> low(difference(a, b)) == 0,
        zero_flag(flags_after(flags, difference(a, b))) <==> a == b,
        sign_flag(flags_after(flags, difference(a, b))) <==> low(difference(a, b)) >= 128,
        low(difference(a, b)) == (a - b) % 256,
{
    lemma_flags_after(flags, difference(a, b));
    if b > a {
        assert(difference(a, b) == a - b + 0x1_0000);
    } else {
        assert(difference(a, b) == a - b);
    }
}

/// An ADD or SUB instruction that does not fail leaves the carry flag set
/// exactly if the sum is above 255, or the second operand above the first,
/// and the zero flag set exactly if the low byte of the result is 0. This
/// holds of every operand, the flags register included.
pub proof fn lemma_arithmetic_sets_flags(s: State, p: Parser)
    requires
        p.opcode == Opcode::ADD || p.opcode == Opcode::SUB,
        s.execute_arithmetic(p).result is Ok,
    ensures
        s.read_operand(p, true) is Ok,
        s.read_operand(p, false) is Ok,
        ({
            let a = s.read_operand(p, true)->Ok_0;
            let b = s.read_operand(p, false)->Ok_0;
            let flags = s.execute_arithmetic(p).state.flags;
            &&& p.opcode == Opcode::ADD ==> (carry_flag(flags) <==> a + b > 255)
            &&& p.opcode == Opcode::ADD ==> (zero_flag(flags) <==> (a + b) % 256 == 0)
            &&& p.opcode == Opcode::SUB ==> (carry_flag(flags) <==> b > a)
            &&& p.opcode == Opcode::SUB ==> (zero_flag(flags) <==> a == b)
        }),
{
    let a = s.read_operand(p, true)->Ok_0;
    let b = s.read_operand(p, false)->Ok_0;
    let stored = s.write_operand(p, true, low(sum(a, b)));
    lemma_add_flags(stored.state.flags, a, b);
    let stored = s.write_operand(p, true, low(difference(a, b)));
    lemma_sub_flags(stored.state.flags, a, b);
}

/// Whether `p` is the instruction with the given opcode and two register
/// operands with the given codes.
pub open spec fn is_register_pair(p: Parser, opcode: Opcode, first: u8, second: u8) -> bool {
    &&& p.opcode == opcode
    &&& p.selection == Selection::RegReg
    &&& p.operand_1 == Type::Register
    &&& p.operand_2 == Type::Register
    &&& p.register_1 == first
    &&& p.register_2 == second
    &&& p.length == 3
}

/// A PUSH of two register bytes and a POP of the same two bring the stack
/// pointer back to where it was, and the POP leaves the memory as the PUSH
/// left it. The register bytes are those of AX to EX and the flags.
///
/// The PUSH stores at the stack pointer and behind it, and then moves the
/// stack pointer down by 2; the POP reads at the stack pointer and behind
/// it. So the POP takes the two bytes just below the old stack pointer, and
/// the registers hold their old values again exactly if those two bytes
/// held them before.
pub proof fn lemma_push_pop_pair(
    s: State,
    push: Parser,
    pop: Parser,
    first: u8,
    second: u8,
    input: u8,
)
    requires
        is_register_pair(push, Opcode::PUSH, first, second),
        is_register_pair(pop, Opcode::POP, first, second),
        4 <= first <= 14,
        4 <= second <= 14,
        s.sp + 1 < s.memory.len(),
        wrap(s.sp - 2) + 1 < s.memory.len(),
    ensures
        ({
            let pushed = s.execute(push, input);
            let popped = pushed.state.execute(pop, input);
            let below = wrap(s.sp - 2) as int;
            &&& pushed.result is Ok
            &&& popped.result is Ok
            &&& pushed.state.memory == s.memory.update(s.sp as int, s.register(first)).update(
                s.sp + 1,
                s.register(second),
            )
            &&& pushed.state.sp == wrap(s.sp - 2)
            &&& popped.state.sp == s.sp
            &&& popped.state.memory == pushed.state.memory
            &&& popped.state.ip == wrap(s.ip + 6)
            &&& popped.state.register(second) == s.memory[below + 1]
            &&& first != second ==> popped.state.register(first) == s.memory[below]
            &&& (popped.state.register(first) == s.register(first) && popped.state.register(second)
                == s.register(second)) <==> (s.memory[below + 1] == s.register(second) && (first
                != second ==> s.memory[below] == s.register(first)))
        }),
{
    let below = wrap(s.sp - 2) as int;
    lemma_push_pair(s, push, first, second, input);
    let t = s.execute(push, input).state;
    lemma_pop_pair(t, pop, first, second, input);
    let one = t.with_register(first, s.memory[below]);
    let two = one.with_register(second, s.memory[below + 1]);
    let popped = t.execute(pop, input).state;
    lemma_register_write_read(t, first, s.memory[below], second);
    lemma_register_write_read(one, second, s.memory[below + 1], first);
    lemma_stack_pointer_frame(two, popped, first);
    lemma_stack_pointer_frame(two, popped, second);
    lemma_stack_pointer_frame(s, t, first);
    lemma_stack_pointer_frame(s, t, second);
}

/// The round trip of a register pair over the stack: where the two bytes
/// below the stack pointer hold what the two registers hold, a PUSH of the
/// registers and a POP of the same two leave both registers and the stack
/// pointer as they were.
pub proof fn lemma_push_pop_round_trip(
    s: State,
    push: Parser,
    pop: Parser,
    first: u8,
    second: u8,
    input: u8,
)
    requires
        is_register_pair(push, Opcode::PUSH, first, second),
        is_register_pair(pop, Opcode::POP, first, second),
        4 <= first <= 14,
        4 <= second <= 14,
        s.sp + 1 < s.memory.len(),
        wrap(s.sp - 2) + 1 < s.memory.len(),
        s.memory[wrap(s.sp - 2) as int] == s.register(first),
        s.memory[wrap(s.sp - 2) + 1] == s.register(second),
    ensures
        ({
            let popped = s.execute(push, input).state.execute(pop, input);
            &&& popped.result is Ok
            &&& popped.state.register(first) == s.register(first)
            &&& popped.state.register(second) == s.register(second)
            &&& popped.state.sp == s.sp
        }),
{
    lemma_push_pop_pair(s, push, pop, first, second, input);
}

/// What a PUSH of two register bytes does when the memory has room for
/// them: the first goes to the stack pointer, the second behind it, the
/// stack pointer goes down by 2, and the instruction pointer moves on by 3.
pub proof fn lemma_push_pair(s: State, push: Parser, first: u8, second: u8, input: u8)
    requires
        is_register_pair(push, Opcode::PUSH, first, second),
        first <= 14,
        second <= 14,
        s.sp + 1 < s.memory.len(),
    ensures
        s.execute(push, input) == Outcome::ok(
            State {
                memory: s.memory.update(s.sp as int, s.register(first)).update(
                    s.sp + 1,
                    s.register(second),
                ),
                sp: wrap(s.sp - 2),
                ip: wrap(s.ip + 3),
                ..s
            },
        ),
{
    reveal(State::execute);
}

/// What a POP into two general-purpose register bytes does when the stack
/// pointer and the address behind it lie in the memory: the first register
/// takes the byte at the stack pointer, then the second the byte behind
/// it, the stack pointer goes up by 2, and the instruction pointer moves
/// on by 3.
pub proof fn lemma_pop_pair(s: State, pop: Parser, first: u8, second: u8, input: u8)
    requires
        is_register_pair(pop, Opcode::POP, first, second),
        4 <= first <= 14,
        4 <= second <= 14,
        s.sp + 1 < s.memory.len(),
    ensures
        s.execute(pop, input) == Outcome::ok(
            State {
                sp: wrap(s.sp + 2),
                ip: wrap(s.ip + 3),
                ..s.with_register(first, s.memory[s.sp as int]).with_register(
                    second,
                    s.memory[s.sp + 1],
                )
            },
        ),
{
    reveal(State::execute);
    let one = s.with_register(first, s.memory[s.sp as int]);
    lemma_register_frame(s, first, s.memory[s.sp as int]);
    lemma_register_write_read(s, first, s.memory[s.sp as int], first);
    let two = one.with_register(second, s.memory[s.sp + 1]);
    lemma_register_frame(one, second, s.memory[s.sp + 1]);
    lemma_register_write_read(one, second, s.memory[s.sp + 1], second);
}

/// A write to a general-purpose register byte leaves the instruction
/// pointer and the stack pointer alone.
pub proof fn lemma_register_frame(s: State, code: u8, value: u8)
    requires
        4 <= code <= 14,
    ensures
        s.with_register(code, value).ip == s.ip,
        s.with_register(code, value).sp == s.sp,
{
    reveal(State::with_register);
}

/// The general-purpose register bytes and the flags do not depend on the
/// instruction pointer, the stack pointer, the memory or the running flag.
pub proof fn lemma_stack_pointer_frame(s: State, t: State, code: u8)
    requires
        4 <= code <= 14,
        s.ax == t.ax,
        s.bx == t.bx,
        s.cx == t.cx,
        s.dx == t.dx,
        s.ex == t.ex,
        s.flags == t.flags,
    ensures
        s.register(code) == t.register(code),
{
    reveal(State::register);
}

/// Whether two states have memories of the same size, the same vector
/// table and the same ports.
pub open spec fn same_shape(s: State, t: State) -> bool {
    &&& s.memory.len() == t.memory.len()
    &&& s.ivt == t.ivt
    &&& s.ports == t.ports
}

/// Storing to an operand changes neither the size of the memory, nor the
/// vector table, nor the ports, nor the running flag.
pub proof fn lemma_write_operand_keeps_shape(s: State, p: Parser, first: bool, value: u8)
    ensures
        same_shape(s, s.write_operand(p, first, value).state),
        s.write_operand(p, first, value).state.running == s.running,
{
    reveal(State::with_register);
}

/// A dispatch changes neither the size of the memory, nor the vector table,
/// nor the ports, nor the running flag.
pub proof fn lemma_dispatch_keeps_shape(s: State, number: u8)
    ensures
        same_shape(s, s.dispatch(number).state),
        s.dispatch(number).state.running == s.running,
{
}

/// No instruction changes the size of the memory, the vector table or the
/// ports.
pub proof fn lemma_execute_keeps_shape(s: State, p: Parser, input: u8)
    ensures
        same_shape(s, s.execute(p, input).state),
{
    reveal(State::execute);
    match p.opcode {
        Opcode::MOV => {
            if s.read_operand(p, false) is Ok {
                lemma_write_operand_keeps_shape(s, p, true, s.read_operand(p, false)->Ok_0);
            }
        },
        Opcode::ADD | Opcode::SUB => {
            if s.read_operand(p, true) is Ok && s.read_operand(p, false) is Ok {
                let a = s.read_operand(p, true)->Ok_0;
                let b = s.read_operand(p, false)->Ok_0;
                lemma_write_operand_keeps_shape(s, p, true, low(sum(a, b)));
                lemma_write_operand_keeps_shape(s, p, true, low(difference(a, b)));
            }
        },
        Opcode::IN => {
            lemma_write_operand_keeps_shape(s, p, true, input);
        },
        Opcode::POP => {
            if s.read_memory(s.sp as int) is Ok {
                let one = s.write_operand(p, true, s.memory[s.sp as int]);
                lemma_write_operand_keeps_shape(s, p, true, s.memory[s.sp as int]);
                if one.state.read_memory(one.state.sp + 1) is Ok {
                    lemma_write_operand_keeps_shape(
                        one.state,
                        p,
                        false,
                        one.state.memory[one.state.sp + 1],
                    );
                }
            }
        },
        Opcode::INT => {
            if s.read_operand(p, true) is Ok {
                lemma_dispatch_keeps_shape(s, s.read_operand(p, true)->Ok_0);
            }
        },
        _ => {},
    }
}

/// No tick changes the size of the memory, the vector table or the ports.
pub proof fn lemma_tick_keeps_shape(s: State, input: u8)
    ensures
        same_shape(s, s.cycle(input).state),
        same_shape(s, s.tick(input).state),
{
    if s.instruction() is Ok {
        lemma_execute_keeps_shape(s, s.instruction()->Ok_0, input);
    }
    let cycled = s.cycle(input);
    if cycled.result is Err {
        let error = cycled.result->Err_0;
        lemma_dispatch_keeps_shape(
            State { ax: cycled.state.diagnostic_of(error), ..cycled.state },
            State::trap_of(error).spec_number(),
        );
    }
}

/// A machine that does not run stays as it is, tick after tick.
pub proof fn lemma_stopped_machine_stays(s: State, input: u8)
    requires
        !s.running,
    ensures
        s.tick(input) == Outcome::ok(s),
{
}

/// HLT stops the machine and changes nothing else, and the ticks that
/// follow change nothing at all.
pub proof fn lemma_halt(s: State, input: u8, later: u8)
    requires
        s.running,
        s.instruction() matches Ok(p) && p.opcode == Opcode::HLT,
    ensures
        s.tick(input) == Outcome::ok(State { running: false, ..s }),
        s.tick(input).state.tick(later) == s.tick(input),
{
    reveal(State::execute);
}

/// What a dispatch does when the stack has room and the vector table has
/// the entry: the instruction pointer is stored at the stack pointer, low
/// byte first, the stack pointer goes down by 2, and execution goes on at
/// the entry's address.
pub proof fn lemma_dispatch(s: State, number: u8)
    requires
        s.sp + 1 < s.memory.len(),
        number < s.ivt.len(),
    ensures
        s.dispatch(number) == Outcome::ok(
            State {
                memory: s.memory.update(s.sp as int, low(s.ip)).update(s.sp + 1, high(s.ip)),
                sp: wrap(s.sp - 2),
                ip: wrap(s.ivt[number as int].address as int),
                ..s
            },
        ),
{
}

/// A first byte whose opcode bits hold a number above 9 raises the invalid
/// opcode interrupt: the tick is the dispatch of interrupt 6, from a state
/// that the failed decode has not touched.
pub proof fn lemma_undefined_opcode_traps(s: State, input: u8)
    requires
        s.running,
        s.fetch(0) matches Some(first) && first / 16 > 9,
    ensures
        s.cycle(input) == Outcome::fail(s, CPUError::InvalidOpcode),
        s.tick(input) == s.trap(CPUError::InvalidOpcode),
        s.dispatch(6).result is Ok ==> s.tick(input) == s.dispatch(6),
{
}

/// An IN or OUT that names an address at which no port is registered
/// raises a machine check: the tick is the dispatch of interrupt 18 with
/// AX set to 1, from a state that is otherwise untouched.
pub proof fn lemma_unregistered_port_traps(s: State, p: Parser, address: u8, input: u8)
    requires
        s.running,
        s.instruction() == Ok::<Parser, ParserError>(p),
        p.opcode == Opcode::IN || p.opcode == Opcode::OUT,
        s.read_operand(p, false) == Ok::<u8, CPUError>(address),
        !s.ports.contains(address as usize),
    ensures
        s.cycle(input) == Outcome::fail(s, CPUError::IOPortAccessError(address as usize)),
        s.tick(input) == s.trap(CPUError::IOPortAccessError(address as usize)),
        (State { ax: 1, ..s }).dispatch(18).result is Ok ==> s.tick(input) == (State {
            ax: 1,
            ..s
        }).dispatch(18),
{
    reveal(State::execute);
}

/// A tick fails only if the dispatch of a trap failed: for want of room on
/// the stack, or for want of the entry in the vector table. The machine
/// then does not run any more.
pub proof fn lemma_tick_fails_only_fatally(s: State, input: u8)
    requires
        s.tick(input).result is Err,
    ensures
        !s.tick(input).state.running,
        s.running,
        s.cycle(input).result is Err,
        ({
            let failed = s.cycle(input).state;
            match s.tick(input).result->Err_0 {
                CPUError::MemoryAccessError(address) => failed.sp + 1 >= s.memory.len() && (address
                    == failed.sp || address == failed.sp + 1),
                CPUError::IVTAccessError(number) => number >= s.ivt.len() && (number == 6 || number
                    == 18),
                _ => false,
            }
        }),
{
    lemma_tick_keeps_shape(s, input);
}

/// A memory fault names an address outside the memory: whenever a cycle
/// fails on a memory access, the address that it reports is not one of the
/// memory's.
pub proof fn lemma_memory_fault_is_outside(s: State, input: u8)
    requires
        s.cycle(input).result matches Err(CPUError::MemoryAccessError(_)),
    ensures
        s.cycle(input).result->Err_0->MemoryAccessError_0 >= s.memory.len(),
{
    reveal(State::execute);
    if s.instruction() is Ok {
        let p = s.instruction()->Ok_0;
        match p.opcode {
            Opcode::MOV => {
                if s.read_operand(p, false) is Ok {
                    lemma_write_operand_keeps_shape(s, p, true, s.read_operand(p, false)->Ok_0);
                }
            },
            Opcode::ADD | Opcode::SUB => {
                if s.read_operand(p, true) is Ok && s.read_operand(p, false) is Ok {
                    let a = s.read_operand(p, true)->Ok_0;
                    let b = s.read_operand(p, false)->Ok_0;
                    lemma_write_operand_keeps_shape(s, p, true, low(sum(a, b)));
                    lemma_write_operand_keeps_shape(s, p, true, low(difference(a, b)));
                }
            },
            Opcode::IN => {
                lemma_write_operand_keeps_shape(s, p, true, input);
            },
            Opcode::POP => {
                if s.read_memory(s.sp as int) is Ok {
                    let one = s.write_operand(p, true, s.memory[s.sp as int]);
                    lemma_write_operand_keeps_shape(s, p, true, s.memory[s.sp as int]);
                    if one.state.read_memory(one.state.sp + 1) is Ok {
                        lemma_write_operand_keeps_shape(
                            one.state,
                            p,
                            false,
                            one.state.memory[one.state.sp + 1],
                        );
                    }
                }
            },
            _ => {},
        }
    }
}

} // verus!
