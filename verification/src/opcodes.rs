use vstd::prelude::*;

verus! {

/// The operation named by the upper four bits of an instruction's first byte.
#[allow(non_camel_case_types)]
#[derive(Debug, Clone, Copy, PartialEq, Eq, Structural)]
pub enum Opcode {
    MOV,
    HLT,
    IN,
    OUT,
    JNZ,
    ADD,
    SUB,
    PUSH,
    POP,
    INT,
}

impl Opcode {
    /// The opcode with the given number, where one is defined: the ten
    /// opcodes are numbered 0 to 9 in the order of their declaration.
    pub open spec fn spec_from_code(code: int) -> Option<Opcode> {
        if code == 0 {
            Some(Opcode::MOV)
        } else if code == 1 {
            Some(Opcode::HLT)
        } else if code == 2 {
            Some(Opcode::IN)
        } else if code == 3 {
            Some(Opcode::OUT)
        } else if code == 4 {
            Some(Opcode::JNZ)
        } else if code == 5 {
            Some(Opcode::ADD)
        } else if code == 6 {
            Some(Opcode::SUB)
        } else if code == 7 {
            Some(Opcode::PUSH)
        } else if code == 8 {
            Some(Opcode::POP)
        } else if code == 9 {
            Some(Opcode::INT)
        } else {
            None
        }
    }

    /// The number under which this opcode is encoded.
    pub open spec fn spec_code(self) -> int {
        match self {
            Opcode::MOV => 0,
            Opcode::HLT => 1,
            Opcode::IN => 2,
            Opcode::OUT => 3,
            Opcode::JNZ => 4,
            Opcode::ADD => 5,
            Opcode::SUB => 6,
            Opcode::PUSH => 7,
            Opcode::POP => 8,
            Opcode::INT => 9,
        }
    }

    /// Looks an opcode up by its number; numbers from 10 on name no opcode.
    pub fn from_code(code: u8) -> (opcode: Option<Opcode>)
        ensures
            opcode == Opcode::spec_from_code(code as int),
    {
        match code {
            0 => Some(Opcode::MOV),
            1 => Some(Opcode::HLT),
            2 => Some(Opcode::IN),
            3 => Some(Opcode::OUT),
            4 => Some(Opcode::JNZ),
            5 => Some(Opcode::ADD),
            6 => Some(Opcode::SUB),
            7 => Some(Opcode::PUSH),
            8 => Some(Opcode::POP),
            9 => Some(Opcode::INT),
            _ => None,
        }
    }
}

/// Numbering and lookup are inverse to each other: an opcode is found again
/// under its own number, and a number that names an opcode is that opcode's.
pub proof fn lemma_opcode_code_round_trip(opcode: Opcode, code: int)
    ensures
        Opcode::spec_from_code(opcode.spec_code()) == Some(opcode),
        0 <= opcode.spec_code() <= 9,
        Opcode::spec_from_code(code) is Some <==> 0 <= code <= 9,
        Opcode::spec_from_code(code) is Some ==> Opcode::spec_from_code(code)->0.spec_code()
            == code,
{
}

} // verus!
