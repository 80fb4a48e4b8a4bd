use vstd::prelude::*;
use crate::opcodes::Opcode;

verus! {

/// What stands in an operand position of an instruction.
#[derive(Debug, Clone, Copy, PartialEq, Eq, Structural)]
pub enum Type {
    Empty,
    Register,
    Address,
    Constant,
}

/// The addressing mode of an instruction. It fixes the operand types and the
/// number of bytes that the instruction takes.
#[derive(Debug, Clone, Copy, PartialEq, Eq, Structural)]
pub enum Selection {
    RegReg,
    RegIm8,
    MemReg,
    RegMem,
    NoArguments,
    JustReg,
    JustMem,
    JustIm8,
}

/// Why a run of bytes is not an instruction.
#[derive(Debug, Clone, Copy, PartialEq, Eq, Structural)]
pub enum ParserError {
    /// The byte at this offset, the first of the instruction, is absent.
    BusErrorOccurred(usize),
    /// The instruction needs more bytes than the given number, which is all
    /// that was there.
    UnexpectedLength(usize),
    /// The opcode bits hold this number, which names no opcode.
    InvalidOpcode(u8),
}

/// A decoded instruction.
#[derive(Debug, Clone, Copy, PartialEq, Eq, Structural)]
pub struct Parser {
    pub selection: Selection,
    pub opcode: Opcode,
    /// The immediate value; 0 where the instruction carries none.
    pub operand: u8,
    /// The memory address; always the same byte as `operand`.
    pub address: u8,
    /// Bit 0 of the first byte. No opcode reads it.
    pub is_relative: bool,
    /// The number of bytes of the encoded instruction: 1, 2 or 3.
    pub length: usize,
    pub register_1: u8,
    pub register_2: u8,
    pub operand_1: Type,
    pub operand_2: Type,
}

impl Selection {
    /// The addressing mode with the given number, 0 to 7.
    pub open spec fn spec_from_code(code: int) -> Selection {
        if code == 0 {
            Selection::RegReg
        } else if code == 1 {
            Selection::RegIm8
        } else if code == 2 {
            Selection::MemReg
        } else if code == 3 {
            Selection::RegMem
        } else if code == 4 {
            Selection::NoArguments
        } else if code == 5 {
            Selection::JustReg
        } else if code == 6 {
            Selection::JustMem
        } else {
            Selection::JustIm8
        }
    }

    /// The number under which this addressing mode is encoded.
    pub open spec fn spec_code(self) -> int {
        match self {
            Selection::RegReg => 0,
            Selection::RegIm8 => 1,
            Selection::MemReg => 2,
            Selection::RegMem => 3,
            Selection::NoArguments => 4,
            Selection::JustReg => 5,
            Selection::JustMem => 6,
            Selection::JustIm8 => 7,
        }
    }

    /// The type of the first operand.
    pub open spec fn spec_operand_1(self) -> Type {
        match self {
            Selection::RegReg | Selection::RegIm8 | Selection::RegMem | Selection::JustReg =>
                Type::Register,
            Selection::MemReg | Selection::JustMem => Type::Address,
            Selection::JustIm8 => Type::Constant,
            Selection::NoArguments => Type::Empty,
        }
    }

    /// The type of the second operand.
    pub open spec fn spec_operand_2(self) -> Type {
        match self {
            Selection::RegReg | Selection::MemReg => Type::Register,
            Selection::RegIm8 => Type::Constant,
            Selection::RegMem => Type::Address,
            Selection::NoArguments | Selection::JustReg | Selection::JustMem | Selection::JustIm8 =>
                Type::Empty,
        }
    }

    /// The number of operand positions that are not empty.
    pub open spec fn spec_operand_count(self) -> int {
        (if self.spec_operand_1() != Type::Empty {
            1int
        } else {
            0int
        }) + (if self.spec_operand_2() != Type::Empty {
            1int
        } else {
            0int
        })
    }

    /// The number of bytes of an instruction in this addressing mode: the
    /// first byte and one byte for each operand.
    pub open spec fn spec_length(self) -> int {
        1 + self.spec_operand_count()
    }

    /// Whether the second byte holds two register codes, which it does as
    /// soon as one operand is a register.
    pub open spec fn spec_has_register(self) -> bool {
        self.spec_operand_1() == Type::Register || self.spec_operand_2() == Type::Register
    }
}

impl Parser {
    /// The instruction that up to three bytes encode. `b1` is the byte at the
    /// instruction's address, `b2` and `b3` are the two that follow; `None`
    /// stands for a byte that is not there.
    ///
    /// The first byte holds the opcode in bits 7 to 4, the addressing mode in
    /// bits 3 to 1 and the relative flag in bit 0. Where an operand is a
    /// register, the second byte holds the two register codes, the first in
    /// its upper half. The immediate value or address is the last byte of an
    /// instruction that holds one.
    pub open spec fn decode(b1: Option<u8>, b2: Option<u8>, b3: Option<u8>) -> Result<
        Parser,
        ParserError,
    > {
        if b1 is None {
            Err(ParserError::BusErrorOccurred(0))
        } else {
            let first = b1->0;
            let selection = Selection::spec_from_code((first as int / 2) % 8);
            let length = selection.spec_length();
            let packed = selection.spec_has_register();
            if Opcode::spec_from_code(first as int / 16) is None {
                Err(ParserError::InvalidOpcode(first / 16))
            } else if length > 1 && b2 is None {
                Err(ParserError::UnexpectedLength(1))
            } else if length > 2 && b3 is None {
                Err(ParserError::UnexpectedLength(2))
            } else {
                let operand = if length > 2 {
                    b3->0
                } else if length > 1 && !packed {
                    b2->0
                } else {
                    0u8
                };
                Ok(
                    Parser {
                        selection,
                        opcode: Opcode::spec_from_code(first as int / 16)->0,
                        operand,
                        address: operand,
                        is_relative: first % 2 == 1,
                        length: length as usize,
                        register_1: if packed {
                            b2->0 / 16
                        } else {
                            0u8
                        },
                        register_2: if packed {
                            b2->0 % 16
                        } else {
                            0u8
                        },
                        operand_1: selection.spec_operand_1(),
                        operand_2: selection.spec_operand_2(),
                    },
                )
            }
        }
    }

    /// What a borrowed byte holds, if it is there.
    pub open spec fn byte(b: Option<&u8>) -> Option<u8> {
        match b {
            Some(b) => Some(*b),
            None => None,
        }
    }

    /// Decodes the instruction that starts with `byte_1`.
    pub fn new(byte_1: Option<&u8>, byte_2: Option<&u8>, byte_3: Option<&u8>) -> (result: Result<
        Self,
        ParserError,
    >)
        ensures
            result == Parser::decode(Parser::byte(byte_1), Parser::byte(byte_2), Parser::byte(byte_3)),
    {
        let first: u8 = match byte_1 {
            Some(b) => *b,
            None => {
                return Err(ParserError::BusErrorOccurred(0));
            },
        };

        let selection_bits: u8 = (first & 0b1110) >> 1;
        assert(selection_bits == (first / 2) % 8) by (bit_vector)
            requires
                selection_bits == (first & 0b1110) >> 1,
        ;
        let selection = match selection_bits {
            0b000 => Selection::RegReg,
            0b001 => Selection::RegIm8,
            0b010 => Selection::MemReg,
            0b011 => Selection::RegMem,
            0b100 => Selection::NoArguments,
            0b101 => Selection::JustReg,
            0b110 => Selection::JustMem,
            _ => Selection::JustIm8,
        };

        let opcode_bits: u8 = first >> 4;
        assert(opcode_bits == first / 16) by (bit_vector)
            requires
                opcode_bits == first >> 4,
        ;
        let opcode = match Opcode::from_code(opcode_bits) {
            Some(opcode) => opcode,
            None => {
                return Err(ParserError::InvalidOpcode(opcode_bits));
            },
        };

        let is_relative = first & 0b1 > 0;
        assert(is_relative == (first % 2 == 1)) by (bit_vector)
            requires
                is_relative == (first & 0b1 > 0),
        ;

        let types = match selection {
            Selection::RegReg => (Type::Register, Type::Register),
            Selection::RegIm8 => (Type::Register, Type::Constant),
            Selection::MemReg => (Type::Address, Type::Register),
            Selection::RegMem => (Type::Register, Type::Address),
            Selection::NoArguments => (Type::Empty, Type::Empty),
            Selection::JustReg => (Type::Register, Type::Empty),
            Selection::JustMem => (Type::Address, Type::Empty),
            Selection::JustIm8 => (Type::Constant, Type::Empty),
        };
        let operand_1 = types.0;
        let operand_2 = types.1;

        let length: usize = match selection {
            Selection::NoArguments => 1,
            Selection::JustIm8 | Selection::JustReg | Selection::JustMem => 2,
            Selection::RegReg | Selection::RegMem | Selection::MemReg | Selection::RegIm8 => 3,
        };

        let mut register_1: u8 = 0u8;
        let mut register_2: u8 = 0u8;
        let mut operand: u8 = 0u8;

        if length > 1 {
            let second: u8 = match byte_2 {
                Some(b) => *b,
                None => {
                    return Err(ParserError::UnexpectedLength(1));
                },
            };
            match selection {
                Selection::RegReg
                | Selection::JustReg
                | Selection::RegMem
                | Selection::MemReg
                | Selection::RegIm8 => {
                    register_1 = (second & 0xF0) >> 4;
                    register_2 = second & 0x0F;
                    assert(register_1 == second / 16 && register_2 == second % 16) by (bit_vector)
                        requires
                            register_1 == (second & 0xF0) >> 4,
                            register_2 == second & 0x0F,
                    ;
                },
                _ => {
                    operand = second;
                },
            }
        }

        if length > 2 {
            let third: u8 = match byte_3 {
                Some(b) => *b,
                None => {
                    return Err(ParserError::UnexpectedLength(2));
                },
            };
            operand = third;
        }

        Ok(
            Self {
                length,
                opcode,
                selection,
                is_relative,
                operand_1,
                operand_2,
                register_1,
                register_2,
                operand,
                address: operand,
            },
        )
    }
}

/// Decoding is total: three bytes that are there always decode, to an
/// instruction if the opcode bits hold a number up to 9 and to the report of
/// an undefined opcode if not. The instruction's opcode and addressing mode
/// are those that the first byte numbers, its length is 1, 2 or 3, its
/// operand types are those of its addressing mode, and its register codes
/// lie below 16.
pub proof fn lemma_decode_total(b1: u8, b2: u8, b3: u8)
    ensures
        b1 / 16 <= 9 <==> Parser::decode(Some(b1), Some(b2), Some(b3)) is Ok,
        b1 / 16 > 9 ==> Parser::decode(Some(b1), Some(b2), Some(b3)) == Err::<Parser, ParserError>(
            ParserError::InvalidOpcode(b1 / 16),
        ),
        Parser::decode(Some(b1), Some(b2), Some(b3)) matches Ok(p) ==> {
            &&& p.opcode.spec_code() == b1 / 16
            &&& p.selection.spec_code() == (b1 / 2) % 8
            &&& p.is_relative == (b1 % 2 == 1)
            &&& p.length == p.selection.spec_length()
            &&& 1 <= p.length <= 3
            &&& p.operand_1 == p.selection.spec_operand_1()
            &&& p.operand_2 == p.selection.spec_operand_2()
            &&& p.register_1 < 16
            &&& p.register_2 < 16
            &&& p.address == p.operand
        },
{
}

/// The fields of a decoded instruction, by addressing mode: an instruction
/// with a register operand takes its register codes from the two halves of
/// the second byte, and one without has both codes 0; a three-byte
/// instruction takes its value from the third byte, a two-byte instruction
/// without a register from the second, and any other has the value 0.
pub proof fn lemma_decode_fields(b1: u8, b2: u8, b3: u8)
    requires
        b1 / 16 <= 9,
    ensures
        ({
            let p = Parser::decode(Some(b1), Some(b2), Some(b3))->Ok_0;
            &&& p.selection.spec_has_register() ==> p.register_1 == b2 / 16 && p.register_2 == b2
                % 16
            &&& !p.selection.spec_has_register() ==> p.register_1 == 0 && p.register_2 == 0
            &&& p.length == 3 ==> p.operand == b3
            &&& p.length == 2 && !p.selection.spec_has_register() ==> p.operand == b2
            &&& p.length == 1 || (p.length == 2 && p.selection.spec_has_register()) ==> p.operand
                == 0
        }),
{
}

/// Bytes behind the end of an instruction do not matter to it: whether they
/// are there, and what they hold.
pub proof fn lemma_decode_reads_length(
    b1: u8,
    b2: Option<u8>,
    b3: Option<u8>,
    c2: Option<u8>,
    c3: Option<u8>,
)
    requires
        Parser::decode(Some(b1), b2, b3) matches Ok(p) && (p.length >= 2 ==> c2 == b2) && (p.length
            >= 3 ==> c3 == b3),
    ensures
        Parser::decode(Some(b1), c2, c3) == Parser::decode(Some(b1), b2, b3),
{
}

/// An instruction that runs past the bytes that are there is reported with
/// the number of bytes that were there; a missing first byte is a bus error
/// at offset 0.
pub proof fn lemma_decode_short(b1: u8, b2: u8)
    requires
        b1 / 16 <= 9,
    ensures
        Parser::decode(None, None, None) == Err::<Parser, ParserError>(
            ParserError::BusErrorOccurred(0),
        ),
        Selection::spec_from_code((b1 as int / 2) % 8).spec_length() >= 2 ==> Parser::decode(
            Some(b1),
            None,
            None,
        ) == Err::<Parser, ParserError>(ParserError::UnexpectedLength(1)),
        Selection::spec_from_code((b1 as int / 2) % 8).spec_length() == 3 ==> Parser::decode(
            Some(b1),
            Some(b2),
            None,
        ) == Err::<Parser, ParserError>(ParserError::UnexpectedLength(2)),
{
}

} // verus!
