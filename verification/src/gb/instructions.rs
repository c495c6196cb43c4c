use vstd::prelude::*;

verus! {

/// A condition on the flags, tested by jumps, calls and returns.
#[derive(Clone, Copy, Debug, PartialEq, Eq, Structural)]
pub enum JumpTest {
    NotZero,
    Zero,
    NotCarry,
    Carry,
    Always,
}

/// The 8-bit operand of an arithmetic or logic instruction: a register, the
/// byte that HL addresses, or the byte after the opcode.
#[derive(Clone, Copy, Debug, PartialEq, Eq, Structural)]
pub enum ArithmeticTarget {
    A,
    B,
    C,
    D,
    E,
    H,
    L,
    HL,
    N8,
}

/// Where a byte load stores.
#[derive(Clone, Copy, Debug, PartialEq, Eq, Structural)]
pub enum LoadByteTarget {
    A,
    B,
    C,
    D,
    E,
    H,
    L,
    HL,
    HLI,
    HLD,
    DE,
    BC,
    D16,
    ADRC,
    A8,
}

/// Where a byte load reads.
#[derive(Clone, Copy, Debug, PartialEq, Eq, Structural)]
pub enum LoadByteSource {
    A,
    B,
    C,
    D,
    E,
    H,
    L,
    D8,
    HL,
    HLI,
    HLD,
    DE,
    BC,
    D16,
    ADRC,
    A8,
}

/// Where a word load reads.
#[derive(Clone, Copy, Debug, PartialEq, Eq, Structural)]
pub enum LoadWordSource {
    D16,
    SP,
    HL,
    SP8,
}

/// Where a word load stores.
#[derive(Clone, Copy, Debug, PartialEq, Eq, Structural)]
pub enum LoadWordTarget {
    BC,
    DE,
    HL,
    SP,
    A16,
}

/// The 16-bit operand that is added to HL.
#[derive(Clone, Copy, Debug, PartialEq, Eq, Structural)]
pub enum WordTarget {
    BC,
    DE,
    HL,
    SP,
}

/// The register pair that a push or a pop moves.
#[derive(Clone, Copy, Debug, PartialEq, Eq, Structural)]
pub enum StackTarget {
    BC,
    DE,
    HL,
    AF,
}

#[derive(Clone, Copy, Debug, PartialEq, Eq, Structural)]
pub enum LoadType {
    Byte(LoadByteTarget, LoadByteSource),
    Word(LoadWordTarget, LoadWordSource),
}

#[derive(Clone, Copy, Debug, PartialEq, Eq, Structural)]
pub enum Instruction {
    ADD(ArithmeticTarget),
    ADC(ArithmeticTarget),
    SUB(ArithmeticTarget),
    SBC(ArithmeticTarget),
    ADDHL(WordTarget),
    ADDSP,
    JP(JumpTest),
    LD(LoadType),
    PUSH(StackTarget),
    POP(StackTarget),
    CALL(JumpTest),
    RET(JumpTest),
    NOP,
    AND(ArithmeticTarget),
    XOR(ArithmeticTarget),
    OR(ArithmeticTarget),
    CP(ArithmeticTarget),
}

/// The byte that escapes to the second opcode table.
pub const PREFIX: u8 = 0xCB;

impl ArithmeticTarget {
    /// The operand that a three-bit register field names: B, C, D, E, H, L,
    /// the byte at HL, A, for 0 to 7.
    pub open spec fn of_field(field: u8) -> ArithmeticTarget {
        if field == 0 {
            ArithmeticTarget::B
        } else if field == 1 {
            ArithmeticTarget::C
        } else if field == 2 {
            ArithmeticTarget::D
        } else if field == 3 {
            ArithmeticTarget::E
        } else if field == 4 {
            ArithmeticTarget::H
        } else if field == 5 {
            ArithmeticTarget::L
        } else if field == 6 {
            ArithmeticTarget::HL
        } else {
            ArithmeticTarget::A
        }
    }
}

impl LoadByteSource {
    /// The byte source that a three-bit register field names, in the order
    /// of `ArithmeticTarget::of_field`.
    pub open spec fn of_field(field: u8) -> LoadByteSource {
        if field == 0 {
            LoadByteSource::B
        } else if field == 1 {
            LoadByteSource::C
        } else if field == 2 {
            LoadByteSource::D
        } else if field == 3 {
            LoadByteSource::E
        } else if field == 4 {
            LoadByteSource::H
        } else if field == 5 {
            LoadByteSource::L
        } else if field == 6 {
            LoadByteSource::HL
        } else {
            LoadByteSource::A
        }
    }

    /// The memory operand that a two-bit pair field names in the loads
    /// between A and memory: at BC, at DE, at HL with increment, at HL with
    /// decrement, for 0 to 3.
    pub open spec fn of_pair_field(field: u8) -> LoadByteSource {
        if field == 0 {
            LoadByteSource::BC
        } else if field == 1 {
            LoadByteSource::DE
        } else if field == 2 {
            LoadByteSource::HLI
        } else {
            LoadByteSource::HLD
        }
    }

    /// The length that an instruction needs to read from this source: three
    /// bytes for a direct address, two for an immediate byte or a high-page
    /// offset, otherwise one.
    pub open spec fn length(self) -> u8 {
        match self {
            LoadByteSource::D16 => 3,
            LoadByteSource::D8 | LoadByteSource::A8 => 2,
            _ => 1,
        }
    }

    /// Machine cycles that reading this source adds: none for a register,
    /// one for each byte fetched after the opcode and one for the memory
    /// access.
    pub open spec fn cycles(self) -> u8 {
        match self {
            LoadByteSource::A
            | LoadByteSource::B
            | LoadByteSource::C
            | LoadByteSource::D
            | LoadByteSource::E
            | LoadByteSource::H
            | LoadByteSource::L => 0,
            LoadByteSource::A8 => 2,
            LoadByteSource::D16 => 3,
            _ => 1,
        }
    }
}

impl LoadByteTarget {
    /// The byte target that a three-bit register field names, in the order
    /// of `ArithmeticTarget::of_field`.
    pub open spec fn of_field(field: u8) -> LoadByteTarget {
        if field == 0 {
            LoadByteTarget::B
        } else if field == 1 {
            LoadByteTarget::C
        } else if field == 2 {
            LoadByteTarget::D
        } else if field == 3 {
            LoadByteTarget::E
        } else if field == 4 {
            LoadByteTarget::H
        } else if field == 5 {
            LoadByteTarget::L
        } else if field == 6 {
            LoadByteTarget::HL
        } else {
            LoadByteTarget::A
        }
    }

    /// The memory operand that a two-bit pair field names, in the order of
    /// `LoadByteSource::of_pair_field`.
    pub open spec fn of_pair_field(field: u8) -> LoadByteTarget {
        if field == 0 {
            LoadByteTarget::BC
        } else if field == 1 {
            LoadByteTarget::DE
        } else if field == 2 {
            LoadByteTarget::HLI
        } else {
            LoadByteTarget::HLD
        }
    }

    /// The length that an instruction needs to store to this target: three
    /// bytes for a direct address, two for a high-page offset, otherwise one.
    pub open spec fn length(self) -> u8 {
        match self {
            LoadByteTarget::D16 => 3,
            LoadByteTarget::A8 => 2,
            _ => 1,
        }
    }

    /// Machine cycles that storing to this target adds, counted as for a
    /// source.
    pub open spec fn cycles(self) -> u8 {
        match self {
            LoadByteTarget::A
            | LoadByteTarget::B
            | LoadByteTarget::C
            | LoadByteTarget::D
            | LoadByteTarget::E
            | LoadByteTarget::H
            | LoadByteTarget::L => 0,
            LoadByteTarget::A8 => 2,
            LoadByteTarget::D16 => 3,
            _ => 1,
        }
    }
}

impl LoadWordSource {
    /// The length that an instruction needs to read from this source.
    pub open spec fn length(self) -> u8 {
        match self {
            LoadWordSource::D16 => 3,
            LoadWordSource::SP8 => 2,
            _ => 1,
        }
    }

    /// Machine cycles that reading this source adds.
    pub open spec fn cycles(self) -> u8 {
        match self {
            LoadWordSource::D16 => 2,
            LoadWordSource::SP => 0,
            LoadWordSource::HL => 1,
            LoadWordSource::SP8 => 2,
        }
    }
}

impl LoadWordTarget {
    /// The register pair that a two-bit pair field names: BC, DE, HL, SP.
    pub open spec fn of_field(field: u8) -> LoadWordTarget {
        if field == 0 {
            LoadWordTarget::BC
        } else if field == 1 {
            LoadWordTarget::DE
        } else if field == 2 {
            LoadWordTarget::HL
        } else {
            LoadWordTarget::SP
        }
    }

    /// The length that an instruction needs to store to this target.
    pub open spec fn length(self) -> u8 {
        match self {
            LoadWordTarget::A16 => 3,
            _ => 1,
        }
    }

    /// Machine cycles that storing to this target adds.
    pub open spec fn cycles(self) -> u8 {
        match self {
            LoadWordTarget::A16 => 4,
            _ => 0,
        }
    }
}

impl WordTarget {
    /// The register pair that a two-bit pair field names: BC, DE, HL, SP.
    pub open spec fn of_field(field: u8) -> WordTarget {
        if field == 0 {
            WordTarget::BC
        } else if field == 1 {
            WordTarget::DE
        } else if field == 2 {
            WordTarget::HL
        } else {
            WordTarget::SP
        }
    }
}

impl StackTarget {
    /// The register pair that a two-bit pair field names in a push or a
    /// pop: BC, DE, HL, AF.
    pub open spec fn of_field(field: u8) -> StackTarget {
        if field == 0 {
            StackTarget::BC
        } else if field == 1 {
            StackTarget::DE
        } else if field == 2 {
            StackTarget::HL
        } else {
            StackTarget::AF
        }
    }
}

impl JumpTest {
    /// The condition that a two-bit condition field names: not zero, zero,
    /// not carry, carry.
    pub open spec fn of_field(field: u8) -> JumpTest {
        if field == 0 {
            JumpTest::NotZero
        } else if field == 1 {
            JumpTest::Zero
        } else if field == 2 {
            JumpTest::NotCarry
        } else {
            JumpTest::Carry
        }
    }
}

/// The larger of two lengths.
pub open spec fn longer(a: u8, b: u8) -> u8 {
    if a >= b {
        a
    } else {
        b
    }
}

impl Instruction {
    /// The arithmetic or logic instruction that a three-bit operation field
    /// names: ADD, ADC, SUB, SBC, AND, XOR, OR, CP, for 0 to 7.
    pub open spec fn alu_of_field(field: u8, operand: ArithmeticTarget) -> Instruction {
        if field == 0 {
            Instruction::ADD(operand)
        } else if field == 1 {
            Instruction::ADC(operand)
        } else if field == 2 {
            Instruction::SUB(operand)
        } else if field == 3 {
            Instruction::SBC(operand)
        } else if field == 4 {
            Instruction::AND(operand)
        } else if field == 5 {
            Instruction::XOR(operand)
        } else if field == 6 {
            Instruction::OR(operand)
        } else {
            Instruction::CP(operand)
        }
    }

    /// The instruction that an unprefixed opcode stands for, by the fields
    /// of the opcode: `x` is bits 7 and 6, `y` bits 5 to 3, `z` bits 2 to 0,
    /// `p` the upper two bits of `y` and `q` its lowest bit. Opcodes of
    /// instructions that `Instruction` has no variant for stand for nothing.
    pub open spec fn of_opcode(byte: u8) -> Option<Instruction> {
        let x = byte / 64;
        let y = (byte / 8) % 8;
        let z = byte % 8;
        let p = y / 2;
        let q = y % 2;
        if x == 0 {
            if z == 0 {
                if y == 0 {
                    Some(Instruction::NOP)
                } else if y == 1 {
                    Some(Instruction::LD(LoadType::Word(LoadWordTarget::A16, LoadWordSource::SP)))
                } else {
                    None
                }
            } else if z == 1 {
                if q == 0 {
                    Some(
                        Instruction::LD(
                            LoadType::Word(LoadWordTarget::of_field(p), LoadWordSource::D16),
                        ),
                    )
                } else {
                    Some(Instruction::ADDHL(WordTarget::of_field(p)))
                }
            } else if z == 2 {
                if q == 0 {
                    Some(
                        Instruction::LD(
                            LoadType::Byte(LoadByteTarget::of_pair_field(p), LoadByteSource::A),
                        ),
                    )
                } else {
                    Some(
                        Instruction::LD(
                            LoadType::Byte(LoadByteTarget::A, LoadByteSource::of_pair_field(p)),
                        ),
                    )
                }
            } else if z == 6 {
                Some(Instruction::LD(LoadType::Byte(LoadByteTarget::of_field(y), LoadByteSource::D8)))
            } else {
                None
            }
        } else if x == 1 {
            if y == 6 && z == 6 {
                None
            } else {
                Some(
                    Instruction::LD(
                        LoadType::Byte(LoadByteTarget::of_field(y), LoadByteSource::of_field(z)),
                    ),
                )
            }
        } else if x == 2 {
            Some(Instruction::alu_of_field(y, ArithmeticTarget::of_field(z)))
        } else {
            if z == 0 {
                if y < 4 {
                    Some(Instruction::RET(JumpTest::of_field(y)))
                } else if y == 4 {
                    Some(Instruction::LD(LoadType::Byte(LoadByteTarget::A8, LoadByteSource::A)))
                } else if y == 5 {
                    Some(Instruction::ADDSP)
                } else if y == 6 {
                    Some(Instruction::LD(LoadType::Byte(LoadByteTarget::A, LoadByteSource::A8)))
                } else {
                    Some(Instruction::LD(LoadType::Word(LoadWordTarget::HL, LoadWordSource::SP8)))
                }
            } else if z == 1 {
                if q == 0 {
                    Some(Instruction::POP(StackTarget::of_field(p)))
                } else if p == 0 {
                    Some(Instruction::RET(JumpTest::Always))
                } else if p == 3 {
                    Some(Instruction::LD(LoadType::Word(LoadWordTarget::SP, LoadWordSource::HL)))
                } else {
                    None
                }
            } else if z == 2 {
                if y < 4 {
                    Some(Instruction::JP(JumpTest::of_field(y)))
                } else if y == 4 {
                    Some(Instruction::LD(LoadType::Byte(LoadByteTarget::ADRC, LoadByteSource::A)))
                } else if y == 5 {
                    Some(Instruction::LD(LoadType::Byte(LoadByteTarget::D16, LoadByteSource::A)))
                } else if y == 6 {
                    Some(Instruction::LD(LoadType::Byte(LoadByteTarget::A, LoadByteSource::ADRC)))
                } else {
                    Some(Instruction::LD(LoadType::Byte(LoadByteTarget::A, LoadByteSource::D16)))
                }
            } else if z == 3 {
                if y == 0 {
                    Some(Instruction::JP(JumpTest::Always))
                } else {
                    None
                }
            } else if z == 4 {
                if y < 4 {
                    Some(Instruction::CALL(JumpTest::of_field(y)))
                } else {
                    None
                }
            } else if z == 5 {
                if q == 0 {
                    Some(Instruction::PUSH(StackTarget::of_field(p)))
                } else if p == 0 {
                    Some(Instruction::CALL(JumpTest::Always))
                } else {
                    None
                }
            } else if z == 6 {
                Some(Instruction::alu_of_field(y, ArithmeticTarget::N8))
            } else {
                None
            }
        }
    }

    /// The length of the instruction in bytes, opcode included: what its
    /// operands need, and for a load the longer of what its source and its
    /// target need.
    pub open spec fn spec_length(&self) -> u8 {
        match self {
            Instruction::ADD(operand)
            | Instruction::ADC(operand)
            | Instruction::SUB(operand)
            | Instruction::SBC(operand)
            | Instruction::AND(operand)
            | Instruction::XOR(operand)
            | Instruction::OR(operand)
            | Instruction::CP(operand) => if operand == ArithmeticTarget::N8 {
                2
            } else {
                1
            },
            Instruction::ADDHL(_) => 1,
            Instruction::ADDSP => 2,
            Instruction::JP(_) => 3,
            Instruction::CALL(_) => 3,
            Instruction::RET(_) => 1,
            Instruction::PUSH(_) => 1,
            Instruction::POP(_) => 1,
            Instruction::NOP => 1,
            Instruction::LD(LoadType::Byte(target, source)) => longer(
                target.length(),
                source.length(),
            ),
            Instruction::LD(LoadType::Word(target, source)) => longer(
                target.length(),
                source.length(),
            ),
        }
    }

    /// The base cost of the instruction in machine cycles: for a conditional
    /// jump, call or return, the cost when the branch is not taken.
    pub open spec fn cycles(self) -> u8 {
        match self {
            Instruction::ADD(operand)
            | Instruction::ADC(operand)
            | Instruction::SUB(operand)
            | Instruction::SBC(operand)
            | Instruction::AND(operand)
            | Instruction::XOR(operand)
            | Instruction::OR(operand)
            | Instruction::CP(operand) => if operand == ArithmeticTarget::N8 || operand
                == ArithmeticTarget::HL {
                2
            } else {
                1
            },
            Instruction::ADDHL(_) => 2,
            Instruction::ADDSP => 4,
            Instruction::JP(test) => if test == JumpTest::Always {
                4
            } else {
                3
            },
            Instruction::CALL(test) => if test == JumpTest::Always {
                6
            } else {
                3
            },
            Instruction::RET(test) => if test == JumpTest::Always {
                4
            } else {
                2
            },
            Instruction::PUSH(_) => 4,
            Instruction::POP(_) => 3,
            Instruction::NOP => 1,
            Instruction::LD(LoadType::Byte(target, source)) => (1 + target.cycles()
                + source.cycles()) as u8,
            Instruction::LD(LoadType::Word(target, source)) => (1 + target.cycles()
                + source.cycles()) as u8,
        }
    }

    /// What an opcode byte decodes to: the instruction with its length in
    /// bytes and its base cycle count, or nothing where the byte has no
    /// meaning. No byte of the prefixed table has one.
    pub open spec fn decoded(byte: u8, prefixed: bool) -> Option<(Instruction, u8, u8)> {
        if prefixed {
            None
        } else {
            match Self::of_opcode(byte) {
                Some(instruction) => Some(
                    (instruction, instruction.spec_length(), instruction.cycles()),
                ),
                None => None,
            }
        }
    }

    /// Decodes an opcode byte of the unprefixed table, or of the prefixed
    /// table where `prefixed` is set, to the instruction, its length in
    /// bytes and its base cycle count.
    pub fn from_byte(byte: u8, prefixed: bool) -> (entry: Option<(Instruction, u8, u8)>)
        ensures
            entry == Self::decoded(byte, prefixed),
    {
        if prefixed {
            Instruction::from_byte_prefixed(byte)
        } else {
            Instruction::from_byte_not_prefixed(byte)
        }
    }

    fn from_byte_prefixed(byte: u8) -> (entry: Option<(Instruction, u8, u8)>)
        ensures
            entry == Self::decoded(byte, true),
    {
        match byte {
            _ => None,
        }
    }

    fn from_byte_not_prefixed(byte: u8) -> (entry: Option<(Instruction, u8, u8)>)
        ensures
            entry == Self::decoded(byte, false),
    {
        match byte {
            0x00 => Some((Instruction::NOP, 1, 1)),
            0x01 => Some((Instruction::LD(LoadType::Word(LoadWordTarget::BC, LoadWordSource::D16)), 3, 3)),
            0x02 => Some((Instruction::LD(LoadType::Byte(LoadByteTarget::BC, LoadByteSource::A)), 1, 2)),
            0x06 => Some((Instruction::LD(LoadType::Byte(LoadByteTarget::B, LoadByteSource::D8)), 2, 2)),
            0x08 => Some((Instruction::LD(LoadType::Word(LoadWordTarget::A16, LoadWordSource::SP)), 3, 5)),
            0x09 => Some((Instruction::ADDHL(WordTarget::BC), 1, 2)),
            0x0A => Some((Instruction::LD(LoadType::Byte(LoadByteTarget::A, LoadByteSource::BC)), 1, 2)),
            0x0E => Some((Instruction::LD(LoadType::Byte(LoadByteTarget::C, LoadByteSource::D8)), 2, 2)),

            0x11 => Some((Instruction::LD(LoadType::Word(LoadWordTarget::DE, LoadWordSource::D16)), 3, 3)),
            0x12 => Some((Instruction::LD(LoadType::Byte(LoadByteTarget::DE, LoadByteSource::A)), 1, 2)),
            0x16 => Some((Instruction::LD(LoadType::Byte(LoadByteTarget::D, LoadByteSource::D8)), 2, 2)),
            0x19 => Some((Instruction::ADDHL(WordTarget::DE), 1, 2)),
            0x1A => Some((Instruction::LD(LoadType::Byte(LoadByteTarget::A, LoadByteSource::DE)), 1, 2)),
            0x1E => Some((Instruction::LD(LoadType::Byte(LoadByteTarget::E, LoadByteSource::D8)), 2, 2)),

            0x21 => Some((Instruction::LD(LoadType::Word(LoadWordTarget::HL, LoadWordSource::D16)), 3, 3)),
            0x22 => Some((Instruction::LD(LoadType::Byte(LoadByteTarget::HLI, LoadByteSource::A)), 1, 2)),
            0x26 => Some((Instruction::LD(LoadType::Byte(LoadByteTarget::H, LoadByteSource::D8)), 2, 2)),
            0x29 => Some((Instruction::ADDHL(WordTarget::HL), 1, 2)),
            0x2A => Some((Instruction::LD(LoadType::Byte(LoadByteTarget::A, LoadByteSource::HLI)), 1, 2)),
            0x2E => Some((Instruction::LD(LoadType::Byte(LoadByteTarget::L, LoadByteSource::D8)), 2, 2)),

            0x31 => Some((Instruction::LD(LoadType::Word(LoadWordTarget::SP, LoadWordSource::D16)), 3, 3)),
            0x32 => Some((Instruction::LD(LoadType::Byte(LoadByteTarget::HLD, LoadByteSource::A)), 1, 2)),
            0x36 => Some((Instruction::LD(LoadType::Byte(LoadByteTarget::HL, LoadByteSource::D8)), 2, 3)),
            0x39 => Some((Instruction::ADDHL(WordTarget::SP), 1, 2)),
            0x3A => Some((Instruction::LD(LoadType::Byte(LoadByteTarget::A, LoadByteSource::HLD)), 1, 2)),
            0x3E => Some((Instruction::LD(LoadType::Byte(LoadByteTarget::A, LoadByteSource::D8)), 2, 2)),

            0x40 => Some((Instruction::LD(LoadType::Byte(LoadByteTarget::B, LoadByteSource::B)), 1, 1)),
            0x41 => Some((Instruction::LD(LoadType::Byte(LoadByteTarget::B, LoadByteSource::C)), 1, 1)),
            0x42 => Some((Instruction::LD(LoadType::Byte(LoadByteTarget::B, LoadByteSource::D)), 1, 1)),
            0x43 => Some((Instruction::LD(LoadType::Byte(LoadByteTarget::B, LoadByteSource::E)), 1, 1)),
            0x44 => Some((Instruction::LD(LoadType::Byte(LoadByteTarget::B, LoadByteSource::H)), 1, 1)),
            0x45 => Some((Instruction::LD(LoadType::Byte(LoadByteTarget::B, LoadByteSource::L)), 1, 1)),
            0x46 => Some((Instruction::LD(LoadType::Byte(LoadByteTarget::B, LoadByteSource::HL)), 1, 2)),
            0x47 => Some((Instruction::LD(LoadType::Byte(LoadByteTarget::B, LoadByteSource::A)), 1, 1)),
            0x48 => Some((Instruction::LD(LoadType::Byte(LoadByteTarget::C, LoadByteSource::B)), 1, 1)),
            0x49 => Some((Instruction::LD(LoadType::Byte(LoadByteTarget::C, LoadByteSource::C)), 1, 1)),
            0x4A => Some((Instruction::LD(LoadType::Byte(LoadByteTarget::C, LoadByteSource::D)), 1, 1)),
            0x4B => Some((Instruction::LD(LoadType::Byte(LoadByteTarget::C, LoadByteSource::E)), 1, 1)),
            0x4C => Some((Instruction::LD(LoadType::Byte(LoadByteTarget::C, LoadByteSource::H)), 1, 1)),
            0x4D => Some((Instruction::LD(LoadType::Byte(LoadByteTarget::C, LoadByteSource::L)), 1, 1)),
            0x4E => Some((Instruction::LD(LoadType::Byte(LoadByteTarget::C, LoadByteSource::HL)), 1, 2)),
            0x4F => Some((Instruction::LD(LoadType::Byte(LoadByteTarget::C, LoadByteSource::A)), 1, 1)),

            0x50 => Some((Instruction::LD(LoadType::Byte(LoadByteTarget::D, LoadByteSource::B)), 1, 1)),
            0x51 => Some((Instruction::LD(LoadType::Byte(LoadByteTarget::D, LoadByteSource::C)), 1, 1)),
            0x52 => Some((Instruction::LD(LoadType::Byte(LoadByteTarget::D, LoadByteSource::D)), 1, 1)),
            0x53 => Some((Instruction::LD(LoadType::Byte(LoadByteTarget::D, LoadByteSource::E)), 1, 1)),
            0x54 => Some((Instruction::LD(LoadType::Byte(LoadByteTarget::D, LoadByteSource::H)), 1, 1)),
            0x55 => Some((Instruction::LD(LoadType::Byte(LoadByteTarget::D, LoadByteSource::L)), 1, 1)),
            0x56 => Some((Instruction::LD(LoadType::Byte(LoadByteTarget::D, LoadByteSource::HL)), 1, 2)),
            0x57 => Some((Instruction::LD(LoadType::Byte(LoadByteTarget::D, LoadByteSource::A)), 1, 1)),
            0x58 => Some((Instruction::LD(LoadType::Byte(LoadByteTarget::E, LoadByteSource::B)), 1, 1)),
            0x59 => Some((Instruction::LD(LoadType::Byte(LoadByteTarget::E, LoadByteSource::C)), 1, 1)),
            0x5A => Some((Instruction::LD(LoadType::Byte(LoadByteTarget::E, LoadByteSource::D)), 1, 1)),
            0x5B => Some((Instruction::LD(LoadType::Byte(LoadByteTarget::E, LoadByteSource::E)), 1, 1)),
            0x5C => Some((Instruction::LD(LoadType::Byte(LoadByteTarget::E, LoadByteSource::H)), 1, 1)),
            0x5D => Some((Instruction::LD(LoadType::Byte(LoadByteTarget::E, LoadByteSource::L)), 1, 1)),
            0x5E => Some((Instruction::LD(LoadType::Byte(LoadByteTarget::E, LoadByteSource::HL)), 1, 2)),
            0x5F => Some((Instruction::LD(LoadType::Byte(LoadByteTarget::E, LoadByteSource::A)), 1, 1)),

            0x60 => Some((Instruction::LD(LoadType::Byte(LoadByteTarget::H, LoadByteSource::B)), 1, 1)),
            0x61 => Some((Instruction::LD(LoadType::Byte(LoadByteTarget::H, LoadByteSource::C)), 1, 1)),
            0x62 => Some((Instruction::LD(LoadType::Byte(LoadByteTarget::H, LoadByteSource::D)), 1, 1)),
            0x63 => Some((Instruction::LD(LoadType::Byte(LoadByteTarget::H, LoadByteSource::E)), 1, 1)),
            0x64 => Some((Instruction::LD(LoadType::Byte(LoadByteTarget::H, LoadByteSource::H)), 1, 1)),
            0x65 => Some((Instruction::LD(LoadType::Byte(LoadByteTarget::H, LoadByteSource::L)), 1, 1)),
            0x66 => Some((Instruction::LD(LoadType::Byte(LoadByteTarget::H, LoadByteSource::HL)), 1, 2)),
            0x67 => Some((Instruction::LD(LoadType::Byte(LoadByteTarget::H, LoadByteSource::A)), 1, 1)),
            0x68 => Some((Instruction::LD(LoadType::Byte(LoadByteTarget::L, LoadByteSource::B)), 1, 1)),
            0x69 => Some((Instruction::LD(LoadType::Byte(LoadByteTarget::L, LoadByteSource::C)), 1, 1)),
            0x6A => Some((Instruction::LD(LoadType::Byte(LoadByteTarget::L, LoadByteSource::D)), 1, 1)),
            0x6B => Some((Instruction::LD(LoadType::Byte(LoadByteTarget::L, LoadByteSource::E)), 1, 1)),
            0x6C => Some((Instruction::LD(LoadType::Byte(LoadByteTarget::L, LoadByteSource::H)), 1, 1)),
            0x6D => Some((Instruction::LD(LoadType::Byte(LoadByteTarget::L, LoadByteSource::L)), 1, 1)),
            0x6E => Some((Instruction::LD(LoadType::Byte(LoadByteTarget::L, LoadByteSource::HL)), 1, 2)),
            0x6F => Some((Instruction::LD(LoadType::Byte(LoadByteTarget::L, LoadByteSource::A)), 1, 1)),

            0x70 => Some((Instruction::LD(LoadType::Byte(LoadByteTarget::HL, LoadByteSource::B)), 1, 2)),
            0x71 => Some((Instruction::LD(LoadType::Byte(LoadByteTarget::HL, LoadByteSource::C)), 1, 2)),
            0x72 => Some((Instruction::LD(LoadType::Byte(LoadByteTarget::HL, LoadByteSource::D)), 1, 2)),
            0x73 => Some((Instruction::LD(LoadType::Byte(LoadByteTarget::HL, LoadByteSource::E)), 1, 2)),
            0x74 => Some((Instruction::LD(LoadType::Byte(LoadByteTarget::HL, LoadByteSource::H)), 1, 2)),
            0x75 => Some((Instruction::LD(LoadType::Byte(LoadByteTarget::HL, LoadByteSource::L)), 1, 2)),
            0x77 => Some((Instruction::LD(LoadType::Byte(LoadByteTarget::HL, LoadByteSource::A)), 1, 2)),
            0x78 => Some((Instruction::LD(LoadType::Byte(LoadByteTarget::A, LoadByteSource::B)), 1, 1)),
            0x79 => Some((Instruction::LD(LoadType::Byte(LoadByteTarget::A, LoadByteSource::C)), 1, 1)),
            0x7A => Some((Instruction::LD(LoadType::Byte(LoadByteTarget::A, LoadByteSource::D)), 1, 1)),
            0x7B => Some((Instruction::LD(LoadType::Byte(LoadByteTarget::A, LoadByteSource::E)), 1, 1)),
            0x7C => Some((Instruction::LD(LoadType::Byte(LoadByteTarget::A, LoadByteSource::H)), 1, 1)),
            0x7D => Some((Instruction::LD(LoadType::Byte(LoadByteTarget::A, LoadByteSource::L)), 1, 1)),
            0x7E => Some((Instruction::LD(LoadType::Byte(LoadByteTarget::A, LoadByteSource::HL)), 1, 2)),
            0x7F => Some((Instruction::LD(LoadType::Byte(LoadByteTarget::A, LoadByteSource::A)), 1, 1)),

            0x80 => Some((Instruction::ADD(ArithmeticTarget::B), 1, 1)),
            0x81 => Some((Instruction::ADD(ArithmeticTarget::C), 1, 1)),
            0x82 => Some((Instruction::ADD(ArithmeticTarget::D), 1, 1)),
            0x83 => Some((Instruction::ADD(ArithmeticTarget::E), 1, 1)),
            0x84 => Some((Instruction::ADD(ArithmeticTarget::H), 1, 1)),
            0x85 => Some((Instruction::ADD(ArithmeticTarget::L), 1, 1)),
            0x86 => Some((Instruction::ADD(ArithmeticTarget::HL), 1, 2)),
            0x87 => Some((Instruction::ADD(ArithmeticTarget::A), 1, 1)),
            0x88 => Some((Instruction::ADC(ArithmeticTarget::B), 1, 1)),
            0x89 => Some((Instruction::ADC(ArithmeticTarget::C), 1, 1)),
            0x8A => Some((Instruction::ADC(ArithmeticTarget::D), 1, 1)),
            0x8B => Some((Instruction::ADC(ArithmeticTarget::E), 1, 1)),
            0x8C => Some((Instruction::ADC(ArithmeticTarget::H), 1, 1)),
            0x8D => Some((Instruction::ADC(ArithmeticTarget::L), 1, 1)),
            0x8E => Some((Instruction::ADC(ArithmeticTarget::HL), 1, 2)),
            0x8F => Some((Instruction::ADC(ArithmeticTarget::A), 1, 1)),

            0x90 => Some((Instruction::SUB(ArithmeticTarget::B), 1, 1)),
            0x91 => Some((Instruction::SUB(ArithmeticTarget::C), 1, 1)),
            0x92 => Some((Instruction::SUB(ArithmeticTarget::D), 1, 1)),
            0x93 => Some((Instruction::SUB(ArithmeticTarget::E), 1, 1)),
            0x94 => Some((Instruction::SUB(ArithmeticTarget::H), 1, 1)),
            0x95 => Some((Instruction::SUB(ArithmeticTarget::L), 1, 1)),
            0x96 => Some((Instruction::SUB(ArithmeticTarget::HL), 1, 2)),
            0x97 => Some((Instruction::SUB(ArithmeticTarget::A), 1, 1)),
            0x98 => Some((Instruction::SBC(ArithmeticTarget::B), 1, 1)),
            0x99 => Some((Instruction::SBC(ArithmeticTarget::C), 1, 1)),
            0x9A => Some((Instruction::SBC(ArithmeticTarget::D), 1, 1)),
            0x9B => Some((Instruction::SBC(ArithmeticTarget::E), 1, 1)),
            0x9C => Some((Instruction::SBC(ArithmeticTarget::H), 1, 1)),
            0x9D => Some((Instruction::SBC(ArithmeticTarget::L), 1, 1)),
            0x9E => Some((Instruction::SBC(ArithmeticTarget::HL), 1, 2)),
            0x9F => Some((Instruction::SBC(ArithmeticTarget::A), 1, 1)),

            0xA0 => Some((Instruction::AND(ArithmeticTarget::B), 1, 1)),
            0xA1 => Some((Instruction::AND(ArithmeticTarget::C), 1, 1)),
            0xA2 => Some((Instruction::AND(ArithmeticTarget::D), 1, 1)),
            0xA3 => Some((Instruction::AND(ArithmeticTarget::E), 1, 1)),
            0xA4 => Some((Instruction::AND(ArithmeticTarget::H), 1, 1)),
            0xA5 => Some((Instruction::AND(ArithmeticTarget::L), 1, 1)),
            0xA6 => Some((Instruction::AND(ArithmeticTarget::HL), 1, 2)),
            0xA7 => Some((Instruction::AND(ArithmeticTarget::A), 1, 1)),
            0xA8 => Some((Instruction::XOR(ArithmeticTarget::B), 1, 1)),
            0xA9 => Some((Instruction::XOR(ArithmeticTarget::C), 1, 1)),
            0xAA => Some((Instruction::XOR(ArithmeticTarget::D), 1, 1)),
            0xAB => Some((Instruction::XOR(ArithmeticTarget::E), 1, 1)),
            0xAC => Some((Instruction::XOR(ArithmeticTarget::H), 1, 1)),
            0xAD => Some((Instruction::XOR(ArithmeticTarget::L), 1, 1)),
            0xAE => Some((Instruction::XOR(ArithmeticTarget::HL), 1, 2)),
            0xAF => Some((Instruction::XOR(ArithmeticTarget::A), 1, 1)),

            0xB0 => Some((Instruction::OR(ArithmeticTarget::B), 1, 1)),
            0xB1 => Some((Instruction::OR(ArithmeticTarget::C), 1, 1)),
            0xB2 => Some((Instruction::OR(ArithmeticTarget::D), 1, 1)),
            0xB3 => Some((Instruction::OR(ArithmeticTarget::E), 1, 1)),
            0xB4 => Some((Instruction::OR(ArithmeticTarget::H), 1, 1)),
            0xB5 => Some((Instruction::OR(ArithmeticTarget::L), 1, 1)),
            0xB6 => Some((Instruction::OR(ArithmeticTarget::HL), 1, 2)),
            0xB7 => Some((Instruction::OR(ArithmeticTarget::A), 1, 1)),
            0xB8 => Some((Instruction::CP(ArithmeticTarget::B), 1, 1)),
            0xB9 => Some((Instruction::CP(ArithmeticTarget::C), 1, 1)),
            0xBA => Some((Instruction::CP(ArithmeticTarget::D), 1, 1)),
            0xBB => Some((Instruction::CP(ArithmeticTarget::E), 1, 1)),
            0xBC => Some((Instruction::CP(ArithmeticTarget::H), 1, 1)),
            0xBD => Some((Instruction::CP(ArithmeticTarget::L), 1, 1)),
            0xBE => Some((Instruction::CP(ArithmeticTarget::HL), 1, 2)),
            0xBF => Some((Instruction::CP(ArithmeticTarget::A), 1, 1)),

            0xC0 => Some((Instruction::RET(JumpTest::NotZero), 1, 2)),
            0xC1 => Some((Instruction::POP(StackTarget::BC), 1, 3)),
            0xC2 => Some((Instruction::JP(JumpTest::NotZero), 3, 3)),
            0xC3 => Some((Instruction::JP(JumpTest::Always), 3, 4)),
            0xC4 => Some((Instruction::CALL(JumpTest::NotZero), 3, 3)),
            0xC5 => Some((Instruction::PUSH(StackTarget::BC), 1, 4)),
            0xC6 => Some((Instruction::ADD(ArithmeticTarget::N8), 2, 2)),
            0xC8 => Some((Instruction::RET(JumpTest::Zero), 1, 2)),
            0xC9 => Some((Instruction::RET(JumpTest::Always), 1, 4)),
            0xCA => Some((Instruction::JP(JumpTest::Zero), 3, 3)),
            0xCC => Some((Instruction::CALL(JumpTest::Zero), 3, 3)),
            0xCD => Some((Instruction::CALL(JumpTest::Always), 3, 6)),
            0xCE => Some((Instruction::ADC(ArithmeticTarget::N8), 2, 2)),

            0xD0 => Some((Instruction::RET(JumpTest::NotCarry), 1, 2)),
            0xD1 => Some((Instruction::POP(StackTarget::DE), 1, 3)),
            0xD2 => Some((Instruction::JP(JumpTest::NotCarry), 3, 3)),
            0xD4 => Some((Instruction::CALL(JumpTest::NotCarry), 3, 3)),
            0xD5 => Some((Instruction::PUSH(StackTarget::DE), 1, 4)),
            0xD6 => Some((Instruction::SUB(ArithmeticTarget::N8), 2, 2)),
            0xD8 => Some((Instruction::RET(JumpTest::Carry), 1, 2)),
            0xDA => Some((Instruction::JP(JumpTest::Carry), 3, 3)),
            0xDC => Some((Instruction::CALL(JumpTest::Carry), 3, 3)),
            0xDE => Some((Instruction::SBC(ArithmeticTarget::N8), 2, 2)),

            0xE0 => Some((Instruction::LD(LoadType::Byte(LoadByteTarget::A8, LoadByteSource::A)), 2, 3)),
            0xE1 => Some((Instruction::POP(StackTarget::HL), 1, 3)),
            0xE2 => Some((Instruction::LD(LoadType::Byte(LoadByteTarget::ADRC, LoadByteSource::A)), 1, 2)),
            0xE5 => Some((Instruction::PUSH(StackTarget::HL), 1, 4)),
            0xE6 => Some((Instruction::AND(ArithmeticTarget::N8), 2, 2)),
            0xE8 => Some((Instruction::ADDSP, 2, 4)),
            0xEA => Some((Instruction::LD(LoadType::Byte(LoadByteTarget::D16, LoadByteSource::A)), 3, 4)),
            0xEE => Some((Instruction::XOR(ArithmeticTarget::N8), 2, 2)),

            0xF0 => Some((Instruction::LD(LoadType::Byte(LoadByteTarget::A, LoadByteSource::A8)), 2, 3)),
            0xF1 => Some((Instruction::POP(StackTarget::AF), 1, 3)),
            0xF2 => Some((Instruction::LD(LoadType::Byte(LoadByteTarget::A, LoadByteSource::ADRC)), 1, 2)),
            0xF5 => Some((Instruction::PUSH(StackTarget::AF), 1, 4)),
            0xF6 => Some((Instruction::OR(ArithmeticTarget::N8), 2, 2)),
            0xF8 => Some((Instruction::LD(LoadType::Word(LoadWordTarget::HL, LoadWordSource::SP8)), 2, 3)),
            0xF9 => Some((Instruction::LD(LoadType::Word(LoadWordTarget::SP, LoadWordSource::HL)), 1, 2)),
            0xFA => Some((Instruction::LD(LoadType::Byte(LoadByteTarget::A, LoadByteSource::D16)), 3, 4)),
            0xFE => Some((Instruction::CP(ArithmeticTarget::N8), 2, 2)),
            _ => None,
        }
    }

    /// The length of the instruction in bytes.
    #[verifier::when_used_as_spec(spec_length)]
    pub fn length(&self) -> (n: u8)
        ensures
            n == self.spec_length(),
    {
        match self {
            Instruction::ADD(operand)
            | Instruction::ADC(operand)
            | Instruction::SUB(operand)
            | Instruction::SBC(operand)
            | Instruction::AND(operand)
            | Instruction::XOR(operand)
            | Instruction::OR(operand)
            | Instruction::CP(operand) => match operand {
                ArithmeticTarget::N8 => 2,
                _ => 1,
            },
            Instruction::ADDSP => 2,
            Instruction::JP(_) | Instruction::CALL(_) => 3,
            Instruction::LD(LoadType::Byte(target, source)) => {
                let skip: u8 = match source {
                    LoadByteSource::D16 => 3,
                    LoadByteSource::D8 | LoadByteSource::A8 => 2,
                    _ => 1,
                };
                match target {
                    LoadByteTarget::D16 => 3,
                    LoadByteTarget::A8 => if skip > 2 {
                        skip
                    } else {
                        2
                    },
                    _ => skip,
                }
            },
            Instruction::LD(LoadType::Word(target, source)) => {
                match target {
                    LoadWordTarget::A16 => 3,
                    _ => match source {
                        LoadWordSource::D16 => 3,
                        LoadWordSource::SP8 => 2,
                        _ => 1,
                    },
                }
            },
            _ => 1,
        }
    }

    /// Every opcode that decodes declares the length and the cycle count of
    /// its instruction, and the decoder knows no prefixed opcode and never
    /// decodes the prefix byte itself.
    pub proof fn lemma_decoded_entry(byte: u8, prefixed: bool)
        ensures
            Self::decoded(byte, prefixed) matches Some((instruction, length, cycles)) ==> {
                &&& !prefixed
                &&& byte != PREFIX
                &&& Self::of_opcode(byte) == Some(instruction)
                &&& length == instruction.spec_length()
                &&& cycles == instruction.cycles()
                &&& 1 <= length <= 3
            },
    {
    }
}

} // verus!
