use vstd::prelude::*;

verus! {

/// An 8-bit operand by its 3-bit opcode field: B, C, D, E, H, L, (HL), A.
#[derive(Copy, Clone, Debug, PartialEq, Eq, Structural)]
pub enum R8 {
    B,
    C,
    D,
    E,
    H,
    L,
    HLI,
    A,
}

/// A 16-bit register pair by its 2-bit opcode field.
#[derive(Copy, Clone, Debug, PartialEq, Eq, Structural)]
pub enum R16 {
    BC,
    DE,
    HL,
    SP,
}

/// The pairs that PUSH and POP move: AF takes the place of SP.
#[derive(Copy, Clone, Debug, PartialEq, Eq, Structural)]
pub enum StackTarget {
    BC,
    DE,
    HL,
    AF,
}

/// Memory operands of `LD (rr),A` / `LD A,(rr)`; HLI and HLD step HL after the access.
#[derive(Copy, Clone, Debug, PartialEq, Eq, Structural)]
pub enum IndirectTarget {
    BC,
    DE,
    Hli,
    Hld,
}

#[derive(Copy, Clone, Debug, PartialEq, Eq, Structural)]
pub enum JumpCondition {
    NotZero,
    Zero,
    NotCarry,
    Carry,
    Always,
}

#[derive(Copy, Clone, Debug, PartialEq, Eq, Structural)]
pub enum AluOp {
    Add,
    Adc,
    Sub,
    Sbc,
    And,
    Xor,
    Or,
    Cp,
}

/// Second operand of an ALU instruction: a register (or (HL)) or the immediate byte.
#[derive(Copy, Clone, Debug, PartialEq, Eq, Structural)]
pub enum ArithmeticTarget {
    Reg(R8),
    D8,
}

/// The shift and rotate group of the $CB page.
#[derive(Copy, Clone, Debug, PartialEq, Eq, Structural)]
pub enum ShiftOp {
    Rlc,
    Rrc,
    Rl,
    Rr,
    Sla,
    Sra,
    Swap,
    Srl,
}

#[derive(Copy, Clone, Debug, PartialEq, Eq, Structural)]
pub enum Instruction {
    Nop,
    Stop,
    Halt,
    Di,
    Ei,
    Ld(R8, R8),
    LdD8(R8),
    LdD16(R16),
    LdIndirectFromA(IndirectTarget),
    LdAFromIndirect(IndirectTarget),
    LdWordFromA,
    LdAFromWord,
    LdByteAddressFromA,
    LdAFromByteAddress,
    LdLastByteFromA,
    LdAFromLastByte,
    LdHlFromSp,
    LdSpFromHl,
    LdIndirectFromSp,
    Alu(AluOp, ArithmeticTarget),
    Inc(R8),
    Dec(R8),
    Inc16(R16),
    Dec16(R16),
    AddHl(R16),
    AddSp,
    Rlca,
    Rrca,
    Rla,
    Rra,
    Daa,
    Cpl,
    Scf,
    Ccf,
    Jp(JumpCondition),
    JpHl,
    Jr(JumpCondition),
    Call(JumpCondition),
    Ret(JumpCondition),
    Reti,
    Rst(u8),
    Push(StackTarget),
    Pop(StackTarget),
    Shift(ShiftOp, R8),
    Bit(u8, R8),
    ResBit(u8, R8),
    SetBit(u8, R8),
}

pub open spec fn spec_r8(field: u8) -> R8 {
    let f = field % 8;
    if f == 0 {
        R8::B
    } else if f == 1 {
        R8::C
    } else if f == 2 {
        R8::D
    } else if f == 3 {
        R8::E
    } else if f == 4 {
        R8::H
    } else if f == 5 {
        R8::L
    } else if f == 6 {
        R8::HLI
    } else {
        R8::A
    }
}

pub fn r8_of(field: u8) -> (r: R8)
    ensures
        r == spec_r8(field),
{
    let f = field % 8;
    if f == 0 {
        R8::B
    } else if f == 1 {
        R8::C
    } else if f == 2 {
        R8::D
    } else if f == 3 {
        R8::E
    } else if f == 4 {
        R8::H
    } else if f == 5 {
        R8::L
    } else if f == 6 {
        R8::HLI
    } else {
        R8::A
    }
}

pub open spec fn spec_r16(field: u8) -> R16 {
    let f = field % 4;
    if f == 0 {
        R16::BC
    } else if f == 1 {
        R16::DE
    } else if f == 2 {
        R16::HL
    } else {
        R16::SP
    }
}

fn r16_of(field: u8) -> (r: R16)
    ensures
        r == spec_r16(field),
{
    let f = field % 4;
    if f == 0 {
        R16::BC
    } else if f == 1 {
        R16::DE
    } else if f == 2 {
        R16::HL
    } else {
        R16::SP
    }
}

pub open spec fn spec_alu(field: u8) -> AluOp {
    let f = field % 8;
    if f == 0 {
        AluOp::Add
    } else if f == 1 {
        AluOp::Adc
    } else if f == 2 {
        AluOp::Sub
    } else if f == 3 {
        AluOp::Sbc
    } else if f == 4 {
        AluOp::And
    } else if f == 5 {
        AluOp::Xor
    } else if f == 6 {
        AluOp::Or
    } else {
        AluOp::Cp
    }
}

fn alu_of(field: u8) -> (r: AluOp)
    ensures
        r == spec_alu(field),
{
    let f = field % 8;
    if f == 0 {
        AluOp::Add
    } else if f == 1 {
        AluOp::Adc
    } else if f == 2 {
        AluOp::Sub
    } else if f == 3 {
        AluOp::Sbc
    } else if f == 4 {
        AluOp::And
    } else if f == 5 {
        AluOp::Xor
    } else if f == 6 {
        AluOp::Or
    } else {
        AluOp::Cp
    }
}

pub open spec fn spec_shift(field: u8) -> ShiftOp {
    let f = field % 8;
    if f == 0 {
        ShiftOp::Rlc
    } else if f == 1 {
        ShiftOp::Rrc
    } else if f == 2 {
        ShiftOp::Rl
    } else if f == 3 {
        ShiftOp::Rr
    } else if f == 4 {
        ShiftOp::Sla
    } else if f == 5 {
        ShiftOp::Sra
    } else if f == 6 {
        ShiftOp::Swap
    } else {
        ShiftOp::Srl
    }
}

fn condition_of(field: u8) -> (r: JumpCondition)
    ensures
        r == spec_condition(field),
{
    let f = field % 4;
    if f == 0 {
        JumpCondition::NotZero
    } else if f == 1 {
        JumpCondition::Zero
    } else if f == 2 {
        JumpCondition::NotCarry
    } else {
        JumpCondition::Carry
    }
}

pub open spec fn spec_condition(field: u8) -> JumpCondition {
    let f = field % 4;
    if f == 0 {
        JumpCondition::NotZero
    } else if f == 1 {
        JumpCondition::Zero
    } else if f == 2 {
        JumpCondition::NotCarry
    } else {
        JumpCondition::Carry
    }
}

/// The $CB page: bits 6–7 pick the group, bits 3–5 the operation or bit, bits 0–2 the operand.
pub open spec fn spec_decode_prefixed(byte: u8) -> Instruction {
    if byte < 0x40 {
        Instruction::Shift(spec_shift(byte / 8), spec_r8(byte))
    } else if byte < 0x80 {
        Instruction::Bit((byte / 8) % 8, spec_r8(byte))
    } else if byte < 0xC0 {
        Instruction::ResBit((byte / 8) % 8, spec_r8(byte))
    } else {
        Instruction::SetBit((byte / 8) % 8, spec_r8(byte))
    }
}

/// The unprefixed opcode table; `None` for the eleven undefined opcodes and for the $CB prefix.
pub open spec fn spec_decode(byte: u8) -> Option<Instruction> {
    if 0x40 <= byte < 0x80 {
        if byte == 0x76 {
            Some(Instruction::Halt)
        } else {
            Some(Instruction::Ld(spec_r8(byte / 8), spec_r8(byte)))
        }
    } else if 0x80 <= byte < 0xC0 {
        Some(Instruction::Alu(spec_alu(byte / 8), ArithmeticTarget::Reg(spec_r8(byte))))
    } else if byte < 0x40 {
        let low = byte % 16;
        let pair = spec_r16(byte / 16);
        let reg = spec_r8(byte / 8);
        if byte % 8 == 4 {
            Some(Instruction::Inc(reg))
        } else if byte % 8 == 5 {
            Some(Instruction::Dec(reg))
        } else if byte % 8 == 6 {
            Some(Instruction::LdD8(reg))
        } else if low == 0x01 {
            Some(Instruction::LdD16(pair))
        } else if low == 0x03 {
            Some(Instruction::Inc16(pair))
        } else if low == 0x09 {
            Some(Instruction::AddHl(pair))
        } else if low == 0x0B {
            Some(Instruction::Dec16(pair))
        } else if low == 0x02 || low == 0x0A {
            let target = if byte < 0x10 {
                IndirectTarget::BC
            } else if byte < 0x20 {
                IndirectTarget::DE
            } else if byte < 0x30 {
                IndirectTarget::Hli
            } else {
                IndirectTarget::Hld
            };
            if low == 0x02 {
                Some(Instruction::LdIndirectFromA(target))
            } else {
                Some(Instruction::LdAFromIndirect(target))
            }
        } else if byte == 0x00 {
            Some(Instruction::Nop)
        } else if byte == 0x07 {
            Some(Instruction::Rlca)
        } else if byte == 0x08 {
            Some(Instruction::LdIndirectFromSp)
        } else if byte == 0x0F {
            Some(Instruction::Rrca)
        } else if byte == 0x10 {
            Some(Instruction::Stop)
        } else if byte == 0x17 {
            Some(Instruction::Rla)
        } else if byte == 0x18 {
            Some(Instruction::Jr(JumpCondition::Always))
        } else if byte == 0x1F {
            Some(Instruction::Rra)
        } else if byte == 0x20 {
            Some(Instruction::Jr(JumpCondition::NotZero))
        } else if byte == 0x27 {
            Some(Instruction::Daa)
        } else if byte == 0x28 {
            Some(Instruction::Jr(JumpCondition::Zero))
        } else if byte == 0x2F {
            Some(Instruction::Cpl)
        } else if byte == 0x30 {
            Some(Instruction::Jr(JumpCondition::NotCarry))
        } else if byte == 0x37 {
            Some(Instruction::Scf)
        } else if byte == 0x38 {
            Some(Instruction::Jr(JumpCondition::Carry))
        } else {
            Some(Instruction::Ccf)
        }
    } else {
        let low = byte % 16;
        let stack = if byte < 0xD0 {
            StackTarget::BC
        } else if byte < 0xE0 {
            StackTarget::DE
        } else if byte < 0xF0 {
            StackTarget::HL
        } else {
            StackTarget::AF
        };
        if byte % 8 == 7 {
            Some(Instruction::Rst((byte % 64 - byte % 8) as u8))
        } else if byte % 8 == 6 {
            Some(Instruction::Alu(spec_alu(byte / 8), ArithmeticTarget::D8))
        } else if low == 0x01 {
            Some(Instruction::Pop(stack))
        } else if low == 0x05 {
            Some(Instruction::Push(stack))
        } else if byte < 0xE0 {
            let cond = spec_condition(byte / 8);
            if byte % 8 == 0 {
                Some(Instruction::Ret(cond))
            } else if byte % 8 == 2 {
                Some(Instruction::Jp(cond))
            } else if byte % 8 == 4 {
                if byte == 0xD4 || byte == 0xC4 || byte == 0xCC || byte == 0xDC {
                    Some(Instruction::Call(cond))
                } else {
                    None
                }
            } else if byte == 0xC3 {
                Some(Instruction::Jp(JumpCondition::Always))
            } else if byte == 0xC9 {
                Some(Instruction::Ret(JumpCondition::Always))
            } else if byte == 0xCD {
                Some(Instruction::Call(JumpCondition::Always))
            } else if byte == 0xD9 {
                Some(Instruction::Reti)
            } else {
                None
            }
        } else if byte == 0xE0 {
            Some(Instruction::LdByteAddressFromA)
        } else if byte == 0xE2 {
            Some(Instruction::LdLastByteFromA)
        } else if byte == 0xE8 {
            Some(Instruction::AddSp)
        } else if byte == 0xE9 {
            Some(Instruction::JpHl)
        } else if byte == 0xEA {
            Some(Instruction::LdWordFromA)
        } else if byte == 0xF0 {
            Some(Instruction::LdAFromByteAddress)
        } else if byte == 0xF2 {
            Some(Instruction::LdAFromLastByte)
        } else if byte == 0xF3 {
            Some(Instruction::Di)
        } else if byte == 0xF8 {
            Some(Instruction::LdHlFromSp)
        } else if byte == 0xF9 {
            Some(Instruction::LdSpFromHl)
        } else if byte == 0xFA {
            Some(Instruction::LdAFromWord)
        } else if byte == 0xFB {
            Some(Instruction::Ei)
        } else {
            None
        }
    }
}

/// The eleven opcodes with no instruction.
pub open spec fn undefined_opcode(byte: u8) -> bool {
    byte == 0xD3 || byte == 0xDB || byte == 0xDD || byte == 0xE3 || byte == 0xE4 || byte == 0xEB
        || byte == 0xEC || byte == 0xED || byte == 0xF4 || byte == 0xFC || byte == 0xFD
}

impl Instruction {
    /// Decodes the instruction after a $CB prefix.
    pub fn from_prefixed(byte: u8) -> (r: Instruction)
        ensures
            r == spec_decode_prefixed(byte),
    {
        let reg = r8_of(byte);
        let field = (byte / 8) % 8;
        if byte < 0x40 {
            let op = if field == 0 {
                ShiftOp::Rlc
            } else if field == 1 {
                ShiftOp::Rrc
            } else if field == 2 {
                ShiftOp::Rl
            } else if field == 3 {
                ShiftOp::Rr
            } else if field == 4 {
                ShiftOp::Sla
            } else if field == 5 {
                ShiftOp::Sra
            } else if field == 6 {
                ShiftOp::Swap
            } else {
                ShiftOp::Srl
            };
            Instruction::Shift(op, reg)
        } else if byte < 0x80 {
            Instruction::Bit(field, reg)
        } else if byte < 0xC0 {
            Instruction::ResBit(field, reg)
        } else {
            Instruction::SetBit(field, reg)
        }
    }

    /// Decodes an unprefixed opcode; `None` for the eleven undefined ones (and for $CB,
    /// which is a prefix).
    pub fn from_byte(byte: u8) -> (r: Option<Instruction>)
        ensures
            r == spec_decode(byte),
            r.is_none() <==> undefined_opcode(byte) || byte == 0xCB,
    {
        if 0x40 <= byte && byte < 0x80 {
            if byte == 0x76 {
                return Some(Instruction::Halt);
            }
            return Some(Instruction::Ld(r8_of(byte / 8), r8_of(byte)));
        }
        if 0x80 <= byte && byte < 0xC0 {
            return Some(Instruction::Alu(alu_of(byte / 8), ArithmeticTarget::Reg(r8_of(byte))));
        }
        if byte < 0x40 {
            let low = byte % 16;
            let pair = r16_of(byte / 16);
            let reg = r8_of(byte / 8);
            return if byte % 8 == 4 {
                Some(Instruction::Inc(reg))
            } else if byte % 8 == 5 {
                Some(Instruction::Dec(reg))
            } else if byte % 8 == 6 {
                Some(Instruction::LdD8(reg))
            } else if low == 0x01 {
                Some(Instruction::LdD16(pair))
            } else if low == 0x03 {
                Some(Instruction::Inc16(pair))
            } else if low == 0x09 {
                Some(Instruction::AddHl(pair))
            } else if low == 0x0B {
                Some(Instruction::Dec16(pair))
            } else if low == 0x02 || low == 0x0A {
                let target = if byte < 0x10 {
                    IndirectTarget::BC
                } else if byte < 0x20 {
                    IndirectTarget::DE
                } else if byte < 0x30 {
                    IndirectTarget::Hli
                } else {
                    IndirectTarget::Hld
                };
                if low == 0x02 {
                    Some(Instruction::LdIndirectFromA(target))
                } else {
                    Some(Instruction::LdAFromIndirect(target))
                }
            } else {
                match byte {
                    0x00 => Some(Instruction::Nop),
                    0x07 => Some(Instruction::Rlca),
                    0x08 => Some(Instruction::LdIndirectFromSp),
                    0x0F => Some(Instruction::Rrca),
                    0x10 => Some(Instruction::Stop),
                    0x17 => Some(Instruction::Rla),
                    0x18 => Some(Instruction::Jr(JumpCondition::Always)),
                    0x1F => Some(Instruction::Rra),
                    0x20 => Some(Instruction::Jr(JumpCondition::NotZero)),
                    0x27 => Some(Instruction::Daa),
                    0x28 => Some(Instruction::Jr(JumpCondition::Zero)),
                    0x2F => Some(Instruction::Cpl),
                    0x30 => Some(Instruction::Jr(JumpCondition::NotCarry)),
                    0x37 => Some(Instruction::Scf),
                    0x38 => Some(Instruction::Jr(JumpCondition::Carry)),
                    _ => Some(Instruction::Ccf),
                }
            };
        }
        let low = byte % 16;
        let stack = if byte < 0xD0 {
            StackTarget::BC
        } else if byte < 0xE0 {
            StackTarget::DE
        } else if byte < 0xF0 {
            StackTarget::HL
        } else {
            StackTarget::AF
        };
        if byte % 8 == 7 {
            return Some(Instruction::Rst(byte % 64 - byte % 8));
        }
        if byte % 8 == 6 {
            return Some(Instruction::Alu(alu_of(byte / 8), ArithmeticTarget::D8));
        }
        if low == 0x01 {
            return Some(Instruction::Pop(stack));
        }
        if low == 0x05 {
            return Some(Instruction::Push(stack));
        }
        if byte < 0xE0 {
            let cond = condition_of(byte / 8);
            match byte % 8 {
                0 => Some(Instruction::Ret(cond)),
                2 => Some(Instruction::Jp(cond)),
                4 => {
                    if byte == 0xD4 || byte == 0xC4 || byte == 0xCC || byte == 0xDC {
                        Some(Instruction::Call(cond))
                    } else {
                        None
                    }
                },
                _ => match byte {
                    0xC3 => Some(Instruction::Jp(JumpCondition::Always)),
                    0xC9 => Some(Instruction::Ret(JumpCondition::Always)),
                    0xCD => Some(Instruction::Call(JumpCondition::Always)),
                    0xD9 => Some(Instruction::Reti),
                    _ => None,
                },
            }
        } else {
            match byte {
                0xE0 => Some(Instruction::LdByteAddressFromA),
                0xE2 => Some(Instruction::LdLastByteFromA),
                0xE8 => Some(Instruction::AddSp),
                0xE9 => Some(Instruction::JpHl),
                0xEA => Some(Instruction::LdWordFromA),
                0xF0 => Some(Instruction::LdAFromByteAddress),
                0xF2 => Some(Instruction::LdAFromLastByte),
                0xF3 => Some(Instruction::Di),
                0xF8 => Some(Instruction::LdHlFromSp),
                0xF9 => Some(Instruction::LdSpFromHl),
                0xFA => Some(Instruction::LdAFromWord),
                0xFB => Some(Instruction::Ei),
                _ => None,
            }
        }
    }

    /// Bytes the instruction occupies, opcode (and prefix) included.
    pub open spec fn width(self) -> u16 {
        match self {
            Instruction::LdD8(_) | Instruction::LdByteAddressFromA | Instruction::LdAFromByteAddress
            | Instruction::LdHlFromSp | Instruction::AddSp | Instruction::Jr(_) | Instruction::Shift(_, _)
            | Instruction::Bit(_, _) | Instruction::ResBit(_, _) | Instruction::SetBit(_, _) => 2,
            Instruction::Alu(_, t) => if t == ArithmeticTarget::D8 {
                2
            } else {
                1
            },
            Instruction::LdD16(_) | Instruction::LdWordFromA | Instruction::LdAFromWord
            | Instruction::LdIndirectFromSp | Instruction::Jp(_) | Instruction::Call(_) => 3,
            _ => 1,
        }
    }

    /// T-cycles the instruction takes; `taken` says whether a conditional branch is taken.
    pub open spec fn cycles(self, taken: bool) -> u8 {
        match self {
            Instruction::Ld(d, s) => if d == R8::HLI || s == R8::HLI {
                8
            } else {
                4
            },
            Instruction::LdD8(d) => if d == R8::HLI {
                12
            } else {
                8
            },
            Instruction::LdD16(_) | Instruction::LdByteAddressFromA | Instruction::LdAFromByteAddress
            | Instruction::LdHlFromSp | Instruction::Pop(_) => 12,
            Instruction::LdIndirectFromA(_) | Instruction::LdAFromIndirect(_) | Instruction::LdLastByteFromA
            | Instruction::LdAFromLastByte | Instruction::LdSpFromHl | Instruction::Inc16(_)
            | Instruction::Dec16(_) | Instruction::AddHl(_) => 8,
            Instruction::LdWordFromA | Instruction::LdAFromWord | Instruction::AddSp | Instruction::Push(_)
            | Instruction::Reti | Instruction::Rst(_) => 16,
            Instruction::LdIndirectFromSp => 20,
            Instruction::Alu(_, t) => if t == ArithmeticTarget::Reg(R8::HLI) || t == ArithmeticTarget::D8 {
                8
            } else {
                4
            },
            Instruction::Inc(r) | Instruction::Dec(r) => if r == R8::HLI {
                12
            } else {
                4
            },
            Instruction::Jp(_) => if taken {
                16
            } else {
                12
            },
            Instruction::Jr(_) => if taken {
                12
            } else {
                8
            },
            Instruction::Call(_) => if taken {
                24
            } else {
                12
            },
            Instruction::Ret(c) => if c == JumpCondition::Always {
                16
            } else if taken {
                20
            } else {
                8
            },
            Instruction::Shift(_, r) | Instruction::ResBit(_, r) | Instruction::SetBit(_, r) => if r == R8::HLI {
                16
            } else {
                8
            },
            Instruction::Bit(_, r) => if r == R8::HLI {
                12
            } else {
                8
            },
            _ => 4,
        }
    }
}

} // verus!
