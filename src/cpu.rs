use vstd::prelude::*;

use crate::flags_register::FlagsRegister;
use crate::instructions::{AluOp, ArithmeticTarget, IndirectTarget, Instruction, JumpCondition, R16, R8, ShiftOp, StackTarget, undefined_opcode};
use crate::interrupts::InterruptFlags;
use crate::mmu::Memory;
use crate::registers::{hi_byte, lo_byte, pair, Registers};
use crate::instructions::{spec_decode, spec_decode_prefixed};

verus! {

pub open spec fn carry_in(c: bool) -> int {
    if c {
        1
    } else {
        0
    }
}

pub open spec fn spec_add(a: u8, v: u8) -> (u8, FlagsRegister) {
    let r = ((a + v) % 256) as u8;
    (r, FlagsRegister { z: r == 0, n: false, h: a % 16 + v % 16 > 15, c: a + v > 255 })
}

pub open spec fn spec_adc(a: u8, v: u8, c: bool) -> (u8, FlagsRegister) {
    let r = ((a + v + carry_in(c)) % 256) as u8;
    (r, FlagsRegister { z: r == 0, n: false, h: a % 16 + v % 16 + carry_in(c) > 15, c: a + v + carry_in(c) > 255 })
}

pub open spec fn spec_sub(a: u8, v: u8) -> (u8, FlagsRegister) {
    let r = ((a - v + 256) % 256) as u8;
    (r, FlagsRegister { z: r == 0, n: true, h: a % 16 < v % 16, c: v > a })
}

pub open spec fn spec_sbc(a: u8, v: u8, c: bool) -> (u8, FlagsRegister) {
    let r = ((a - v - carry_in(c) + 512) % 256) as u8;
    (r, FlagsRegister { z: r == 0, n: true, h: a % 16 < v % 16 + carry_in(c), c: a < v + carry_in(c) })
}

pub open spec fn logic_flags(r: u8, h: bool) -> FlagsRegister {
    FlagsRegister { z: r == 0, n: false, h, c: false }
}

/// Flags and result of the shift and rotate family; `set_zero` is false for the
/// accumulator forms (RLCA, RRCA, RLA, RRA), which always clear Z.
pub open spec fn shift_flags(r: u8, carry: bool, set_zero: bool) -> FlagsRegister {
    FlagsRegister { z: set_zero && r == 0, n: false, h: false, c: carry }
}

pub open spec fn spec_rlc(v: u8) -> u8 {
    ((v * 2) % 256 + v / 128) as u8
}

pub open spec fn spec_rl(v: u8, c: bool) -> u8 {
    ((v * 2) % 256 + carry_in(c)) as u8
}

pub open spec fn spec_rrc(v: u8) -> u8 {
    (v / 2 + (v % 2) * 128) as u8
}

pub open spec fn spec_rr(v: u8, c: bool) -> u8 {
    (v / 2 + carry_in(c) * 128) as u8
}

pub open spec fn spec_sra(v: u8) -> u8 {
    (v / 2 + if v >= 128 { 128int } else { 0int }) as u8
}

pub open spec fn spec_swap(v: u8) -> u8 {
    ((v % 16) * 16 + v / 16) as u8
}

/// The sum of SP and a signed 8-bit offset, with the flags of ADD SP,e and LD HL,SP+e:
/// H and C come from the unsigned add of the low byte.
pub open spec fn spec_sp_offset(sp: u16, imm: u8) -> (u16, FlagsRegister) {
    let offset: int = if imm >= 128 { imm - 256 } else { imm as int };
    let r = ((sp + offset + 0x10000) % 0x10000) as u16;
    (r, FlagsRegister { z: false, n: false, h: sp % 16 + imm % 16 > 15, c: sp % 256 + imm > 255 })
}

/// Whether a branch condition holds under the flags `f`.
pub open spec fn spec_taken(f: FlagsRegister, c: JumpCondition) -> bool {
    match c {
        JumpCondition::NotZero => !f.z,
        JumpCondition::Zero => f.z,
        JumpCondition::NotCarry => !f.c,
        JumpCondition::Carry => f.c,
        JumpCondition::Always => true,
    }
}

pub open spec fn wrap16(x: int) -> u16 {
    ((x % 0x10000 + 0x10000) % 0x10000) as u16
}

/// Result and flags of an 8-bit ALU operation on A and `v` (CP leaves A as it was).
pub open spec fn spec_alu_op(op: AluOp, a: u8, v: u8, c: bool) -> (u8, FlagsRegister) {
    match op {
        AluOp::Add => spec_add(a, v),
        AluOp::Adc => spec_adc(a, v, c),
        AluOp::Sub => spec_sub(a, v),
        AluOp::Sbc => spec_sbc(a, v, c),
        AluOp::And => ((a & v) as u8, logic_flags((a & v) as u8, true)),
        AluOp::Xor => ((a ^ v) as u8, logic_flags((a ^ v) as u8, false)),
        AluOp::Or => ((a | v) as u8, logic_flags((a | v) as u8, false)),
        AluOp::Cp => (a, spec_sub(a, v).1),
    }
}

/// The condition an instruction branches on (`Always` for the others).
pub open spec fn condition_of(i: Instruction) -> JumpCondition {
    match i {
        Instruction::Jp(c) | Instruction::Jr(c) | Instruction::Call(c) | Instruction::Ret(c) => c,
        _ => JumpCondition::Always,
    }
}

pub open spec fn signed(v: u8) -> int {
    if v >= 128 {
        v - 256
    } else {
        v as int
    }
}

/// Whether an instruction belongs to the given dispatch group.
pub open spec fn is_control(i: Instruction) -> bool {
    matches!(i, Instruction::Jp(_) | Instruction::JpHl | Instruction::Jr(_) | Instruction::Call(_)
        | Instruction::Ret(_) | Instruction::Reti | Instruction::Rst(_) | Instruction::Push(_) | Instruction::Pop(_))
}

pub open spec fn is_arith(i: Instruction) -> bool {
    matches!(i, Instruction::Alu(_, _) | Instruction::Inc(_) | Instruction::Dec(_) | Instruction::Inc16(_)
        | Instruction::Dec16(_) | Instruction::AddHl(_) | Instruction::AddSp)
}

pub open spec fn is_prefixed(i: Instruction) -> bool {
    matches!(i, Instruction::Shift(_, _) | Instruction::Bit(_, _) | Instruction::ResBit(_, _) | Instruction::SetBit(_, _))
}

pub open spec fn is_load(i: Instruction) -> bool {
    matches!(i, Instruction::Ld(_, _) | Instruction::LdD8(_) | Instruction::LdD16(_) | Instruction::LdIndirectFromA(_)
        | Instruction::LdAFromIndirect(_) | Instruction::LdWordFromA | Instruction::LdAFromWord
        | Instruction::LdByteAddressFromA | Instruction::LdAFromByteAddress | Instruction::LdLastByteFromA
        | Instruction::LdAFromLastByte | Instruction::LdHlFromSp | Instruction::LdSpFromHl | Instruction::LdIndirectFromSp)
}

/// The cycles of a step's instruction plus the 12 of an interrupt dispatch, if one happened.
pub open spec fn step_cycles(executed: u8, serviced: bool) -> u8 {
    if serviced { (executed + 12) as u8 } else { executed }
}

/// The registers with 8-bit operand `reg` set to `v` ((HL) is memory and leaves them as they are).
pub open spec fn with_r8(r: Registers, reg: R8, v: u8) -> Registers {
    match reg {
        R8::B => Registers { b: v, ..r },
        R8::C => Registers { c: v, ..r },
        R8::D => Registers { d: v, ..r },
        R8::E => Registers { e: v, ..r },
        R8::H => Registers { h: v, ..r },
        R8::L => Registers { l: v, ..r },
        R8::HLI => r,
        R8::A => Registers { a: v, ..r },
    }
}

/// DAA: A adjusted to packed BCD from the flags of the previous add (N clear) or subtract
/// (N set), and the new carry.
pub open spec fn spec_daa(a: u8, f: FlagsRegister) -> (u8, bool) {
    if !f.n {
        let (a1, c1) = if f.c || a > 0x99 {
            (((a + 0x60) % 256) as u8, true)
        } else {
            (a, false)
        };
        let a2 = if f.h || a1 % 16 > 9 {
            ((a1 + 6) % 256) as u8
        } else {
            a1
        };
        (a2, c1)
    } else if f.c {
        (((a + if f.h { 0x9Aint } else { 0xA0int }) % 256) as u8, true)
    } else if f.h {
        (((a + 0xFA) % 256) as u8, false)
    } else {
        (a, false)
    }
}

/// Result and carry of a $CB shift or rotate of `v` with carry-in `c`.
pub open spec fn spec_shift_op(op: ShiftOp, v: u8, c: bool) -> (u8, bool) {
    match op {
        ShiftOp::Rlc => (spec_rlc(v), v >= 128),
        ShiftOp::Rrc => (spec_rrc(v), v % 2 == 1),
        ShiftOp::Rl => (spec_rl(v, c), v >= 128),
        ShiftOp::Rr => (spec_rr(v, c), v % 2 == 1),
        ShiftOp::Sla => (((v * 2) % 256) as u8, v >= 128),
        ShiftOp::Sra => (spec_sra(v), v % 2 == 1),
        ShiftOp::Swap => (spec_swap(v), false),
        ShiftOp::Srl => ((v / 2) as u8, v % 2 == 1),
    }
}

/// The CPU with the bus it owns.
pub struct Cpu {
    pub registers: Registers,
    pub sp: u16,
    pub pc: u16,
    pub mem: Memory,
    pub ime: bool,
    pub is_halted: bool,
    pub ime_next: bool,
}

impl Cpu {
    pub open spec fn wf(&self) -> bool {
        self.mem.wf()
    }

    pub open spec fn spec_r8(&self, r: R8) -> u8 {
        match r {
            R8::B => self.registers.b,
            R8::C => self.registers.c,
            R8::D => self.registers.d,
            R8::E => self.registers.e,
            R8::H => self.registers.h,
            R8::L => self.registers.l,
            R8::HLI => self.mem.spec_read(self.registers.hl()),
            R8::A => self.registers.a,
        }
    }

    pub open spec fn spec_r16(&self, r: R16) -> u16 {
        match r {
            R16::BC => self.registers.bc(),
            R16::DE => self.registers.de(),
            R16::HL => self.registers.hl(),
            R16::SP => self.sp,
        }
    }

    /// The byte after the opcode.
    pub open spec fn imm8(&self) -> u8 {
        self.mem.spec_read(wrap16(self.pc + 1))
    }

    /// The little-endian word after the opcode.
    pub open spec fn imm16(&self) -> u16 {
        pair(self.mem.spec_read(wrap16(self.pc + 2)), self.mem.spec_read(wrap16(self.pc + 1)))
    }

    /// The word on top of the stack.
    pub open spec fn top_of_stack(&self) -> u16 {
        pair(self.mem.spec_read(wrap16(self.sp + 1)), self.mem.spec_read(self.sp))
    }

    pub open spec fn with_flags(&self, f: FlagsRegister) -> Cpu {
        Cpu { registers: Registers { f, ..self.registers }, ..*self }
    }

    pub open spec fn with_r16(&self, r: R16, v: u16) -> Cpu {
        match r {
            R16::BC => Cpu { registers: Registers { b: hi_byte(v), c: lo_byte(v), ..self.registers }, ..*self },
            R16::DE => Cpu { registers: Registers { d: hi_byte(v), e: lo_byte(v), ..self.registers }, ..*self },
            R16::HL => Cpu { registers: Registers { h: hi_byte(v), l: lo_byte(v), ..self.registers }, ..*self },
            R16::SP => Cpu { sp: v, ..*self },
        }
    }

    /// `new` is this state with operand `r` set to `v`: a register, or the byte at HL.
    pub open spec fn write_r8_post(&self, new: &Cpu, r: R8, v: u8) -> bool {
        if r == R8::HLI {
            self.mem.write_post(&new.mem, self.registers.hl(), v) && *new == (Cpu { mem: new.mem, ..*self })
        } else {
            *new == (Cpu { registers: with_r8(self.registers, r, v), ..*self })
        }
    }

    /// `new` is this state after pushing `value`: its high byte written at SP-1, its low byte at
    /// SP-2, SP two lower, nothing else changed.
    pub open spec fn push_post(&self, new: &Cpu, value: u16) -> bool {
        &&& new.wf()
        &&& new.sp == wrap16(self.sp - 2)
        &&& exists|m: Memory|
            #[trigger] self.mem.write_post(&m, wrap16(self.sp - 1), hi_byte(value)) && m.write_post(
                &new.mem,
                wrap16(self.sp - 2),
                lo_byte(value),
            )
        &&& *new == (Cpu { mem: new.mem, sp: new.sp, ..*self })
    }

    pub open spec fn stack_value(&self, t: StackTarget) -> u16 {
        match t {
            StackTarget::AF => self.registers.af(),
            StackTarget::BC => self.registers.bc(),
            StackTarget::DE => self.registers.de(),
            StackTarget::HL => self.registers.hl(),
        }
    }

    pub open spec fn with_stack_value(&self, t: StackTarget, v: u16) -> Cpu {
        match t {
            StackTarget::AF => Cpu {
                registers: Registers {
                    a: hi_byte(v),
                    f: FlagsRegister::spec_from_byte(lo_byte(v)),
                    ..self.registers
                },
                ..*self
            },
            StackTarget::BC => self.with_r16(R16::BC, v),
            StackTarget::DE => self.with_r16(R16::DE, v),
            StackTarget::HL => self.with_r16(R16::HL, v),
        }
    }

    pub open spec fn indirect_addr(&self, t: IndirectTarget) -> u16 {
        match t {
            IndirectTarget::BC => self.registers.bc(),
            IndirectTarget::DE => self.registers.de(),
            _ => self.registers.hl(),
        }
    }

    /// The state after the HL step of `(HL+)` / `(HL-)`.
    pub open spec fn after_indirect(&self, t: IndirectTarget) -> Cpu {
        match t {
            IndirectTarget::Hli => self.with_r16(R16::HL, wrap16(self.registers.hl() + 1)),
            IndirectTarget::Hld => self.with_r16(R16::HL, wrap16(self.registers.hl() - 1)),
            _ => *self,
        }
    }

    /// What instruction `i` does to registers, flags, SP, the IME and HALT latches and memory
    /// (PC is left to the caller).
    pub open spec fn effect(&self, new: &Cpu, i: Instruction) -> bool {
        let r = self.registers;
        let f = r.f;
        let taken = spec_taken(f, condition_of(i));
        if is_control(i) {
            self.effect_control(new, i)
        } else if is_arith(i) {
            self.effect_arith(new, i)
        } else if is_prefixed(i) {
            self.effect_prefixed(new, i)
        } else if is_load(i) {
            self.effect_load(new, i)
        } else {
            self.effect_misc(new, i)
        }
    }

    /// Effect of an instruction of the group: NOP, STOP, HALT, DI, EI, the accumulator rotates, DAA, CPL, SCF, CCF.
    #[verifier::opaque]
    pub open spec fn effect_misc(&self, new: &Cpu, i: Instruction) -> bool {
        let r = self.registers;
        let f = r.f;
        let taken = spec_taken(f, condition_of(i));
        match i {
            Instruction::Nop | Instruction::Stop => *new == *self,
            Instruction::Halt => *new == (Cpu { is_halted: true, ..*self }),
            Instruction::Di => *new == (Cpu { ime: false, ..*self }),
            Instruction::Ei => *new == (Cpu { ime_next: true, ..*self }),
            Instruction::Rlca => *new == (Cpu {
                registers: Registers { a: spec_rlc(r.a), f: shift_flags(spec_rlc(r.a), r.a >= 128, false), ..r },
                ..*self
            }),
            Instruction::Rrca => *new == (Cpu {
                registers: Registers { a: spec_rrc(r.a), f: shift_flags(spec_rrc(r.a), r.a % 2 == 1, false), ..r },
                ..*self
            }),
            Instruction::Rla => *new == (Cpu {
                registers: Registers { a: spec_rl(r.a, f.c), f: shift_flags(spec_rl(r.a, f.c), r.a >= 128, false), ..r },
                ..*self
            }),
            Instruction::Rra => *new == (Cpu {
                registers: Registers {
                    a: spec_rr(r.a, f.c),
                    f: shift_flags(spec_rr(r.a, f.c), r.a % 2 == 1, false),
                    ..r
                },
                ..*self
            }),
            Instruction::Daa => *new == (Cpu {
                registers: Registers {
                    a: spec_daa(r.a, f).0,
                    f: FlagsRegister { z: spec_daa(r.a, f).0 == 0, n: f.n, h: false, c: spec_daa(r.a, f).1 },
                    ..r
                },
                ..*self
            }),
            Instruction::Cpl => *new == (Cpu {
                registers: Registers { a: !r.a, f: FlagsRegister { n: true, h: true, ..f }, ..r },
                ..*self
            }),
            Instruction::Scf => *new == self.with_flags(FlagsRegister { n: false, h: false, c: true, ..f }),
            Instruction::Ccf => *new == self.with_flags(FlagsRegister { n: false, h: false, c: !f.c, ..f }),
            _ => false,
        }
    }

    /// Effect of an instruction of the group: The loads.
    #[verifier::opaque]
    pub open spec fn effect_load(&self, new: &Cpu, i: Instruction) -> bool {
        let r = self.registers;
        let f = r.f;
        let taken = spec_taken(f, condition_of(i));
        match i {
            Instruction::Ld(d, src) => self.write_r8_post(new, d, self.spec_r8(src)),
            Instruction::LdD8(d) => self.write_r8_post(new, d, self.imm8()),
            Instruction::LdD16(t) => *new == self.with_r16(t, self.imm16()),
            Instruction::LdIndirectFromA(t) => {
                let c1 = self.after_indirect(t);
                c1.mem.write_post(&new.mem, self.indirect_addr(t), r.a) && *new == (Cpu { mem: new.mem, ..c1 })
            },
            Instruction::LdAFromIndirect(t) => {
                let c1 = self.after_indirect(t);
                *new == (Cpu {
                    registers: Registers { a: self.mem.spec_read(self.indirect_addr(t)), ..c1.registers },
                    ..c1
                })
            },
            Instruction::LdWordFromA => self.mem.write_post(&new.mem, self.imm16(), r.a) && *new == (Cpu {
                mem: new.mem,
                ..*self
            }),
            Instruction::LdAFromWord => *new == (Cpu {
                registers: Registers { a: self.mem.spec_read(self.imm16()), ..r },
                ..*self
            }),
            Instruction::LdByteAddressFromA => self.mem.write_post(&new.mem, (0xFF00 + self.imm8()) as u16, r.a)
                && *new == (Cpu { mem: new.mem, ..*self }),
            Instruction::LdAFromByteAddress => *new == (Cpu {
                registers: Registers { a: self.mem.spec_read((0xFF00 + self.imm8()) as u16), ..r },
                ..*self
            }),
            Instruction::LdLastByteFromA => self.mem.write_post(&new.mem, (0xFF00 + r.c) as u16, r.a) && *new == (
            Cpu { mem: new.mem, ..*self }),
            Instruction::LdAFromLastByte => *new == (Cpu {
                registers: Registers { a: self.mem.spec_read((0xFF00 + r.c) as u16), ..r },
                ..*self
            }),
            Instruction::LdHlFromSp => *new == (Cpu {
                registers: Registers {
                    h: hi_byte(spec_sp_offset(self.sp, self.imm8()).0),
                    l: lo_byte(spec_sp_offset(self.sp, self.imm8()).0),
                    f: spec_sp_offset(self.sp, self.imm8()).1,
                    ..r
                },
                ..*self
            }),
            Instruction::LdSpFromHl => *new == (Cpu { sp: r.hl(), ..*self }),
            Instruction::LdIndirectFromSp => {
                &&& exists|m: Memory|
                    #[trigger] self.mem.write_post(&m, self.imm16(), lo_byte(self.sp)) && m.write_post(
                        &new.mem,
                        wrap16(self.imm16() + 1),
                        hi_byte(self.sp),
                    )
                &&& *new == (Cpu { mem: new.mem, ..*self })
            },
            _ => false,
        }
    }

    /// Effect of an instruction of the group: ALU, INC/DEC and 16-bit arithmetic.
    #[verifier::opaque]
    pub open spec fn effect_arith(&self, new: &Cpu, i: Instruction) -> bool {
        let r = self.registers;
        let f = r.f;
        let taken = spec_taken(f, condition_of(i));
        match i {
            Instruction::Alu(op, t) => {
                let (a, fl) = spec_alu_op(op, r.a, self.operand(t), f.c);
                *new == (Cpu { registers: Registers { a, f: fl, ..r }, ..*self })
            },
            Instruction::Inc(reg) => {
                let v = self.spec_r8(reg);
                let nv = ((v + 1) % 256) as u8;
                self.with_flags(FlagsRegister { z: nv == 0, n: false, h: v % 16 == 15, c: f.c }).write_r8_post(
                    new,
                    reg,
                    nv,
                )
            },
            Instruction::Dec(reg) => {
                let v = self.spec_r8(reg);
                let nv = ((v + 255) % 256) as u8;
                self.with_flags(FlagsRegister { z: nv == 0, n: true, h: v % 16 == 0, c: f.c }).write_r8_post(
                    new,
                    reg,
                    nv,
                )
            },
            Instruction::Inc16(t) => *new == self.with_r16(t, wrap16(self.spec_r16(t) + 1)),
            Instruction::Dec16(t) => *new == self.with_r16(t, wrap16(self.spec_r16(t) - 1)),
            Instruction::AddHl(t) => {
                let v = self.spec_r16(t);
                let hl = r.hl();
                *new == self.with_r16(R16::HL, wrap16(hl + v)).with_flags(
                    FlagsRegister { z: f.z, n: false, h: hl % 4096 + v % 4096 > 4095, c: hl + v > 65535 },
                )
            },
            Instruction::AddSp => *new == (Cpu {
                sp: spec_sp_offset(self.sp, self.imm8()).0,
                registers: Registers { f: spec_sp_offset(self.sp, self.imm8()).1, ..r },
                ..*self
            }),
            _ => false,
        }
    }

    /// Effect of an instruction of the group: Jumps, calls, returns, restarts, PUSH and POP.
    #[verifier::opaque]
    pub open spec fn effect_control(&self, new: &Cpu, i: Instruction) -> bool {
        let r = self.registers;
        let f = r.f;
        let taken = spec_taken(f, condition_of(i));
        match i {
            Instruction::Jp(_) | Instruction::JpHl | Instruction::Jr(_) => *new == *self,
            Instruction::Call(_) => if taken {
                self.push_post(new, wrap16(self.pc + 3))
            } else {
                *new == *self
            },
            Instruction::Ret(_) => if taken {
                *new == (Cpu { sp: wrap16(self.sp + 2), ..*self })
            } else {
                *new == *self
            },
            Instruction::Reti => *new == (Cpu { sp: wrap16(self.sp + 2), ime: true, ..*self }),
            Instruction::Rst(_) => self.push_post(new, wrap16(self.pc + 1)),
            Instruction::Push(t) => self.push_post(new, self.stack_value(t)),
            Instruction::Pop(t) => *new == (Cpu { sp: wrap16(self.sp + 2), ..*self }).with_stack_value(
                t,
                self.top_of_stack(),
            ),
            _ => false,
        }
    }

    /// Effect of an instruction of the group: The $CB page.
    #[verifier::opaque]
    pub open spec fn effect_prefixed(&self, new: &Cpu, i: Instruction) -> bool {
        let r = self.registers;
        let f = r.f;
        let taken = spec_taken(f, condition_of(i));
        match i {
            Instruction::Shift(op, reg) => {
                let (nv, carry) = spec_shift_op(op, self.spec_r8(reg), f.c);
                self.with_flags(shift_flags(nv, carry, true)).write_r8_post(new, reg, nv)
            },
            Instruction::Bit(b, reg) => *new == self.with_flags(
                FlagsRegister { z: (self.spec_r8(reg) >> (b % 8)) & 1 == 0, n: false, h: true, c: f.c },
            ),
            Instruction::ResBit(b, reg) => self.write_r8_post(new, reg, self.spec_r8(reg) & !(1u8 << (b % 8))),
            Instruction::SetBit(b, reg) => self.write_r8_post(new, reg, self.spec_r8(reg) | (1u8 << (b % 8))),
            _ => false,
        }
    }

    /// The instruction at PC (after a $CB prefix, the prefixed one); `None` for an undefined opcode.
    pub open spec fn current_instruction(&self) -> Option<Instruction> {
        let b = self.mem.spec_read(self.pc);
        if b == 0xCB {
            Some(spec_decode_prefixed(self.mem.spec_read(wrap16(self.pc + 1))))
        } else {
            spec_decode(b)
        }
    }

    /// Next PC and cycles of the instruction at PC; an undefined opcode is a one-byte, 4-cycle no-op.
    pub open spec fn run_outcome(&self) -> (u16, u8) {
        match self.current_instruction() {
            Some(i) => self.spec_outcome(i),
            None => (wrap16(self.pc + 1), 4),
        }
    }

    /// `new` is this state after the instruction at PC has run (PC not yet moved).
    pub open spec fn ran(&self, new: &Cpu) -> bool {
        match self.current_instruction() {
            Some(i) => self.effect(new, i) && new.pc == self.pc,
            None => *new == *self,
        }
    }

    /// The serial check at the start of a step: with $FF02 reading $81 the byte in $FF01 is
    /// handed out and $81 is replaced by 0 through a bus write of $FF02.
    pub open spec fn serial_post(&self, new: &Cpu, out: Option<u8>) -> bool {
        if self.mem.spec_read(0xFF02) == 0x81 {
            out == Some(self.mem.spec_read(0xFF01)) && self.mem.write_post(&new.mem, 0xFF02, 0) && *new == (Cpu {
                mem: new.mem,
                ..*self
            })
        } else {
            out.is_none() && *new == *self
        }
    }

    /// IME after the latch that EI set has been taken over.
    pub open spec fn latched(&self) -> Cpu {
        if self.ime_next {
            Cpu { ime: true, ime_next: false, ..*self }
        } else {
            *self
        }
    }

    /// IF with the bit of the interrupt about to be serviced cleared.
    pub open spec fn cleared(&self) -> Cpu {
        let e = self.mem.interrupt_enable;
        let f = self.mem.interrupt_flags;
        let nf = if e.vblank && f.vblank {
            InterruptFlags { vblank: false, ..f }
        } else if e.lcd_stat && f.lcd_stat {
            InterruptFlags { lcd_stat: false, ..f }
        } else if e.timer && f.timer {
            InterruptFlags { timer: false, ..f }
        } else if e.serial && f.serial {
            InterruptFlags { serial: false, ..f }
        } else if e.joypad && f.joypad {
            InterruptFlags { joypad: false, ..f }
        } else {
            f
        };
        Cpu { mem: Memory { interrupt_flags: nf, ..self.mem }, ..*self }
    }

    /// Interrupt dispatch to `location`: IME cleared, PC pushed, PC set to the vector, and the
    /// bus stepped 12 T-cycles.
    pub open spec fn interrupt_post(&self, new: &Cpu, location: u16) -> bool {
        exists|c1: Cpu|
            #[trigger] (Cpu { ime: false, ..*self }).push_post(&c1, self.pc) && c1.mem.step_post(&new.mem, 12) && *new
                == (Cpu { mem: new.mem, pc: location, ..c1 })
    }

    /// One step through its phases: `c1` after the serial check, then the IME latch, `c3` after
    /// the instruction ran, `c4` after the bus stepped by its cycles; then HALT wakes on a
    /// pending interrupt (or PC stays), PC moves on, and at most one interrupt is dispatched,
    /// which adds 12 cycles to the result.
    pub open spec fn step_chain(&self, c1: Cpu, c3: Cpu, c4: Cpu, new: &Cpu, r: (u8, Option<u8>)) -> bool {
        let c2 = c1.latched();
        let (next, cycles) = c2.run_outcome();
        let halted = c4.is_halted && !c4.mem.pending();
        let c5 = Cpu { is_halted: halted, pc: if halted { c4.pc } else { next }, ..c4 };
        let serviced = c5.ime && c5.pending_vector().is_some();
        &&& self.serial_post(&c1, r.1)
        &&& c2.ran(&c3)
        &&& c3.mem.step_post(&c4.mem, cycles)
        &&& c4 == (Cpu { mem: c4.mem, ..c3 })
        &&& serviced ==> c5.cleared().interrupt_post(new, c5.pending_vector().unwrap())
        &&& !serviced ==> *new == c5
        &&& r.0 == step_cycles(cycles, serviced)
    }

    pub fn new(mem: Memory) -> (r: Cpu)
        requires
            mem.wf(),
        ensures
            r.wf(),
            r.mem == mem,
            r.registers == Registers::new_spec(),
            r.sp == 0 && r.pc == 0,
            !r.ime && !r.is_halted && !r.ime_next,
    {
        Cpu { registers: Registers::new(), sp: 0, pc: 0, mem, ime: false, is_halted: false, ime_next: false }
    }

    /// The state the DMG boot ROM leaves: A=$01, F=Z N H C, BC=$0013, DE=$00D8, HL=$014D,
    /// SP=$FFFE, PC=$0100.
    pub fn boot(&mut self)
        ensures
            *final(self) == (Cpu {
                registers: Registers {
                    a: 0x01,
                    f: FlagsRegister { z: true, n: true, h: true, c: true },
                    b: 0x00,
                    c: 0x13,
                    d: 0x00,
                    e: 0xD8,
                    h: 0x01,
                    l: 0x4D,
                },
                sp: 0xFFFE,
                pc: 0x0100,
                ..*old(self)
            }),
    {
        self.registers.a = 0x01;
        self.registers.f = FlagsRegister { z: true, n: true, h: true, c: true };
        self.registers.set_bc(0x0013);
        self.registers.set_de(0x00D8);
        self.registers.set_hl(0x014D);
        self.sp = 0xFFFE;
        self.pc = 0x0100;
    }

    /// The state the CGB boot ROM leaves: A=$11, F=Z, BC=$0100, DE=$FF56, HL=$000D,
    /// SP=$FFFE, PC=$0100.
    pub fn boot_cgb(&mut self)
        ensures
            *final(self) == (Cpu {
                registers: Registers {
                    a: 0x11,
                    f: FlagsRegister { z: true, n: false, h: false, c: false },
                    b: 0x01,
                    c: 0x00,
                    d: 0xFF,
                    e: 0x56,
                    h: 0x00,
                    l: 0x0D,
                },
                sp: 0xFFFE,
                pc: 0x0100,
                ..*old(self)
            }),
    {
        self.registers.a = 0x11;
        self.registers.f = FlagsRegister { z: true, n: false, h: false, c: false };
        self.registers.set_bc(0x0100);
        self.registers.set_de(0xFF56);
        self.registers.set_hl(0x000D);
        self.sp = 0xFFFE;
        self.pc = 0x0100;
    }

    pub fn read_next_byte(&self) -> (r: u8)
        requires
            self.wf(),
        ensures
            r == self.imm8(),
    {
        self.mem.read_byte(self.pc.wrapping_add(1))
    }

    pub fn read_next_word(&self) -> (r: u16)
        requires
            self.wf(),
        ensures
            r == self.imm16(),
    {
        let lo = self.mem.read_byte(self.pc.wrapping_add(1));
        let hi = self.mem.read_byte(self.pc.wrapping_add(2));
        (hi as u16) * 256 + lo as u16
    }

    fn read_r8(&self, r: R8) -> (v: u8)
        requires
            self.wf(),
        ensures
            v == self.spec_r8(r),
    {
        match r {
            R8::B => self.registers.b,
            R8::C => self.registers.c,
            R8::D => self.registers.d,
            R8::E => self.registers.e,
            R8::H => self.registers.h,
            R8::L => self.registers.l,
            R8::HLI => self.mem.read_byte(self.registers.get_hl()),
            R8::A => self.registers.a,
        }
    }

    /// Stores `v` in a register, or through HL into memory.
    fn write_r8(&mut self, r: R8, v: u8)
        requires
            old(self).wf(),
        ensures
            final(self).wf(),
            old(self).write_r8_post(final(self), r, v),
    {
        match r {
            R8::B => self.registers.b = v,
            R8::C => self.registers.c = v,
            R8::D => self.registers.d = v,
            R8::E => self.registers.e = v,
            R8::H => self.registers.h = v,
            R8::L => self.registers.l = v,
            R8::HLI => {
                let hl = self.registers.get_hl();
                self.mem.write_byte(hl, v);
            },
            R8::A => self.registers.a = v,
        }
    }

    fn read_r16(&self, r: R16) -> (v: u16)
        ensures
            v == self.spec_r16(r),
    {
        match r {
            R16::BC => self.registers.get_bc(),
            R16::DE => self.registers.get_de(),
            R16::HL => self.registers.get_hl(),
            R16::SP => self.sp,
        }
    }

    fn write_r16(&mut self, r: R16, v: u16)
        ensures
            *final(self) == old(self).with_r16(r, v),
    {
        proof {
            crate::registers::lemma_pair_split(v);
        }
        match r {
            R16::BC => self.registers.set_bc(v),
            R16::DE => self.registers.set_de(v),
            R16::HL => self.registers.set_hl(v),
            R16::SP => self.sp = v,
        }
    }

    /// Pushes `value`: high byte at SP-1, low byte at SP-2; SP ends two lower.
    pub fn push(&mut self, value: u16)
        requires
            old(self).wf(),
        ensures
            final(self).wf(),
            old(self).push_post(final(self), value),
    {
        self.sp = self.sp.wrapping_sub(1);
        let ghost m0 = self.mem;
        self.mem.write_byte(self.sp, (value / 256) as u8);
        let ghost m1 = self.mem;
        self.sp = self.sp.wrapping_sub(1);
        self.mem.write_byte(self.sp, (value % 256) as u8);
        assert(old(self).mem.write_post(&m1, wrap16(old(self).sp - 1), hi_byte(value)) && m1.write_post(
            &self.mem,
            wrap16(old(self).sp - 2),
            lo_byte(value),
        ));
    }

    /// Pops the word at SP (low byte first); SP ends two higher. Memory is not changed.
    pub fn pop(&mut self) -> (r: u16)
        requires
            old(self).wf(),
        ensures
            r == old(self).top_of_stack(),
            *final(self) == (Cpu { sp: wrap16(old(self).sp + 2), ..*old(self) }),
    {
        let lsb = self.mem.read_byte(self.sp) as u16;
        self.sp = self.sp.wrapping_add(1);
        let msb = self.mem.read_byte(self.sp) as u16;
        self.sp = self.sp.wrapping_add(1);
        msb * 256 + lsb
    }
    /// The PC after `i`, from the state before it: the fall-through address, or the target of
    /// a taken branch.
    pub open spec fn spec_next_pc(&self, i: Instruction) -> u16 {
        let taken = spec_taken(self.registers.f, condition_of(i));
        match i {
            Instruction::Jp(_) | Instruction::Call(_) => if taken {
                self.imm16()
            } else {
                wrap16(self.pc + 3)
            },
            Instruction::JpHl => self.registers.hl(),
            Instruction::Jr(_) => if taken {
                wrap16(self.pc + 2 + signed(self.imm8()))
            } else {
                wrap16(self.pc + 2)
            },
            Instruction::Ret(_) => if taken {
                self.top_of_stack()
            } else {
                wrap16(self.pc + 1)
            },
            Instruction::Reti => self.top_of_stack(),
            Instruction::Rst(t) => t as u16,
            _ => wrap16(self.pc + i.width()),
        }
    }

    /// The next PC and the T-cycles of `i`, executed in this state.
    pub open spec fn spec_outcome(&self, i: Instruction) -> (u16, u8) {
        (self.spec_next_pc(i), i.cycles(spec_taken(self.registers.f, condition_of(i))))
    }

    pub open spec fn operand(&self, t: ArithmeticTarget) -> u8 {
        match t {
            ArithmeticTarget::Reg(r) => self.spec_r8(r),
            ArithmeticTarget::D8 => self.imm8(),
        }
    }

    pub fn add(&mut self, value: u8)
        ensures
            *final(self) == (Cpu {
                registers: Registers {
                    a: spec_add(old(self).registers.a, value).0,
                    f: spec_add(old(self).registers.a, value).1,
                    ..old(self).registers
                },
                ..*old(self)
            }),
    {
        let a = self.registers.a;
        let sum: u16 = a as u16 + value as u16;
        let r = (sum % 256) as u8;
        self.registers.f = FlagsRegister { z: r == 0, n: false, h: a % 16 + value % 16 > 15, c: sum > 255 };
        self.registers.a = r;
    }

    pub fn adc(&mut self, value: u8)
        ensures
            *final(self) == (Cpu {
                registers: Registers {
                    a: spec_adc(old(self).registers.a, value, old(self).registers.f.c).0,
                    f: spec_adc(old(self).registers.a, value, old(self).registers.f.c).1,
                    ..old(self).registers
                },
                ..*old(self)
            }),
    {
        let a = self.registers.a;
        let carry: u8 = if self.registers.f.c { 1 } else { 0 };
        let sum: u16 = a as u16 + value as u16 + carry as u16;
        let r = (sum % 256) as u8;
        self.registers.f = FlagsRegister { z: r == 0, n: false, h: a % 16 + value % 16 + carry > 15, c: sum > 255 };
        self.registers.a = r;
    }

    pub fn sub(&mut self, value: u8)
        ensures
            *final(self) == (Cpu {
                registers: Registers {
                    a: spec_sub(old(self).registers.a, value).0,
                    f: spec_sub(old(self).registers.a, value).1,
                    ..old(self).registers
                },
                ..*old(self)
            }),
    {
        let a = self.registers.a;
        let r = ((a as u16 + 256 - value as u16) % 256) as u8;
        self.registers.f = FlagsRegister { z: r == 0, n: true, h: a % 16 < value % 16, c: value > a };
        self.registers.a = r;
    }

    pub fn sbc(&mut self, value: u8)
        ensures
            *final(self) == (Cpu {
                registers: Registers {
                    a: spec_sbc(old(self).registers.a, value, old(self).registers.f.c).0,
                    f: spec_sbc(old(self).registers.a, value, old(self).registers.f.c).1,
                    ..old(self).registers
                },
                ..*old(self)
            }),
    {
        let a = self.registers.a;
        let carry: u8 = if self.registers.f.c { 1 } else { 0 };
        let r = ((a as u16 + 512 - value as u16 - carry as u16) % 256) as u8;
        self.registers.f = FlagsRegister {
            z: r == 0,
            n: true,
            h: (a % 16) < (value % 16) + carry,
            c: (a as u16) < value as u16 + carry as u16,
        };
        self.registers.a = r;
    }

    /// CP: the flags of SUB, with A kept.
    pub fn cp(&mut self, value: u8)
        ensures
            *final(self) == (Cpu {
                registers: Registers { f: spec_sub(old(self).registers.a, value).1, ..old(self).registers },
                ..*old(self)
            }),
    {
        let a = self.registers.a;
        let r = ((a as u16 + 256 - value as u16) % 256) as u8;
        self.registers.f = FlagsRegister { z: r == 0, n: true, h: a % 16 < value % 16, c: value > a };
    }

    pub fn and(&mut self, value: u8)
        ensures
            *final(self) == (Cpu {
                registers: Registers {
                    a: (old(self).registers.a & value) as u8,
                    f: logic_flags((old(self).registers.a & value) as u8, true),
                    ..old(self).registers
                },
                ..*old(self)
            }),
    {
        self.registers.a = self.registers.a & value;
        self.registers.f = FlagsRegister { z: self.registers.a == 0, n: false, h: true, c: false };
    }

    pub fn or(&mut self, value: u8)
        ensures
            *final(self) == (Cpu {
                registers: Registers {
                    a: (old(self).registers.a | value) as u8,
                    f: logic_flags((old(self).registers.a | value) as u8, false),
                    ..old(self).registers
                },
                ..*old(self)
            }),
    {
        self.registers.a = self.registers.a | value;
        self.registers.f = FlagsRegister { z: self.registers.a == 0, n: false, h: false, c: false };
    }

    pub fn xor(&mut self, value: u8)
        ensures
            *final(self) == (Cpu {
                registers: Registers {
                    a: (old(self).registers.a ^ value) as u8,
                    f: logic_flags((old(self).registers.a ^ value) as u8, false),
                    ..old(self).registers
                },
                ..*old(self)
            }),
    {
        self.registers.a = self.registers.a ^ value;
        self.registers.f = FlagsRegister { z: self.registers.a == 0, n: false, h: false, c: false };
    }

    /// INC r: C is kept.
    pub fn inc(&mut self, value: u8) -> (r: u8)
        ensures
            r == (value + 1) % 256,
            *final(self) == (Cpu {
                registers: Registers {
                    f: FlagsRegister { z: r == 0, n: false, h: value % 16 == 15, c: old(self).registers.f.c },
                    ..old(self).registers
                },
                ..*old(self)
            }),
    {
        let r = value.wrapping_add(1);
        self.registers.f = FlagsRegister { z: r == 0, n: false, h: value % 16 == 15, c: self.registers.f.c };
        r
    }

    /// DEC r: C is kept.
    pub fn dec(&mut self, value: u8) -> (r: u8)
        ensures
            r == (value + 255) % 256,
            *final(self) == (Cpu {
                registers: Registers {
                    f: FlagsRegister { z: r == 0, n: true, h: value % 16 == 0, c: old(self).registers.f.c },
                    ..old(self).registers
                },
                ..*old(self)
            }),
    {
        let r = value.wrapping_sub(1);
        self.registers.f = FlagsRegister { z: r == 0, n: true, h: value % 16 == 0, c: self.registers.f.c };
        r
    }

    pub fn inc_16bit(&self, value: u16) -> (r: u16)
        ensures
            r == wrap16(value + 1),
    {
        value.wrapping_add(1)
    }

    pub fn dec_16bit(&self, value: u16) -> (r: u16)
        ensures
            r == wrap16(value - 1),
    {
        value.wrapping_sub(1)
    }

    /// ADD HL,rr: Z is kept; H from bit 11, C from bit 15.
    pub fn add_hl(&mut self, value: u16)
        ensures
            *final(self) == old(self).with_r16(R16::HL, wrap16(old(self).registers.hl() + value)).with_flags(
                FlagsRegister {
                    z: old(self).registers.f.z,
                    n: false,
                    h: old(self).registers.hl() % 4096 + value % 4096 > 4095,
                    c: old(self).registers.hl() + value > 65535,
                },
            ),
    {
        let hl = self.registers.get_hl();
        let sum: u32 = hl as u32 + value as u32;
        self.registers.f = FlagsRegister {
            z: self.registers.f.z,
            n: false,
            h: hl % 4096 + value % 4096 > 4095,
            c: sum > 65535,
        };
        self.registers.set_hl((sum % 65536) as u16);
    }

    /// SP plus the signed immediate, with the flags that ADD SP,e and LD HL,SP+e set.
    fn sp_plus_offset(&self, imm: u8) -> (r: (u16, FlagsRegister))
        ensures
            r == spec_sp_offset(self.sp, imm),
    {
        let sp = self.sp;
        let result = if imm >= 128 {
            sp.wrapping_sub(256 - imm as u16)
        } else {
            sp.wrapping_add(imm as u16)
        };
        (result, FlagsRegister { z: false, n: false, h: sp % 16 + imm as u16 % 16 > 15, c: sp % 256 + imm as u16 > 255 })
    }

    pub fn test_bit(&mut self, value: u8, bit_position: u8)
        requires
            bit_position < 8,
        ensures
            *final(self) == (Cpu {
                registers: Registers {
                    f: FlagsRegister {
                        z: (value >> bit_position) & 1 == 0,
                        n: false,
                        h: true,
                        c: old(self).registers.f.c,
                    },
                    ..old(self).registers
                },
                ..*old(self)
            }),
    {
        let result = (value >> bit_position) & 1;
        self.registers.f = FlagsRegister { z: result == 0, n: false, h: true, c: self.registers.f.c };
    }

    pub fn reset_bit(&self, value: u8, bit_position: u8) -> (r: u8)
        requires
            bit_position < 8,
        ensures
            r == value & !(1u8 << bit_position),
    {
        value & !(1u8 << bit_position)
    }

    pub fn set_bit(&self, value: u8, bit_position: u8) -> (r: u8)
        requires
            bit_position < 8,
        ensures
            r == value | (1u8 << bit_position),
    {
        value | (1u8 << bit_position)
    }

    pub fn swap(&mut self, value: u8) -> (r: u8)
        ensures
            r == spec_swap(value),
            *final(self) == (Cpu {
                registers: Registers { f: logic_flags(r, false), ..old(self).registers },
                ..*old(self)
            }),
    {
        let r = (value % 16) * 16 + value / 16;
        self.registers.f = FlagsRegister { z: r == 0, n: false, h: false, c: false };
        r
    }

    pub fn rotate_left(&mut self, value: u8, set_zero: bool) -> (r: u8)
        ensures
            r == spec_rlc(value),
            *final(self) == (Cpu {
                registers: Registers { f: shift_flags(r, value >= 128, set_zero), ..old(self).registers },
                ..*old(self)
            }),
    {
        let r = ((value as u16 * 2) % 256 + value as u16 / 128) as u8;
        self.registers.f = FlagsRegister { z: set_zero && r == 0, n: false, h: false, c: value >= 128 };
        r
    }

    pub fn rotate_left_through_carry(&mut self, value: u8, set_zero: bool) -> (r: u8)
        ensures
            r == spec_rl(value, old(self).registers.f.c),
            *final(self) == (Cpu {
                registers: Registers { f: shift_flags(r, value >= 128, set_zero), ..old(self).registers },
                ..*old(self)
            }),
    {
        let carry: u16 = if self.registers.f.c { 1 } else { 0 };
        let r = ((value as u16 * 2) % 256 + carry) as u8;
        self.registers.f = FlagsRegister { z: set_zero && r == 0, n: false, h: false, c: value >= 128 };
        r
    }

    pub fn rotate_right(&mut self, value: u8, set_zero: bool) -> (r: u8)
        ensures
            r == spec_rrc(value),
            *final(self) == (Cpu {
                registers: Registers { f: shift_flags(r, value % 2 == 1, set_zero), ..old(self).registers },
                ..*old(self)
            }),
    {
        let r = (value as u16 / 2 + (value as u16 % 2) * 128) as u8;
        self.registers.f = FlagsRegister { z: set_zero && r == 0, n: false, h: false, c: value % 2 == 1 };
        r
    }

    pub fn rotate_right_through_carry(&mut self, value: u8, set_zero: bool) -> (r: u8)
        ensures
            r == spec_rr(value, old(self).registers.f.c),
            *final(self) == (Cpu {
                registers: Registers { f: shift_flags(r, value % 2 == 1, set_zero), ..old(self).registers },
                ..*old(self)
            }),
    {
        let carry: u16 = if self.registers.f.c { 1 } else { 0 };
        let r = (value as u16 / 2 + carry * 128) as u8;
        self.registers.f = FlagsRegister { z: set_zero && r == 0, n: false, h: false, c: value % 2 == 1 };
        r
    }

    pub fn rotate_left_set_zero(&mut self, value: u8) -> (r: u8)
        ensures
            r == spec_rlc(value),
            *final(self) == (Cpu {
                registers: Registers { f: shift_flags(r, value >= 128, true), ..old(self).registers },
                ..*old(self)
            }),
    {
        self.rotate_left(value, true)
    }

    pub fn rotate_left_retain_zero(&mut self, value: u8) -> (r: u8)
        ensures
            r == spec_rlc(value),
            *final(self) == (Cpu {
                registers: Registers { f: shift_flags(r, value >= 128, false), ..old(self).registers },
                ..*old(self)
            }),
    {
        self.rotate_left(value, false)
    }

    pub fn rotate_left_through_carry_set_zero(&mut self, value: u8) -> (r: u8)
        ensures
            r == spec_rl(value, old(self).registers.f.c),
            *final(self) == (Cpu {
                registers: Registers { f: shift_flags(r, value >= 128, true), ..old(self).registers },
                ..*old(self)
            }),
    {
        self.rotate_left_through_carry(value, true)
    }

    pub fn rotate_left_through_carry_retain_zero(&mut self, value: u8) -> (r: u8)
        ensures
            r == spec_rl(value, old(self).registers.f.c),
            *final(self) == (Cpu {
                registers: Registers { f: shift_flags(r, value >= 128, false), ..old(self).registers },
                ..*old(self)
            }),
    {
        self.rotate_left_through_carry(value, false)
    }

    pub fn rotate_right_set_zero(&mut self, value: u8) -> (r: u8)
        ensures
            r == spec_rrc(value),
            *final(self) == (Cpu {
                registers: Registers { f: shift_flags(r, value % 2 == 1, true), ..old(self).registers },
                ..*old(self)
            }),
    {
        self.rotate_right(value, true)
    }

    pub fn rotate_right_retain_zero(&mut self, value: u8) -> (r: u8)
        ensures
            r == spec_rrc(value),
            *final(self) == (Cpu {
                registers: Registers { f: shift_flags(r, value % 2 == 1, false), ..old(self).registers },
                ..*old(self)
            }),
    {
        self.rotate_right(value, false)
    }

    pub fn rotate_right_through_carry_set_zero(&mut self, value: u8) -> (r: u8)
        ensures
            r == spec_rr(value, old(self).registers.f.c),
            *final(self) == (Cpu {
                registers: Registers { f: shift_flags(r, value % 2 == 1, true), ..old(self).registers },
                ..*old(self)
            }),
    {
        self.rotate_right_through_carry(value, true)
    }

    pub fn rotate_right_through_carry_retain_zero(&mut self, value: u8) -> (r: u8)
        ensures
            r == spec_rr(value, old(self).registers.f.c),
            *final(self) == (Cpu {
                registers: Registers { f: shift_flags(r, value % 2 == 1, false), ..old(self).registers },
                ..*old(self)
            }),
    {
        self.rotate_right_through_carry(value, false)
    }

    pub fn sla(&mut self, value: u8) -> (r: u8)
        ensures
            r == (value * 2) % 256,
            *final(self) == (Cpu {
                registers: Registers { f: shift_flags(r, value >= 128, true), ..old(self).registers },
                ..*old(self)
            }),
    {
        let r = ((value as u16 * 2) % 256) as u8;
        self.registers.f = FlagsRegister { z: r == 0, n: false, h: false, c: value >= 128 };
        r
    }

    /// SRA: shifts right keeping bit 7.
    pub fn sra(&mut self, value: u8) -> (r: u8)
        ensures
            r == spec_sra(value),
            *final(self) == (Cpu {
                registers: Registers { f: shift_flags(r, value % 2 == 1, true), ..old(self).registers },
                ..*old(self)
            }),
    {
        let msb: u8 = if value >= 128 { 128 } else { 0 };
        let r = value / 2 + msb;
        self.registers.f = FlagsRegister { z: r == 0, n: false, h: false, c: value % 2 == 1 };
        r
    }

    pub fn srl(&mut self, value: u8) -> (r: u8)
        ensures
            r == value / 2,
            *final(self) == (Cpu {
                registers: Registers { f: shift_flags(r, value % 2 == 1, true), ..old(self).registers },
                ..*old(self)
            }),
    {
        let r = value / 2;
        self.registers.f = FlagsRegister { z: r == 0, n: false, h: false, c: value % 2 == 1 };
        r
    }

    fn condition(&self, c: JumpCondition) -> (r: bool)
        ensures
            r == spec_taken(self.registers.f, c),
    {
        match c {
            JumpCondition::NotZero => !self.registers.f.z,
            JumpCondition::Zero => self.registers.f.z,
            JumpCondition::NotCarry => !self.registers.f.c,
            JumpCondition::Carry => self.registers.f.c,
            JumpCondition::Always => true,
        }
    }

    /// JP nn: (target, 16) when taken, else (PC+3, 12).
    pub fn jump(&self, condition: bool) -> (r: (u16, u8))
        requires
            self.wf(),
        ensures
            r == if condition { (self.imm16(), 16u8) } else { (wrap16(self.pc + 3), 12u8) },
    {
        if condition {
            (self.read_next_word(), 16)
        } else {
            (self.pc.wrapping_add(3), 12)
        }
    }

    /// JR e: (PC+2+e, 12) when taken, else (PC+2, 8).
    pub fn jump_relative(&self, condition: bool) -> (r: (u16, u8))
        requires
            self.wf(),
        ensures
            r == if condition {
                (wrap16(self.pc + 2 + signed(self.imm8())), 12u8)
            } else {
                (wrap16(self.pc + 2), 8u8)
            },
    {
        let next = self.pc.wrapping_add(2);
        if condition {
            let offset = self.read_next_byte();
            let pc = if offset >= 128 {
                next.wrapping_sub(256 - offset as u16)
            } else {
                next.wrapping_add(offset as u16)
            };
            (pc, 12)
        } else {
            (next, 8)
        }
    }

    /// CALL nn: when taken, pushes PC+3 and returns (target, 24); else (PC+3, 12).
    pub fn call(&mut self, condition: bool) -> (r: (u16, u8))
        requires
            old(self).wf(),
        ensures
            final(self).wf(),
            r == if condition { (old(self).imm16(), 24u8) } else { (wrap16(old(self).pc + 3), 12u8) },
            condition ==> old(self).push_post(final(self), wrap16(old(self).pc + 3)),
            !condition ==> *final(self) == *old(self),
    {
        let next_pc = self.pc.wrapping_add(3);
        if condition {
            let target = self.read_next_word();
            self.push(next_pc);
            (target, 24)
        } else {
            (next_pc, 12)
        }
    }

    /// RET: the popped address when taken, else PC+1.
    pub fn ret(&mut self, condition: bool) -> (r: u16)
        requires
            old(self).wf(),
        ensures
            r == if condition { old(self).top_of_stack() } else { wrap16(old(self).pc + 1) },
            condition ==> *final(self) == (Cpu { sp: wrap16(old(self).sp + 2), ..*old(self) }),
            !condition ==> *final(self) == *old(self),
    {
        if condition {
            self.pop()
        } else {
            self.pc.wrapping_add(1)
        }
    }

    /// RST: pushes the address of the next instruction.
    pub fn rst(&mut self)
        requires
            old(self).wf(),
        ensures
            final(self).wf(),
            old(self).push_post(final(self), wrap16(old(self).pc + 1)),
    {
        let next = self.pc.wrapping_add(1);
        self.push(next);
    }
    /// NOP, STOP, HALT, DI, EI, the accumulator rotates, DAA, CPL, SCF and CCF.
    #[verifier::rlimit(100)]
    fn execute_misc(&mut self, instruction: Instruction) -> (r: (u16, u8))
        requires
            old(self).wf(),
            !is_control(instruction) && !is_arith(instruction) && !is_prefixed(instruction) && !is_load(instruction),
        ensures
            final(self).wf(),
            old(self).effect(final(self), instruction),
            r == old(self).spec_outcome(instruction),
            final(self).pc == old(self).pc,
    {
        proof {
            reveal(Cpu::effect_misc);
        }
        match instruction {
            Instruction::Halt => {
                self.is_halted = true;
            },
            Instruction::Di => {
                self.ime = false;
            },
            Instruction::Ei => {
                self.ime_next = true;
            },
            Instruction::Rlca => {
                let a = self.registers.a;
                self.registers.a = self.rotate_left_retain_zero(a);
            },
            Instruction::Rrca => {
                let a = self.registers.a;
                self.registers.a = self.rotate_right_retain_zero(a);
            },
            Instruction::Rla => {
                let a = self.registers.a;
                self.registers.a = self.rotate_left_through_carry_retain_zero(a);
            },
            Instruction::Rra => {
                let a = self.registers.a;
                self.registers.a = self.rotate_right_through_carry_retain_zero(a);
            },
            Instruction::Daa => self.daa(),
            Instruction::Cpl => {
                self.registers.a = !self.registers.a;
                self.registers.f.n = true;
                self.registers.f.h = true;
            },
            Instruction::Scf => {
                self.registers.f.n = false;
                self.registers.f.h = false;
                self.registers.f.c = true;
            },
            Instruction::Ccf => {
                self.registers.f.n = false;
                self.registers.f.h = false;
                self.registers.f.c = !self.registers.f.c;
            },
            _ => {},
        }
        (self.pc.wrapping_add(1), 4)
    }

    /// DAA: adjusts A to packed BCD after an addition (N clear) or a subtraction (N set).
    #[verifier::rlimit(100)]
    pub fn daa(&mut self)
        ensures
            *final(self) == (Cpu {
                registers: Registers {
                    a: spec_daa(old(self).registers.a, old(self).registers.f).0,
                    f: FlagsRegister {
                        z: spec_daa(old(self).registers.a, old(self).registers.f).0 == 0,
                        n: old(self).registers.f.n,
                        h: false,
                        c: spec_daa(old(self).registers.a, old(self).registers.f).1,
                    },
                    ..old(self).registers
                },
                ..*old(self)
            }),
    {
        let flags = self.registers.f;
        let mut carry = false;
        if !flags.n {
            if flags.c || self.registers.a > 0x99 {
                self.registers.a = self.registers.a.wrapping_add(0x60);
                carry = true;
            }
            if flags.h || (self.registers.a % 16) > 0x09 {
                self.registers.a = self.registers.a.wrapping_add(0x06);
            }
        } else if flags.c {
            carry = true;
            let add: u8 = if flags.h { 0x9A } else { 0xA0 };
            self.registers.a = self.registers.a.wrapping_add(add);
        } else if flags.h {
            self.registers.a = self.registers.a.wrapping_add(0xFA);
        }
        self.registers.f.z = self.registers.a == 0;
        self.registers.f.h = false;
        self.registers.f.c = carry;
    }

    #[verifier::rlimit(100)]
    fn indirect_address(&mut self, target: IndirectTarget) -> (r: u16)
        ensures
            r == old(self).indirect_addr(target),
            *final(self) == old(self).after_indirect(target),
    {
        match target {
            IndirectTarget::BC => self.registers.get_bc(),
            IndirectTarget::DE => self.registers.get_de(),
            IndirectTarget::Hli => {
                let hl = self.registers.get_hl();
                self.registers.set_hl(hl.wrapping_add(1));
                hl
            },
            IndirectTarget::Hld => {
                let hl = self.registers.get_hl();
                self.registers.set_hl(hl.wrapping_sub(1));
                hl
            },
        }
    }

    /// The load group.
    fn execute_load(&mut self, instruction: Instruction) -> (r: (u16, u8))
        requires
            old(self).wf(),
            is_load(instruction),
        ensures
            final(self).wf(),
            old(self).effect(final(self), instruction),
            r == old(self).spec_outcome(instruction),
            final(self).pc == old(self).pc,
    {
        if matches!(instruction, Instruction::Ld(_, _) | Instruction::LdD8(_) | Instruction::LdD16(_) | Instruction::LdHlFromSp | Instruction::LdSpFromHl | Instruction::LdIndirectFromA(_) | Instruction::LdAFromIndirect(_)) {
            self.execute_load_a(instruction)
        } else {
            self.execute_load_b(instruction)
        }
    }

    /// Register loads and loads through BC, DE and HL.
    fn execute_load_a(&mut self, instruction: Instruction) -> (r: (u16, u8))
        requires
            old(self).wf(),
            is_load(instruction),
            instruction is Ld || instruction is LdD8 || instruction is LdD16 || instruction is LdHlFromSp || instruction is LdSpFromHl || instruction is LdIndirectFromA || instruction is LdAFromIndirect,
        ensures
            final(self).wf(),
            old(self).effect(final(self), instruction),
            r == old(self).spec_outcome(instruction),
            final(self).pc == old(self).pc,
    {
        if matches!(instruction, Instruction::Ld(_, _) | Instruction::LdD8(_) | Instruction::LdD16(_)) {
            self.execute_load_a_0(instruction)
        } else if matches!(instruction, Instruction::LdHlFromSp | Instruction::LdSpFromHl) {
            self.execute_load_a_1(instruction)
        } else {
            self.execute_load_a_2(instruction)
        }
    }

    /// Register loads and immediate loads.
    fn execute_load_a_0(&mut self, instruction: Instruction) -> (r: (u16, u8))
        requires
            old(self).wf(),
            is_load(instruction),
            matches!(instruction, Instruction::Ld(_, _) | Instruction::LdD8(_) | Instruction::LdD16(_)),
            instruction is Ld || instruction is LdD8 || instruction is LdD16 || instruction is LdHlFromSp || instruction is LdSpFromHl || instruction is LdIndirectFromA || instruction is LdAFromIndirect,
        ensures
            final(self).wf(),
            old(self).effect(final(self), instruction),
            r == old(self).spec_outcome(instruction),
            final(self).pc == old(self).pc,
    {
        match instruction {
            Instruction::Ld(_, _) => self.load_register(instruction),
            Instruction::LdD8(_) => self.load_immediate(instruction),
            _ => self.load_word(instruction),
        }
    }

    /// LD r,r'.
    #[verifier::rlimit(100)]
    fn load_register(&mut self, instruction: Instruction) -> (r: (u16, u8))
        requires
            old(self).wf(),
            is_load(instruction),
            matches!(instruction, Instruction::Ld(_, _)),
            instruction is Ld || instruction is LdD8 || instruction is LdD16 || instruction is LdHlFromSp || instruction is LdSpFromHl || instruction is LdIndirectFromA || instruction is LdAFromIndirect,
        ensures
            final(self).wf(),
            old(self).effect(final(self), instruction),
            r == old(self).spec_outcome(instruction),
            final(self).pc == old(self).pc,
    {
        proof {
            reveal(Cpu::effect_load);
        }
        let pc = self.pc;
        match instruction {
            Instruction::Ld(target, source) => {
                let v = self.read_r8(source);
                self.write_r8(target, v);
                let cycles: u8 = if target == R8::HLI || source == R8::HLI { 8 } else { 4 };
                (pc.wrapping_add(1), cycles)
            },
            _ => (pc, 0),
        }
    }

    /// LD r,d8.
    #[verifier::rlimit(100)]
    fn load_immediate(&mut self, instruction: Instruction) -> (r: (u16, u8))
        requires
            old(self).wf(),
            is_load(instruction),
            matches!(instruction, Instruction::LdD8(_)),
            instruction is Ld || instruction is LdD8 || instruction is LdD16 || instruction is LdHlFromSp || instruction is LdSpFromHl || instruction is LdIndirectFromA || instruction is LdAFromIndirect,
        ensures
            final(self).wf(),
            old(self).effect(final(self), instruction),
            r == old(self).spec_outcome(instruction),
            final(self).pc == old(self).pc,
    {
        proof {
            reveal(Cpu::effect_load);
        }
        let pc = self.pc;
        match instruction {
            Instruction::LdD8(target) => {
                let v = self.read_next_byte();
                self.write_r8(target, v);
                let cycles: u8 = if target == R8::HLI { 12 } else { 8 };
                (pc.wrapping_add(2), cycles)
            },
            _ => (pc, 0),
        }
    }

    /// LD rr,d16.
    #[verifier::rlimit(100)]
    fn load_word(&mut self, instruction: Instruction) -> (r: (u16, u8))
        requires
            old(self).wf(),
            is_load(instruction),
            matches!(instruction, Instruction::LdD16(_)),
            instruction is Ld || instruction is LdD8 || instruction is LdD16 || instruction is LdHlFromSp || instruction is LdSpFromHl || instruction is LdIndirectFromA || instruction is LdAFromIndirect,
        ensures
            final(self).wf(),
            old(self).effect(final(self), instruction),
            r == old(self).spec_outcome(instruction),
            final(self).pc == old(self).pc,
    {
        proof {
            reveal(Cpu::effect_load);
        }
        let pc = self.pc;
        match instruction {
            Instruction::LdD16(target) => {
                let word = self.read_next_word();
                self.write_r16(target, word);
                (pc.wrapping_add(3), 12)
            },
            _ => (pc, 0),
        }
    }

    /// LD HL,SP+e and LD SP,HL.
    #[verifier::rlimit(100)]
    fn execute_load_a_1(&mut self, instruction: Instruction) -> (r: (u16, u8))
        requires
            old(self).wf(),
            is_load(instruction),
            matches!(instruction, Instruction::LdHlFromSp | Instruction::LdSpFromHl),
            instruction is Ld || instruction is LdD8 || instruction is LdD16 || instruction is LdHlFromSp || instruction is LdSpFromHl || instruction is LdIndirectFromA || instruction is LdAFromIndirect,
        ensures
            final(self).wf(),
            old(self).effect(final(self), instruction),
            r == old(self).spec_outcome(instruction),
            final(self).pc == old(self).pc,
    {
        proof {
            reveal(Cpu::effect_load);
        }
        let pc = self.pc;
        match instruction {
            Instruction::Ld(target, source) => {
                let v = self.read_r8(source);
                self.write_r8(target, v);
                let cycles: u8 = if target == R8::HLI || source == R8::HLI { 8 } else { 4 };
                (pc.wrapping_add(1), cycles)
            },
            Instruction::LdD8(target) => {
                let v = self.read_next_byte();
                self.write_r8(target, v);
                let cycles: u8 = if target == R8::HLI { 12 } else { 8 };
                (pc.wrapping_add(2), cycles)
            },
            Instruction::LdD16(target) => {
                let word = self.read_next_word();
                self.write_r16(target, word);
                (pc.wrapping_add(3), 12)
            },
            Instruction::LdIndirectFromA(target) => {
                let address = self.indirect_address(target);
                let a = self.registers.a;
                self.mem.write_byte(address, a);
                (pc.wrapping_add(1), 8)
            },
            Instruction::LdAFromIndirect(target) => {
                let address = self.indirect_address(target);
                self.registers.a = self.mem.read_byte(address);
                (pc.wrapping_add(1), 8)
            },
            Instruction::LdWordFromA => {
                let word = self.read_next_word();
                let a = self.registers.a;
                self.mem.write_byte(word, a);
                (pc.wrapping_add(3), 16)
            },
            Instruction::LdAFromWord => {
                let word = self.read_next_word();
                self.registers.a = self.mem.read_byte(word);
                (pc.wrapping_add(3), 16)
            },
            Instruction::LdByteAddressFromA => {
                let offset = self.read_next_byte() as u16;
                let a = self.registers.a;
                self.mem.write_byte(0xFF00 + offset, a);
                (pc.wrapping_add(2), 12)
            },
            Instruction::LdAFromByteAddress => {
                let offset = self.read_next_byte() as u16;
                self.registers.a = self.mem.read_byte(0xFF00 + offset);
                (pc.wrapping_add(2), 12)
            },
            Instruction::LdLastByteFromA => {
                let a = self.registers.a;
                let c = self.registers.c as u16;
                self.mem.write_byte(0xFF00 + c, a);
                (pc.wrapping_add(1), 8)
            },
            Instruction::LdAFromLastByte => {
                let c = self.registers.c as u16;
                self.registers.a = self.mem.read_byte(0xFF00 + c);
                (pc.wrapping_add(1), 8)
            },
            Instruction::LdHlFromSp => {
                let imm = self.read_next_byte();
                let (result, flags) = self.sp_plus_offset(imm);
                self.registers.set_hl(result);
                self.registers.f = flags;
                (pc.wrapping_add(2), 12)
            },
            Instruction::LdSpFromHl => {
                self.sp = self.registers.get_hl();
                (pc.wrapping_add(1), 8)
            },
            _ => {
                let address = self.read_next_word();
                let sp = self.sp;
                self.mem.write_byte(address, (sp % 256) as u8);
                let ghost m1 = self.mem;
                self.mem.write_byte(address.wrapping_add(1), (sp / 256) as u8);
                assert(old(self).mem.write_post(&m1, old(self).imm16(), lo_byte(old(self).sp)));
                (pc.wrapping_add(3), 20)
            },
        }
    }

    /// Loads through BC, DE and HL.
    fn execute_load_a_2(&mut self, instruction: Instruction) -> (r: (u16, u8))
        requires
            old(self).wf(),
            is_load(instruction),
            matches!(instruction, Instruction::LdIndirectFromA(_) | Instruction::LdAFromIndirect(_)),
            instruction is Ld || instruction is LdD8 || instruction is LdD16 || instruction is LdHlFromSp || instruction is LdSpFromHl || instruction is LdIndirectFromA || instruction is LdAFromIndirect,
        ensures
            final(self).wf(),
            old(self).effect(final(self), instruction),
            r == old(self).spec_outcome(instruction),
            final(self).pc == old(self).pc,
    {
        if matches!(instruction, Instruction::LdIndirectFromA(_)) {
            self.load_to_indirect(instruction)
        } else {
            self.load_from_indirect(instruction)
        }
    }

    /// LD (BC)/(DE)/(HL+)/(HL-),A.
    #[verifier::rlimit(100)]
    fn load_to_indirect(&mut self, instruction: Instruction) -> (r: (u16, u8))
        requires
            old(self).wf(),
            is_load(instruction),
            matches!(instruction, Instruction::LdIndirectFromA(_)),
            instruction is Ld || instruction is LdD8 || instruction is LdD16 || instruction is LdHlFromSp || instruction is LdSpFromHl || instruction is LdIndirectFromA || instruction is LdAFromIndirect,
        ensures
            final(self).wf(),
            old(self).effect(final(self), instruction),
            r == old(self).spec_outcome(instruction),
            final(self).pc == old(self).pc,
    {
        proof {
            reveal(Cpu::effect_load);
        }
        let pc = self.pc;
        let target = match instruction {
            Instruction::LdIndirectFromA(t) => t,
            _ => IndirectTarget::BC,
        };
        let address = self.indirect_address(target);
        let a = self.registers.a;
        self.mem.write_byte(address, a);
        (pc.wrapping_add(1), 8)
    }

    /// LD A,(BC)/(DE)/(HL+)/(HL-).
    #[verifier::rlimit(100)]
    fn load_from_indirect(&mut self, instruction: Instruction) -> (r: (u16, u8))
        requires
            old(self).wf(),
            is_load(instruction),
            matches!(instruction, Instruction::LdAFromIndirect(_)),
            instruction is Ld || instruction is LdD8 || instruction is LdD16 || instruction is LdHlFromSp || instruction is LdSpFromHl || instruction is LdIndirectFromA || instruction is LdAFromIndirect,
        ensures
            final(self).wf(),
            old(self).effect(final(self), instruction),
            r == old(self).spec_outcome(instruction),
            final(self).pc == old(self).pc,
    {
        proof {
            reveal(Cpu::effect_load);
        }
        let pc = self.pc;
        let target = match instruction {
            Instruction::LdAFromIndirect(t) => t,
            _ => IndirectTarget::BC,
        };
        let address = self.indirect_address(target);
        self.registers.a = self.mem.read_byte(address);
        (pc.wrapping_add(1), 8)
    }

    /// Loads through immediate addresses and the $FF00 page, and LD (a16),SP.
    fn execute_load_b(&mut self, instruction: Instruction) -> (r: (u16, u8))
        requires
            old(self).wf(),
            is_load(instruction),
            !(instruction is Ld || instruction is LdD8 || instruction is LdD16 || instruction is LdHlFromSp || instruction is LdSpFromHl || instruction is LdIndirectFromA || instruction is LdAFromIndirect),
        ensures
            final(self).wf(),
            old(self).effect(final(self), instruction),
            r == old(self).spec_outcome(instruction),
            final(self).pc == old(self).pc,
    {
        if matches!(instruction, Instruction::LdWordFromA | Instruction::LdAFromWord | Instruction::LdIndirectFromSp) {
            self.execute_load_b_0(instruction)
        } else {
            self.execute_load_b_1(instruction)
        }
    }

    /// Loads through an immediate address.
    #[verifier::rlimit(100)]
    fn execute_load_b_0(&mut self, instruction: Instruction) -> (r: (u16, u8))
        requires
            old(self).wf(),
            is_load(instruction),
            matches!(instruction, Instruction::LdWordFromA | Instruction::LdAFromWord | Instruction::LdIndirectFromSp),
            !(instruction is Ld || instruction is LdD8 || instruction is LdD16 || instruction is LdHlFromSp || instruction is LdSpFromHl || instruction is LdIndirectFromA || instruction is LdAFromIndirect),
        ensures
            final(self).wf(),
            old(self).effect(final(self), instruction),
            r == old(self).spec_outcome(instruction),
            final(self).pc == old(self).pc,
    {
        proof {
            reveal(Cpu::effect_load);
        }
        let pc = self.pc;
        match instruction {
            Instruction::Ld(target, source) => {
                let v = self.read_r8(source);
                self.write_r8(target, v);
                let cycles: u8 = if target == R8::HLI || source == R8::HLI { 8 } else { 4 };
                (pc.wrapping_add(1), cycles)
            },
            Instruction::LdD8(target) => {
                let v = self.read_next_byte();
                self.write_r8(target, v);
                let cycles: u8 = if target == R8::HLI { 12 } else { 8 };
                (pc.wrapping_add(2), cycles)
            },
            Instruction::LdD16(target) => {
                let word = self.read_next_word();
                self.write_r16(target, word);
                (pc.wrapping_add(3), 12)
            },
            Instruction::LdIndirectFromA(target) => {
                let address = self.indirect_address(target);
                let a = self.registers.a;
                self.mem.write_byte(address, a);
                (pc.wrapping_add(1), 8)
            },
            Instruction::LdAFromIndirect(target) => {
                let address = self.indirect_address(target);
                self.registers.a = self.mem.read_byte(address);
                (pc.wrapping_add(1), 8)
            },
            Instruction::LdWordFromA => {
                let word = self.read_next_word();
                let a = self.registers.a;
                self.mem.write_byte(word, a);
                (pc.wrapping_add(3), 16)
            },
            Instruction::LdAFromWord => {
                let word = self.read_next_word();
                self.registers.a = self.mem.read_byte(word);
                (pc.wrapping_add(3), 16)
            },
            Instruction::LdByteAddressFromA => {
                let offset = self.read_next_byte() as u16;
                let a = self.registers.a;
                self.mem.write_byte(0xFF00 + offset, a);
                (pc.wrapping_add(2), 12)
            },
            Instruction::LdAFromByteAddress => {
                let offset = self.read_next_byte() as u16;
                self.registers.a = self.mem.read_byte(0xFF00 + offset);
                (pc.wrapping_add(2), 12)
            },
            Instruction::LdLastByteFromA => {
                let a = self.registers.a;
                let c = self.registers.c as u16;
                self.mem.write_byte(0xFF00 + c, a);
                (pc.wrapping_add(1), 8)
            },
            Instruction::LdAFromLastByte => {
                let c = self.registers.c as u16;
                self.registers.a = self.mem.read_byte(0xFF00 + c);
                (pc.wrapping_add(1), 8)
            },
            Instruction::LdHlFromSp => {
                let imm = self.read_next_byte();
                let (result, flags) = self.sp_plus_offset(imm);
                self.registers.set_hl(result);
                self.registers.f = flags;
                (pc.wrapping_add(2), 12)
            },
            Instruction::LdSpFromHl => {
                self.sp = self.registers.get_hl();
                (pc.wrapping_add(1), 8)
            },
            _ => {
                let address = self.read_next_word();
                let sp = self.sp;
                self.mem.write_byte(address, (sp % 256) as u8);
                let ghost m1 = self.mem;
                self.mem.write_byte(address.wrapping_add(1), (sp / 256) as u8);
                assert(old(self).mem.write_post(&m1, old(self).imm16(), lo_byte(old(self).sp)));
                (pc.wrapping_add(3), 20)
            },
        }
    }

    /// Loads through the $FF00 page.
    #[verifier::rlimit(100)]
    fn execute_load_b_1(&mut self, instruction: Instruction) -> (r: (u16, u8))
        requires
            old(self).wf(),
            is_load(instruction),
            matches!(instruction, Instruction::LdByteAddressFromA | Instruction::LdAFromByteAddress | Instruction::LdLastByteFromA | Instruction::LdAFromLastByte),
            !(instruction is Ld || instruction is LdD8 || instruction is LdD16 || instruction is LdHlFromSp || instruction is LdSpFromHl || instruction is LdIndirectFromA || instruction is LdAFromIndirect),
        ensures
            final(self).wf(),
            old(self).effect(final(self), instruction),
            r == old(self).spec_outcome(instruction),
            final(self).pc == old(self).pc,
    {
        proof {
            reveal(Cpu::effect_load);
        }
        let pc = self.pc;
        match instruction {
            Instruction::Ld(target, source) => {
                let v = self.read_r8(source);
                self.write_r8(target, v);
                let cycles: u8 = if target == R8::HLI || source == R8::HLI { 8 } else { 4 };
                (pc.wrapping_add(1), cycles)
            },
            Instruction::LdD8(target) => {
                let v = self.read_next_byte();
                self.write_r8(target, v);
                let cycles: u8 = if target == R8::HLI { 12 } else { 8 };
                (pc.wrapping_add(2), cycles)
            },
            Instruction::LdD16(target) => {
                let word = self.read_next_word();
                self.write_r16(target, word);
                (pc.wrapping_add(3), 12)
            },
            Instruction::LdIndirectFromA(target) => {
                let address = self.indirect_address(target);
                let a = self.registers.a;
                self.mem.write_byte(address, a);
                (pc.wrapping_add(1), 8)
            },
            Instruction::LdAFromIndirect(target) => {
                let address = self.indirect_address(target);
                self.registers.a = self.mem.read_byte(address);
                (pc.wrapping_add(1), 8)
            },
            Instruction::LdWordFromA => {
                let word = self.read_next_word();
                let a = self.registers.a;
                self.mem.write_byte(word, a);
                (pc.wrapping_add(3), 16)
            },
            Instruction::LdAFromWord => {
                let word = self.read_next_word();
                self.registers.a = self.mem.read_byte(word);
                (pc.wrapping_add(3), 16)
            },
            Instruction::LdByteAddressFromA => {
                let offset = self.read_next_byte() as u16;
                let a = self.registers.a;
                self.mem.write_byte(0xFF00 + offset, a);
                (pc.wrapping_add(2), 12)
            },
            Instruction::LdAFromByteAddress => {
                let offset = self.read_next_byte() as u16;
                self.registers.a = self.mem.read_byte(0xFF00 + offset);
                (pc.wrapping_add(2), 12)
            },
            Instruction::LdLastByteFromA => {
                let a = self.registers.a;
                let c = self.registers.c as u16;
                self.mem.write_byte(0xFF00 + c, a);
                (pc.wrapping_add(1), 8)
            },
            Instruction::LdAFromLastByte => {
                let c = self.registers.c as u16;
                self.registers.a = self.mem.read_byte(0xFF00 + c);
                (pc.wrapping_add(1), 8)
            },
            Instruction::LdHlFromSp => {
                let imm = self.read_next_byte();
                let (result, flags) = self.sp_plus_offset(imm);
                self.registers.set_hl(result);
                self.registers.f = flags;
                (pc.wrapping_add(2), 12)
            },
            Instruction::LdSpFromHl => {
                self.sp = self.registers.get_hl();
                (pc.wrapping_add(1), 8)
            },
            _ => {
                let address = self.read_next_word();
                let sp = self.sp;
                self.mem.write_byte(address, (sp % 256) as u8);
                let ghost m1 = self.mem;
                self.mem.write_byte(address.wrapping_add(1), (sp / 256) as u8);
                assert(old(self).mem.write_post(&m1, old(self).imm16(), lo_byte(old(self).sp)));
                (pc.wrapping_add(3), 20)
            },
        }
    }

    /// The 8-bit ALU, INC/DEC and 16-bit arithmetic group.
    fn execute_arith(&mut self, instruction: Instruction) -> (r: (u16, u8))
        requires
            old(self).wf(),
            is_arith(instruction),
        ensures
            final(self).wf(),
            old(self).effect(final(self), instruction),
            r == old(self).spec_outcome(instruction),
            final(self).pc == old(self).pc,
    {
        if matches!(instruction, Instruction::Alu(_, _) | Instruction::AddSp) {
            self.execute_arith_a(instruction)
        } else {
            self.execute_arith_b(instruction)
        }
    }

    /// The 8-bit ALU and ADD SP,e.
    fn execute_arith_a(&mut self, instruction: Instruction) -> (r: (u16, u8))
        requires
            old(self).wf(),
            is_arith(instruction),
            instruction is Alu || instruction is AddSp,
        ensures
            final(self).wf(),
            old(self).effect(final(self), instruction),
            r == old(self).spec_outcome(instruction),
            final(self).pc == old(self).pc,
    {
        if matches!(instruction, Instruction::Alu(_, _)) {
            self.execute_alu(instruction)
        } else {
            self.execute_add_sp(instruction)
        }
    }

    /// The 8-bit ALU.
    #[verifier::rlimit(100)]
    fn execute_alu(&mut self, instruction: Instruction) -> (r: (u16, u8))
        requires
            old(self).wf(),
            is_arith(instruction),
            instruction is Alu,
        ensures
            final(self).wf(),
            old(self).effect(final(self), instruction),
            r == old(self).spec_outcome(instruction),
            final(self).pc == old(self).pc,
    {
        let pc = self.pc;
        match instruction {
            Instruction::Alu(op, target) => {
                let (value, r) = match target {
                    ArithmeticTarget::Reg(reg) => {
                        let cycles: u8 = if reg == R8::HLI { 8 } else { 4 };
                        (self.read_r8(reg), (pc.wrapping_add(1), cycles))
                    },
                    ArithmeticTarget::D8 => (self.read_next_byte(), (pc.wrapping_add(2), 8)),
                };
                assert(value == old(self).operand(target));
                match op {
                    AluOp::Add => self.add(value),
                    AluOp::Adc => self.adc(value),
                    AluOp::Sub => self.sub(value),
                    AluOp::Sbc => self.sbc(value),
                    AluOp::And => self.and(value),
                    AluOp::Xor => self.xor(value),
                    AluOp::Or => self.or(value),
                    AluOp::Cp => self.cp(value),
                }
                proof {
                    lemma_alu_effect(*old(self), *self, op, target);
                }
                r
            },
            _ => (pc, 0),
        }
    }

    /// ADD SP,e.
    #[verifier::rlimit(100)]
    fn execute_add_sp(&mut self, instruction: Instruction) -> (r: (u16, u8))
        requires
            old(self).wf(),
            is_arith(instruction),
            instruction is AddSp,
        ensures
            final(self).wf(),
            old(self).effect(final(self), instruction),
            r == old(self).spec_outcome(instruction),
            final(self).pc == old(self).pc,
    {
        let pc = self.pc;
        let imm = self.read_next_byte();
        let (result, flags) = self.sp_plus_offset(imm);
        self.sp = result;
        self.registers.f = flags;
        proof {
            lemma_add_sp_effect(*old(self), *self);
        }
        (pc.wrapping_add(2), 16)
    }

    /// INC/DEC and the 16-bit arithmetic.
    fn execute_arith_b(&mut self, instruction: Instruction) -> (r: (u16, u8))
        requires
            old(self).wf(),
            is_arith(instruction),
            !(instruction is Alu || instruction is AddSp),
        ensures
            final(self).wf(),
            old(self).effect(final(self), instruction),
            r == old(self).spec_outcome(instruction),
            final(self).pc == old(self).pc,
    {
        if matches!(instruction, Instruction::Inc(_) | Instruction::Dec(_)) {
            self.execute_arith_b_0(instruction)
        } else if matches!(instruction, Instruction::Inc16(_) | Instruction::Dec16(_)) {
            self.execute_arith_b_1(instruction)
        } else {
            self.execute_arith_b_2(instruction)
        }
    }

    /// INC and DEC of an 8-bit operand.
    fn execute_arith_b_0(&mut self, instruction: Instruction) -> (r: (u16, u8))
        requires
            old(self).wf(),
            is_arith(instruction),
            matches!(instruction, Instruction::Inc(_) | Instruction::Dec(_)),
            !(instruction is Alu || instruction is AddSp),
        ensures
            final(self).wf(),
            old(self).effect(final(self), instruction),
            r == old(self).spec_outcome(instruction),
            final(self).pc == old(self).pc,
    {
        if matches!(instruction, Instruction::Inc(_)) {
            self.execute_inc(instruction)
        } else {
            self.execute_dec(instruction)
        }
    }

    /// INC r.
    #[verifier::rlimit(100)]
    fn execute_inc(&mut self, instruction: Instruction) -> (r: (u16, u8))
        requires
            old(self).wf(),
            is_arith(instruction),
            matches!(instruction, Instruction::Inc(_)),
            !(instruction is Alu || instruction is AddSp),
        ensures
            final(self).wf(),
            old(self).effect(final(self), instruction),
            r == old(self).spec_outcome(instruction),
            final(self).pc == old(self).pc,
    {
        let pc = self.pc;
        match instruction {
            Instruction::Inc(reg) => {
                let v = self.read_r8(reg);
                assert(v == old(self).spec_r8(reg));
                let nv = self.inc(v);
                let ghost c1 = *self;
                assert(c1 == old(self).with_flags(FlagsRegister { z: nv == 0, n: false, h: v % 16 == 15, c: old(self).registers.f.c }));
                self.write_r8(reg, nv);
                assert(c1.write_r8_post(&*self, reg, nv));
                proof {
                    lemma_inc_effect(*old(self), *self, reg);
                }
                let cycles: u8 = if reg == R8::HLI { 12 } else { 4 };
                (pc.wrapping_add(1), cycles)
            },
            _ => (pc, 0),
        }
    }

    /// DEC r.
    #[verifier::rlimit(100)]
    fn execute_dec(&mut self, instruction: Instruction) -> (r: (u16, u8))
        requires
            old(self).wf(),
            is_arith(instruction),
            matches!(instruction, Instruction::Dec(_)),
            !(instruction is Alu || instruction is AddSp),
        ensures
            final(self).wf(),
            old(self).effect(final(self), instruction),
            r == old(self).spec_outcome(instruction),
            final(self).pc == old(self).pc,
    {
        let pc = self.pc;
        match instruction {
            Instruction::Dec(reg) => {
                let v = self.read_r8(reg);
                assert(v == old(self).spec_r8(reg));
                let nv = self.dec(v);
                let ghost c1 = *self;
                assert(c1 == old(self).with_flags(FlagsRegister { z: nv == 0, n: true, h: v % 16 == 0, c: old(self).registers.f.c }));
                self.write_r8(reg, nv);
                assert(c1.write_r8_post(&*self, reg, nv));
                proof {
                    lemma_dec_effect(*old(self), *self, reg);
                }
                let cycles: u8 = if reg == R8::HLI { 12 } else { 4 };
                (pc.wrapping_add(1), cycles)
            },
            _ => (pc, 0),
        }
    }

    /// INC and DEC of a register pair.
    #[verifier::rlimit(100)]
    fn execute_arith_b_1(&mut self, instruction: Instruction) -> (r: (u16, u8))
        requires
            old(self).wf(),
            is_arith(instruction),
            matches!(instruction, Instruction::Inc16(_) | Instruction::Dec16(_)),
            !(instruction is Alu || instruction is AddSp),
        ensures
            final(self).wf(),
            old(self).effect(final(self), instruction),
            r == old(self).spec_outcome(instruction),
            final(self).pc == old(self).pc,
    {
        let pc = self.pc;
        match instruction {
            Instruction::Inc16(reg) => {
                let v = self.read_r16(reg);
                let nv = self.inc_16bit(v);
                self.write_r16(reg, nv);
                proof {
                    lemma_inc16_effect(*old(self), *self, reg);
                }
                (pc.wrapping_add(1), 8)
            },
            Instruction::Dec16(reg) => {
                let v = self.read_r16(reg);
                let nv = self.dec_16bit(v);
                self.write_r16(reg, nv);
                proof {
                    lemma_dec16_effect(*old(self), *self, reg);
                }
                (pc.wrapping_add(1), 8)
            },
            _ => (pc, 0),
        }
    }

    /// ADD HL,rr.
    #[verifier::rlimit(100)]
    fn execute_arith_b_2(&mut self, instruction: Instruction) -> (r: (u16, u8))
        requires
            old(self).wf(),
            is_arith(instruction),
            matches!(instruction, Instruction::AddHl(_)),
            !(instruction is Alu || instruction is AddSp),
        ensures
            final(self).wf(),
            old(self).effect(final(self), instruction),
            r == old(self).spec_outcome(instruction),
            final(self).pc == old(self).pc,
    {
        let pc = self.pc;
        match instruction {
            Instruction::AddHl(reg) => {
                let v = self.read_r16(reg);
                self.add_hl(v);
                proof {
                    lemma_add_hl_effect(*old(self), *self, reg);
                }
                (pc.wrapping_add(1), 8)
            },
            _ => (pc, 0),
        }
    }

    /// Jumps, calls, returns, restarts, PUSH and POP.
    fn execute_control(&mut self, instruction: Instruction) -> (r: (u16, u8))
        requires
            old(self).wf(),
            is_control(instruction),
        ensures
            final(self).wf(),
            old(self).effect(final(self), instruction),
            r == old(self).spec_outcome(instruction),
            final(self).pc == old(self).pc,
    {
        if matches!(instruction, Instruction::Jp(_) | Instruction::JpHl | Instruction::Jr(_) | Instruction::Call(_) | Instruction::Ret(_) | Instruction::Reti) {
            self.execute_control_a(instruction)
        } else {
            self.execute_control_b(instruction)
        }
    }

    /// Jumps, calls and returns.
    #[verifier::rlimit(100)]
    fn execute_control_a(&mut self, instruction: Instruction) -> (r: (u16, u8))
        requires
            old(self).wf(),
            is_control(instruction),
            matches!(instruction, Instruction::Jp(_) | Instruction::JpHl | Instruction::Jr(_) | Instruction::Call(_) | Instruction::Ret(_) | Instruction::Reti),
        ensures
            final(self).wf(),
            old(self).effect(final(self), instruction),
            r == old(self).spec_outcome(instruction),
            final(self).pc == old(self).pc,
    {
        proof {
            reveal(Cpu::effect_control);
        }
        let pc = self.pc;
        match instruction {
            Instruction::Jp(c) => {
                let taken = self.condition(c);
                self.jump(taken)
            },
            Instruction::JpHl => (self.registers.get_hl(), 4),
            Instruction::Jr(c) => {
                let taken = self.condition(c);
                self.jump_relative(taken)
            },
            Instruction::Call(c) => {
                let taken = self.condition(c);
                self.call(taken)
            },
            Instruction::Ret(c) => {
                let taken = self.condition(c);
                let next = self.ret(taken);
                let cycles: u8 = if c == JumpCondition::Always {
                    16
                } else if taken {
                    20
                } else {
                    8
                };
                (next, cycles)
            },
            Instruction::Reti => {
                self.ime = true;
                (self.pop(), 16)
            },
            Instruction::Rst(target) => {
                self.rst();
                (target as u16, 16)
            },
            Instruction::Push(target) => {
                let value = match target {
                    StackTarget::AF => self.registers.get_af(),
                    StackTarget::BC => self.registers.get_bc(),
                    StackTarget::DE => self.registers.get_de(),
                    StackTarget::HL => self.registers.get_hl(),
                };
                self.push(value);
                (pc.wrapping_add(1), 16)
            },
            _ => {
                let target = match instruction {
                    Instruction::Pop(t) => t,
                    _ => StackTarget::AF,
                };
                let value = self.pop();
                match target {
                    StackTarget::AF => self.registers.set_af(value),
                    StackTarget::BC => self.registers.set_bc(value),
                    StackTarget::DE => self.registers.set_de(value),
                    StackTarget::HL => self.registers.set_hl(value),
                }
                (pc.wrapping_add(1), 12)
            },
        }
    }

    /// RST, PUSH and POP.
    fn execute_control_b(&mut self, instruction: Instruction) -> (r: (u16, u8))
        requires
            old(self).wf(),
            is_control(instruction),
            !matches!(instruction, Instruction::Jp(_) | Instruction::JpHl | Instruction::Jr(_) | Instruction::Call(_) | Instruction::Ret(_) | Instruction::Reti),
        ensures
            final(self).wf(),
            old(self).effect(final(self), instruction),
            r == old(self).spec_outcome(instruction),
            final(self).pc == old(self).pc,
    {
        if matches!(instruction, Instruction::Rst(_)) {
            self.execute_control_b_0(instruction)
        } else if matches!(instruction, Instruction::Push(_)) {
            self.execute_control_b_1(instruction)
        } else {
            self.execute_control_b_2(instruction)
        }
    }

    /// RST.
    #[verifier::rlimit(100)]
    fn execute_control_b_0(&mut self, instruction: Instruction) -> (r: (u16, u8))
        requires
            old(self).wf(),
            is_control(instruction),
            matches!(instruction, Instruction::Rst(_)),
            !matches!(instruction, Instruction::Jp(_) | Instruction::JpHl | Instruction::Jr(_) | Instruction::Call(_) | Instruction::Ret(_) | Instruction::Reti),
        ensures
            final(self).wf(),
            old(self).effect(final(self), instruction),
            r == old(self).spec_outcome(instruction),
            final(self).pc == old(self).pc,
    {
        proof {
            reveal(Cpu::effect_control);
        }
        let pc = self.pc;
        match instruction {
            Instruction::Jp(c) => {
                let taken = self.condition(c);
                self.jump(taken)
            },
            Instruction::JpHl => (self.registers.get_hl(), 4),
            Instruction::Jr(c) => {
                let taken = self.condition(c);
                self.jump_relative(taken)
            },
            Instruction::Call(c) => {
                let taken = self.condition(c);
                self.call(taken)
            },
            Instruction::Ret(c) => {
                let taken = self.condition(c);
                let next = self.ret(taken);
                let cycles: u8 = if c == JumpCondition::Always {
                    16
                } else if taken {
                    20
                } else {
                    8
                };
                (next, cycles)
            },
            Instruction::Reti => {
                self.ime = true;
                (self.pop(), 16)
            },
            Instruction::Rst(target) => {
                self.rst();
                (target as u16, 16)
            },
            Instruction::Push(target) => {
                let value = match target {
                    StackTarget::AF => self.registers.get_af(),
                    StackTarget::BC => self.registers.get_bc(),
                    StackTarget::DE => self.registers.get_de(),
                    StackTarget::HL => self.registers.get_hl(),
                };
                self.push(value);
                (pc.wrapping_add(1), 16)
            },
            _ => {
                let target = match instruction {
                    Instruction::Pop(t) => t,
                    _ => StackTarget::AF,
                };
                let value = self.pop();
                match target {
                    StackTarget::AF => self.registers.set_af(value),
                    StackTarget::BC => self.registers.set_bc(value),
                    StackTarget::DE => self.registers.set_de(value),
                    StackTarget::HL => self.registers.set_hl(value),
                }
                (pc.wrapping_add(1), 12)
            },
        }
    }

    /// PUSH.
    #[verifier::rlimit(100)]
    fn execute_control_b_1(&mut self, instruction: Instruction) -> (r: (u16, u8))
        requires
            old(self).wf(),
            is_control(instruction),
            matches!(instruction, Instruction::Push(_)),
            !matches!(instruction, Instruction::Jp(_) | Instruction::JpHl | Instruction::Jr(_) | Instruction::Call(_) | Instruction::Ret(_) | Instruction::Reti),
        ensures
            final(self).wf(),
            old(self).effect(final(self), instruction),
            r == old(self).spec_outcome(instruction),
            final(self).pc == old(self).pc,
    {
        proof {
            reveal(Cpu::effect_control);
        }
        let pc = self.pc;
        match instruction {
            Instruction::Jp(c) => {
                let taken = self.condition(c);
                self.jump(taken)
            },
            Instruction::JpHl => (self.registers.get_hl(), 4),
            Instruction::Jr(c) => {
                let taken = self.condition(c);
                self.jump_relative(taken)
            },
            Instruction::Call(c) => {
                let taken = self.condition(c);
                self.call(taken)
            },
            Instruction::Ret(c) => {
                let taken = self.condition(c);
                let next = self.ret(taken);
                let cycles: u8 = if c == JumpCondition::Always {
                    16
                } else if taken {
                    20
                } else {
                    8
                };
                (next, cycles)
            },
            Instruction::Reti => {
                self.ime = true;
                (self.pop(), 16)
            },
            Instruction::Rst(target) => {
                self.rst();
                (target as u16, 16)
            },
            Instruction::Push(target) => {
                let value = match target {
                    StackTarget::AF => self.registers.get_af(),
                    StackTarget::BC => self.registers.get_bc(),
                    StackTarget::DE => self.registers.get_de(),
                    StackTarget::HL => self.registers.get_hl(),
                };
                self.push(value);
                (pc.wrapping_add(1), 16)
            },
            _ => {
                let target = match instruction {
                    Instruction::Pop(t) => t,
                    _ => StackTarget::AF,
                };
                let value = self.pop();
                match target {
                    StackTarget::AF => self.registers.set_af(value),
                    StackTarget::BC => self.registers.set_bc(value),
                    StackTarget::DE => self.registers.set_de(value),
                    StackTarget::HL => self.registers.set_hl(value),
                }
                (pc.wrapping_add(1), 12)
            },
        }
    }

    /// POP.
    #[verifier::rlimit(100)]
    fn execute_control_b_2(&mut self, instruction: Instruction) -> (r: (u16, u8))
        requires
            old(self).wf(),
            is_control(instruction),
            matches!(instruction, Instruction::Pop(_)),
            !matches!(instruction, Instruction::Jp(_) | Instruction::JpHl | Instruction::Jr(_) | Instruction::Call(_) | Instruction::Ret(_) | Instruction::Reti),
        ensures
            final(self).wf(),
            old(self).effect(final(self), instruction),
            r == old(self).spec_outcome(instruction),
            final(self).pc == old(self).pc,
    {
        proof {
            reveal(Cpu::effect_control);
        }
        let pc = self.pc;
        match instruction {
            Instruction::Jp(c) => {
                let taken = self.condition(c);
                self.jump(taken)
            },
            Instruction::JpHl => (self.registers.get_hl(), 4),
            Instruction::Jr(c) => {
                let taken = self.condition(c);
                self.jump_relative(taken)
            },
            Instruction::Call(c) => {
                let taken = self.condition(c);
                self.call(taken)
            },
            Instruction::Ret(c) => {
                let taken = self.condition(c);
                let next = self.ret(taken);
                let cycles: u8 = if c == JumpCondition::Always {
                    16
                } else if taken {
                    20
                } else {
                    8
                };
                (next, cycles)
            },
            Instruction::Reti => {
                self.ime = true;
                (self.pop(), 16)
            },
            Instruction::Rst(target) => {
                self.rst();
                (target as u16, 16)
            },
            Instruction::Push(target) => {
                let value = match target {
                    StackTarget::AF => self.registers.get_af(),
                    StackTarget::BC => self.registers.get_bc(),
                    StackTarget::DE => self.registers.get_de(),
                    StackTarget::HL => self.registers.get_hl(),
                };
                self.push(value);
                (pc.wrapping_add(1), 16)
            },
            _ => {
                let target = match instruction {
                    Instruction::Pop(t) => t,
                    _ => StackTarget::AF,
                };
                let value = self.pop();
                match target {
                    StackTarget::AF => self.registers.set_af(value),
                    StackTarget::BC => self.registers.set_bc(value),
                    StackTarget::DE => self.registers.set_de(value),
                    StackTarget::HL => self.registers.set_hl(value),
                }
                (pc.wrapping_add(1), 12)
            },
        }
    }

    /// The $CB page: shifts and rotates, BIT, RES and SET.
    #[verifier::rlimit(100)]
    fn execute_prefixed(&mut self, instruction: Instruction) -> (r: (u16, u8))
        requires
            old(self).wf(),
            is_prefixed(instruction),
        ensures
            final(self).wf(),
            old(self).effect(final(self), instruction),
            r == old(self).spec_outcome(instruction),
            final(self).pc == old(self).pc,
    {
        proof {
            reveal(Cpu::effect_prefixed);
        }
        let pc = self.pc;
        match instruction {
            Instruction::Shift(op, reg) => {
                let v = self.read_r8(reg);
                let nv = match op {
                    ShiftOp::Rlc => self.rotate_left_set_zero(v),
                    ShiftOp::Rrc => self.rotate_right_set_zero(v),
                    ShiftOp::Rl => self.rotate_left_through_carry_set_zero(v),
                    ShiftOp::Rr => self.rotate_right_through_carry_set_zero(v),
                    ShiftOp::Sla => self.sla(v),
                    ShiftOp::Sra => self.sra(v),
                    ShiftOp::Swap => self.swap(v),
                    ShiftOp::Srl => self.srl(v),
                };
                self.write_r8(reg, nv);
                let cycles: u8 = if reg == R8::HLI { 16 } else { 8 };
                (pc.wrapping_add(2), cycles)
            },
            Instruction::Bit(bit, reg) => {
                let v = self.read_r8(reg);
                self.test_bit(v, bit % 8);
                let cycles: u8 = if reg == R8::HLI { 12 } else { 8 };
                (pc.wrapping_add(2), cycles)
            },
            Instruction::ResBit(bit, reg) => {
                let v = self.read_r8(reg);
                let nv = self.reset_bit(v, bit % 8);
                self.write_r8(reg, nv);
                let cycles: u8 = if reg == R8::HLI { 16 } else { 8 };
                (pc.wrapping_add(2), cycles)
            },
            _ => {
                let (bit, reg) = match instruction {
                    Instruction::SetBit(b, r) => (b, r),
                    _ => (0, R8::A),
                };
                let v = self.read_r8(reg);
                let nv = self.set_bit(v, bit % 8);
                self.write_r8(reg, nv);
                let cycles: u8 = if reg == R8::HLI { 16 } else { 8 };
                (pc.wrapping_add(2), cycles)
            },
        }
    }

    /// Executes one decoded instruction at PC; returns the next PC and the T-cycles taken.
    /// PC itself is left for the caller to update.
    pub fn execute(&mut self, instruction: Instruction) -> (r: (u16, u8))
        requires
            old(self).wf(),
        ensures
            final(self).wf(),
            old(self).effect(final(self), instruction),
            r == old(self).spec_outcome(instruction),
            final(self).pc == old(self).pc,
    {
        match instruction {
            Instruction::Jp(_) | Instruction::JpHl | Instruction::Jr(_) | Instruction::Call(_) | Instruction::Ret(_)
            | Instruction::Reti | Instruction::Rst(_) | Instruction::Push(_) | Instruction::Pop(_) => {
                self.execute_control(instruction)
            },
            Instruction::Alu(_, _) | Instruction::Inc(_) | Instruction::Dec(_) | Instruction::Inc16(_)
            | Instruction::Dec16(_) | Instruction::AddHl(_) | Instruction::AddSp => self.execute_arith(instruction),
            Instruction::Shift(_, _) | Instruction::Bit(_, _) | Instruction::ResBit(_, _) | Instruction::SetBit(_, _) => {
                self.execute_prefixed(instruction)
            },
            Instruction::Nop | Instruction::Stop | Instruction::Halt | Instruction::Di | Instruction::Ei
            | Instruction::Rlca | Instruction::Rrca | Instruction::Rla | Instruction::Rra | Instruction::Daa
            | Instruction::Cpl | Instruction::Scf | Instruction::Ccf => self.execute_misc(instruction),
            _ => self.execute_load(instruction),
        }
    }

    /// Decodes the instruction at PC (following a $CB prefix); `None` for an undefined opcode.
    pub fn get_instruction(&self) -> (r: Option<Instruction>)
        requires
            self.wf(),
        ensures
            r == self.current_instruction(),
    {
        let byte = self.mem.read_byte(self.pc);
        if byte == 0xCB {
            let next = self.mem.read_byte(self.pc.wrapping_add(1));
            Some(Instruction::from_prefixed(next))
        } else {
            Instruction::from_byte(byte)
        }
    }

    /// Dispatches to the interrupt handler at `location`: IME off, PC pushed, PC set. The
    /// dispatch takes 12 T-cycles, during which the peripherals run on as in any other bus step,
    /// so they may flag new interrupts (the serviced source included) for a later step.
    pub fn interrupt(&mut self, location: u16)
        requires
            old(self).wf(),
        ensures
            final(self).wf(),
            old(self).interrupt_post(final(self), location),
    {
        self.ime = false;
        let pc = self.pc;
        self.push(pc);
        let ghost c1 = *self;
        self.pc = location;
        self.mem.step(12);
        assert((Cpu { ime: false, ..*old(self) }).push_post(&c1, old(self).pc));
    }

    /// The highest-priority interrupt that is both enabled and flagged, as its vector.
    pub open spec fn pending_vector(&self) -> Option<u16> {
        let e = self.mem.interrupt_enable;
        let f = self.mem.interrupt_flags;
        if e.vblank && f.vblank {
            Some(0x40u16)
        } else if e.lcd_stat && f.lcd_stat {
            Some(0x48u16)
        } else if e.timer && f.timer {
            Some(0x50u16)
        } else if e.serial && f.serial {
            Some(0x58u16)
        } else if e.joypad && f.joypad {
            Some(0x60u16)
        } else {
            None
        }
    }

    /// With IME set, services the highest-priority pending interrupt (V-blank, LCD-STAT, timer,
    /// serial, joypad): clears its IF bit and jumps to its vector. At most one per call.
    pub fn service_interrupt(&mut self) -> (r: bool)
        requires
            old(self).wf(),
        ensures
            final(self).wf(),
            r == (old(self).ime && old(self).pending_vector().is_some()),
            r ==> old(self).cleared().interrupt_post(final(self), old(self).pending_vector().unwrap()),
            !r ==> *final(self) == *old(self),
    {
        if !self.ime {
            return false;
        }
        let e = self.mem.interrupt_enable;
        let f = self.mem.interrupt_flags;
        if e.vblank && f.vblank {
            self.mem.interrupt_flags.vblank = false;
            self.interrupt(0x40);
        } else if e.lcd_stat && f.lcd_stat {
            self.mem.interrupt_flags.lcd_stat = false;
            self.interrupt(0x48);
        } else if e.timer && f.timer {
            self.mem.interrupt_flags.timer = false;
            self.interrupt(0x50);
        } else if e.serial && f.serial {
            self.mem.interrupt_flags.serial = false;
            self.interrupt(0x58);
        } else if e.joypad && f.joypad {
            self.mem.interrupt_flags.joypad = false;
            self.interrupt(0x60);
        } else {
            return false;
        }
        true
    }

    /// One CPU step. First, if $FF02 reads $81, the byte in $FF01 is handed out as serial
    /// output and $FF02 cleared. Then the instruction at PC runs (an undefined opcode as a
    /// one-byte no-op), the bus advances by its cycles, HALT waits for a pending interrupt, and
    /// at most one interrupt is serviced. Returns the T-cycles spent and the serial byte.
    #[verifier::rlimit(100)]
    pub fn step(&mut self) -> (r: (u8, Option<u8>))
        requires
            old(self).wf(),
        ensures
            final(self).wf(),
            exists|c1: Cpu, c3: Cpu, c4: Cpu| #[trigger] old(self).step_chain(c1, c3, c4, final(self), r),
            r.1 == if old(self).mem.spec_read(0xFF02) == 0x81 {
                Some(old(self).mem.spec_read(0xFF01))
            } else {
                None::<u8>
            },
    {
        let mut serial_out: Option<u8> = None;
        if self.mem.read_byte(0xFF02) == 0x81 {
            serial_out = Some(self.mem.read_byte(0xFF01));
            self.mem.write_byte(0xFF02, 0);
        }
        let ghost g1 = *self;
        assert(old(self).serial_post(&g1, serial_out));
        if self.ime_next {
            self.ime = true;
            self.ime_next = false;
        }
        let ghost g2 = *self;
        assert(g2 == g1.latched());
        let (next_pc, cycles) = match self.get_instruction() {
            Some(instruction) => self.execute(instruction),
            None => (self.pc.wrapping_add(1), 4),
        };
        let ghost g3 = *self;
        assert(g2.ran(&g3) && (next_pc, cycles) == g2.run_outcome());
        self.mem.step(cycles);
        let ghost g4 = *self;
        assert(g3.mem.step_post(&g4.mem, cycles) && g4 == (Cpu { mem: g4.mem, ..g3 }));
        if self.is_halted && self.mem.interrupt_called() {
            self.is_halted = false;
        }
        if !self.is_halted {
            self.pc = next_pc;
        }
        let serviced = self.service_interrupt();
        let total: u8 = if serviced { cycles + 12 } else { cycles };
        let r = (total, serial_out);
        assert(old(self).step_chain(g1, g3, g4, self, r));
        r
    }
}

proof fn lemma_inc_effect(c0: Cpu, new: Cpu, reg: R8)
    requires
        ({
            let v = c0.spec_r8(reg);
            let nv = ((v + 1) % 256) as u8;
            c0.with_flags(FlagsRegister { z: nv == 0, n: false, h: v % 16 == 15, c: c0.registers.f.c }).write_r8_post(
                &new,
                reg,
                nv,
            )
        }),
    ensures
        c0.effect(&new, Instruction::Inc(reg)),
{
    reveal(Cpu::effect_arith);
}

proof fn lemma_inc16_effect(c0: Cpu, new: Cpu, t: R16)
    requires
        new == c0.with_r16(t, wrap16(c0.spec_r16(t) + 1)),
    ensures
        c0.effect(&new, Instruction::Inc16(t)),
{
    reveal(Cpu::effect_arith);
}

proof fn lemma_dec16_effect(c0: Cpu, new: Cpu, t: R16)
    requires
        new == c0.with_r16(t, wrap16(c0.spec_r16(t) - 1)),
    ensures
        c0.effect(&new, Instruction::Dec16(t)),
{
    reveal(Cpu::effect_arith);
}

proof fn lemma_add_hl_effect(c0: Cpu, new: Cpu, t: R16)
    requires
        new == c0.with_r16(R16::HL, wrap16(c0.registers.hl() + c0.spec_r16(t))).with_flags(
            FlagsRegister {
                z: c0.registers.f.z,
                n: false,
                h: c0.registers.hl() % 4096 + c0.spec_r16(t) % 4096 > 4095,
                c: c0.registers.hl() + c0.spec_r16(t) > 65535,
            },
        ),
    ensures
        c0.effect(&new, Instruction::AddHl(t)),
{
    reveal(Cpu::effect_arith);
}

proof fn lemma_alu_effect(c0: Cpu, new: Cpu, op: AluOp, t: ArithmeticTarget)
    requires
        ({
            let (a, fl) = spec_alu_op(op, c0.registers.a, c0.operand(t), c0.registers.f.c);
            new == (Cpu { registers: Registers { a, f: fl, ..c0.registers }, ..c0 })
        }),
    ensures
        c0.effect(&new, Instruction::Alu(op, t)),
{
    reveal(Cpu::effect_arith);
}

proof fn lemma_add_sp_effect(c0: Cpu, new: Cpu)
    requires
        new == (Cpu {
            sp: spec_sp_offset(c0.sp, c0.imm8()).0,
            registers: Registers { f: spec_sp_offset(c0.sp, c0.imm8()).1, ..c0.registers },
            ..c0
        }),
    ensures
        c0.effect(&new, Instruction::AddSp),
{
    reveal(Cpu::effect_arith);
}

/// DEC r: the flags are set from the old operand, then the decremented value is stored.
proof fn lemma_dec_effect(c0: Cpu, new: Cpu, reg: R8)
    requires
        ({
            let v = c0.spec_r8(reg);
            let nv = ((v + 255) % 256) as u8;
            c0.with_flags(FlagsRegister { z: nv == 0, n: true, h: v % 16 == 0, c: c0.registers.f.c }).write_r8_post(
                &new,
                reg,
                nv,
            )
        }),
    ensures
        c0.effect(&new, Instruction::Dec(reg)),
{
    reveal(Cpu::effect_arith);
}

/// Addresses backed by plain RAM: work RAM (with its echo) and high RAM.
pub open spec fn in_plain_ram(a: u16) -> bool {
    (0xC000 <= a < 0xFE00) || (0xFF80 <= a < 0xFFFF)
}

/// The RAM cell that a plain-RAM address reaches (echo addresses share their cell).
pub open spec fn ram_slot(m: Memory, a: u16) -> int {
    if a < 0xFE00 {
        m.wram_index(a)
    } else {
        0x10000 + (a - 0xFF80)
    }
}

/// A push followed by a pop gives back the pushed word and the old SP, and the push changed
/// only the two RAM cells just below SP: every other RAM byte reads as before.
pub proof fn lemma_push_pop_restores(c0: Cpu, m: Memory, c1: Cpu, v: u16)
    requires
        c0.wf(),
        in_plain_ram(wrap16(c0.sp - 1)),
        in_plain_ram(wrap16(c0.sp - 2)),
        c1.sp == wrap16(c0.sp - 2),
        c0.mem.write_post(&m, wrap16(c0.sp - 1), hi_byte(v)),
        m.write_post(&c1.mem, wrap16(c0.sp - 2), lo_byte(v)),
    ensures
        c1.top_of_stack() == v,
        wrap16(c1.sp + 2) == c0.sp,
        forall|a: u16|
            #![trigger c1.mem.spec_read(a)]
            in_plain_ram(a) && ram_slot(c0.mem, a) != ram_slot(c0.mem, wrap16(c0.sp - 1)) && ram_slot(c0.mem, a)
                != ram_slot(c0.mem, wrap16(c0.sp - 2)) ==> c1.mem.spec_read(a) == c0.mem.spec_read(a),
{
    let hi = wrap16(c0.sp - 1);
    let lo = wrap16(c0.sp - 2);
    assert(hi == lo + 1);
    assert(ram_slot(c0.mem, hi) != ram_slot(c0.mem, lo));
    assert(m.wram_bank == c0.mem.wram_bank);
    crate::registers::lemma_pair_split(v);
}

} // verus!
