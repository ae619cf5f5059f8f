use vstd::prelude::*;

use crate::flags_register::FlagsRegister;

verus! {

/// The eight 8-bit CPU registers; F is kept as its four flags.
#[derive(Copy, Clone, Debug, PartialEq, Eq, Structural)]
pub struct Registers {
    pub a: u8,
    pub b: u8,
    pub c: u8,
    pub d: u8,
    pub e: u8,
    pub f: FlagsRegister,
    pub h: u8,
    pub l: u8,
}

pub open spec fn pair(hi: u8, lo: u8) -> u16 {
    (hi as int * 256 + lo as int) as u16
}

pub open spec fn hi_byte(v: u16) -> u8 {
    (v as int / 256) as u8
}

pub open spec fn lo_byte(v: u16) -> u8 {
    (v as int % 256) as u8
}

/// Splitting a word into its two bytes and joining them again gives the word back.
pub proof fn lemma_pair_split(v: u16)
    ensures
        pair(hi_byte(v), lo_byte(v)) == v,
{
}

impl Registers {
    pub open spec fn af(self) -> u16 {
        pair(self.a, self.f.spec_to_byte())
    }

    pub open spec fn bc(self) -> u16 {
        pair(self.b, self.c)
    }

    pub open spec fn de(self) -> u16 {
        pair(self.d, self.e)
    }

    pub open spec fn hl(self) -> u16 {
        pair(self.h, self.l)
    }

    pub open spec fn new_spec() -> Registers {
        Registers {
            a: 0x11,
            b: 0x00,
            c: 0x00,
            d: 0xFF,
            e: 0x56,
            f: FlagsRegister { z: true, n: false, h: false, c: false },
            h: 0x00,
            l: 0x0D,
        }
    }

    pub fn new() -> (r: Registers)
        ensures
            r == Registers::new_spec(),
    {
        Registers {
            a: 0x11,
            b: 0x00,
            c: 0x00,
            d: 0xFF,
            e: 0x56,
            f: FlagsRegister::new(),
            h: 0x00,
            l: 0x0D,
        }
    }

    pub fn get_af(&self) -> (r: u16)
        ensures
            r == self.af(),
    {
        (self.a as u16) * 256 + (self.f.to_byte() as u16)
    }

    /// Sets A and F; the low nibble of the F byte is dropped.
    pub fn set_af(&mut self, value: u16)
        ensures
            *final(self) == (Registers {
                a: hi_byte(value),
                f: FlagsRegister::spec_from_byte(lo_byte(value)),
                ..*old(self)
            }),
    {
        self.a = (value / 256) as u8;
        self.f = FlagsRegister::from_byte((value % 256) as u8);
    }

    pub fn get_bc(&self) -> (r: u16)
        ensures
            r == self.bc(),
    {
        (self.b as u16) * 256 + (self.c as u16)
    }

    pub fn set_bc(&mut self, value: u16)
        ensures
            *final(self) == (Registers { b: hi_byte(value), c: lo_byte(value), ..*old(self) }),
    {
        self.b = (value / 256) as u8;
        self.c = (value % 256) as u8;
    }

    pub fn get_de(&self) -> (r: u16)
        ensures
            r == self.de(),
    {
        (self.d as u16) * 256 + (self.e as u16)
    }

    pub fn set_de(&mut self, value: u16)
        ensures
            *final(self) == (Registers { d: hi_byte(value), e: lo_byte(value), ..*old(self) }),
    {
        self.d = (value / 256) as u8;
        self.e = (value % 256) as u8;
    }

    pub fn get_hl(&self) -> (r: u16)
        ensures
            r == self.hl(),
    {
        (self.h as u16) * 256 + (self.l as u16)
    }

    pub fn set_hl(&mut self, value: u16)
        ensures
            *final(self) == (Registers { h: hi_byte(value), l: lo_byte(value), ..*old(self) }),
    {
        self.h = (value / 256) as u8;
        self.l = (value % 256) as u8;
    }
}

/// Setting AF from a popped word makes A its high byte, and F's low nibble reads as zero
/// whatever the low byte was.
pub proof fn lemma_pop_af_low_nibble(regs: Registers, value: u16)
    ensures
        ({
            let r = Registers {
                a: hi_byte(value),
                f: FlagsRegister::spec_from_byte(lo_byte(value)),
                ..regs
            };
            r.a == hi_byte(value) && r.af() % 16 == 0 && r.f.spec_to_byte() & 0x0F == 0
                && r.f.spec_to_byte() & 0xF0 == lo_byte(value) & 0xF0
        }),
{
    let b = lo_byte(value);
    let f = FlagsRegister::spec_from_byte(b);
    crate::flags_register::lemma_flags_round_trip(f);
    let p = f.spec_to_byte();
    assert(p == crate::flags_register::pack(b & 0x80 != 0, b & 0x40 != 0, b & 0x20 != 0, b & 0x10 != 0));
    assert(crate::flags_register::pack(b & 0x80 != 0, b & 0x40 != 0, b & 0x20 != 0, b & 0x10 != 0) & 0xF0
        == b & 0xF0) by (bit_vector);
    assert(p & 0x0F == 0 ==> p % 16 == 0) by (bit_vector);
}

} // verus!
