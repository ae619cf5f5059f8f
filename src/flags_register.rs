use vstd::prelude::*;

verus! {

/// The four CPU condition flags kept in the high nibble of register F.
#[derive(Copy, Clone, Debug, PartialEq, Eq, Structural)]
pub struct FlagsRegister {
    pub z: bool,
    pub n: bool,
    pub h: bool,
    pub c: bool,
}

impl FlagsRegister {
    /// The packed byte: Z in bit 7, N in bit 6, H in bit 5, C in bit 4, low nibble zero.
    pub open spec fn spec_to_byte(self) -> u8 {
        pack(self.z, self.n, self.h, self.c)
    }

    pub open spec fn spec_from_byte(byte: u8) -> FlagsRegister {
        FlagsRegister {
            z: byte & 0x80 != 0,
            n: byte & 0x40 != 0,
            h: byte & 0x20 != 0,
            c: byte & 0x10 != 0,
        }
    }

    pub fn new() -> (r: FlagsRegister)
        ensures
            r == (FlagsRegister { z: true, n: false, h: false, c: false }),
    {
        FlagsRegister { z: true, n: false, h: false, c: false }
    }

    pub fn from_byte(byte: u8) -> (r: FlagsRegister)
        ensures
            r == FlagsRegister::spec_from_byte(byte),
    {
        FlagsRegister {
            z: byte & 0x80 != 0,
            n: byte & 0x40 != 0,
            h: byte & 0x20 != 0,
            c: byte & 0x10 != 0,
        }
    }

    pub fn to_byte(&self) -> (r: u8)
        ensures
            r == self.spec_to_byte(),
            r & 0x0F == 0,
    {
        let r: u8 = (if self.z { 0x80u8 } else { 0u8 }) | (if self.n { 0x40u8 } else { 0u8 })
            | (if self.h { 0x20u8 } else { 0u8 }) | (if self.c { 0x10u8 } else { 0u8 });
        proof {
            lemma_pack_flags(self.z, self.n, self.h, self.c);
        }
        r
    }
}

pub open spec fn pack(z: bool, n: bool, h: bool, c: bool) -> u8 {
    ((if z { 0x80u8 } else { 0u8 }) | (if n { 0x40u8 } else { 0u8 }) | (if h { 0x20u8 } else { 0u8 })
        | (if c { 0x10u8 } else { 0u8 })) as u8
}

proof fn lemma_pack_flags(z: bool, n: bool, h: bool, c: bool)
    ensures
        pack(z, n, h, c) & 0x0F == 0,
        (pack(z, n, h, c) & 0x80 != 0) == z,
        (pack(z, n, h, c) & 0x40 != 0) == n,
        (pack(z, n, h, c) & 0x20 != 0) == h,
        (pack(z, n, h, c) & 0x10 != 0) == c,
{
    let b = pack(z, n, h, c);
    assert(b & 0x0F == 0 && (b & 0x80 != 0) == z && (b & 0x40 != 0) == n && (b & 0x20 != 0) == h
        && (b & 0x10 != 0) == c) by (bit_vector)
        requires
            b == ((if z { 0x80u8 } else { 0u8 }) | (if n { 0x40u8 } else { 0u8 }) | (if h { 0x20u8 } else { 0u8 })
                | (if c { 0x10u8 } else { 0u8 })) as u8,
    ;
}

/// Packing the flags into a byte and reading them back gives the same flags.
pub proof fn lemma_flags_round_trip(f: FlagsRegister)
    ensures
        FlagsRegister::spec_from_byte(f.spec_to_byte()) == f,
        f.spec_to_byte() & 0x0F == 0,
{
    lemma_pack_flags(f.z, f.n, f.h, f.c);
}

} // verus!
