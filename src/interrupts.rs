use vstd::prelude::*;

verus! {

/// The five interrupt sources, as held by the IE and IF registers.
#[derive(Copy, Clone, Debug, PartialEq, Eq, Structural)]
pub struct InterruptFlags {
    pub vblank: bool,
    pub lcd_stat: bool,
    pub timer: bool,
    pub serial: bool,
    pub joypad: bool,
}

impl InterruptFlags {
    /// Bit 0 V-blank, bit 1 LCD-STAT, bit 2 timer, bit 3 serial, bit 4 joypad.
    pub open spec fn spec_to_byte(self) -> u8 {
        ((if self.vblank { 0x01u8 } else { 0u8 }) | (if self.lcd_stat { 0x02u8 } else { 0u8 })
            | (if self.timer { 0x04u8 } else { 0u8 }) | (if self.serial { 0x08u8 } else { 0u8 })
            | (if self.joypad { 0x10u8 } else { 0u8 })) as u8
    }

    pub open spec fn spec_from_byte(byte: u8) -> InterruptFlags {
        InterruptFlags {
            vblank: byte & 0x01 != 0,
            lcd_stat: byte & 0x02 != 0,
            timer: byte & 0x04 != 0,
            serial: byte & 0x08 != 0,
            joypad: byte & 0x10 != 0,
        }
    }

    pub fn new() -> (r: InterruptFlags)
        ensures
            r == (InterruptFlags {
                vblank: false,
                lcd_stat: false,
                timer: false,
                serial: false,
                joypad: false,
            }),
    {
        InterruptFlags { vblank: false, lcd_stat: false, timer: false, serial: false, joypad: false }
    }

    pub fn from_byte(&mut self, byte: u8)
        ensures
            *final(self) == InterruptFlags::spec_from_byte(byte),
    {
        self.vblank = (byte & 0x01) != 0;
        self.lcd_stat = (byte & 0x02) != 0;
        self.timer = (byte & 0x04) != 0;
        self.serial = (byte & 0x08) != 0;
        self.joypad = (byte & 0x10) != 0;
    }

    pub fn to_byte(&self) -> (r: u8)
        ensures
            r == self.spec_to_byte(),
    {
        let mut result: u8 = 0;
        if self.vblank {
            result = result | 0x01;
        }
        if self.lcd_stat {
            result = result | 0x02;
        }
        if self.timer {
            result = result | 0x04;
        }
        if self.serial {
            result = result | 0x08;
        }
        if self.joypad {
            result = result | 0x10;
        }
        proof {
            lemma_pack_interrupts(self.vblank, self.lcd_stat, self.timer, self.serial, self.joypad);
        }
        result
    }
}

proof fn lemma_pack_interrupts(v: bool, l: bool, t: bool, s: bool, j: bool)
    ensures
        ({
            let r0: u8 = 0;
            let r1: u8 = if v { r0 | 0x01 } else { r0 };
            let r2: u8 = if l { r1 | 0x02 } else { r1 };
            let r3: u8 = if t { r2 | 0x04 } else { r2 };
            let r4: u8 = if s { r3 | 0x08 } else { r3 };
            let r5: u8 = if j { r4 | 0x10 } else { r4 };
            r5 == ((if v { 0x01u8 } else { 0u8 }) | (if l { 0x02u8 } else { 0u8 })
                | (if t { 0x04u8 } else { 0u8 }) | (if s { 0x08u8 } else { 0u8 })
                | (if j { 0x10u8 } else { 0u8 })) as u8
        }),
{
    let r0: u8 = 0;
    let r1: u8 = if v { r0 | 0x01 } else { r0 };
    let r2: u8 = if l { r1 | 0x02 } else { r1 };
    let r3: u8 = if t { r2 | 0x04 } else { r2 };
    let r4: u8 = if s { r3 | 0x08 } else { r3 };
    let r5: u8 = if j { r4 | 0x10 } else { r4 };
    assert(r5 == ((if v { 0x01u8 } else { 0u8 }) | (if l { 0x02u8 } else { 0u8 })
        | (if t { 0x04u8 } else { 0u8 }) | (if s { 0x08u8 } else { 0u8 })
        | (if j { 0x10u8 } else { 0u8 })) as u8) by (bit_vector)
        requires
            r0 == 0,
            r1 == if v { r0 | 0x01 } else { r0 },
            r2 == if l { r1 | 0x02 } else { r1 },
            r3 == if t { r2 | 0x04 } else { r2 },
            r4 == if s { r3 | 0x08 } else { r3 },
            r5 == if j { r4 | 0x10 } else { r4 },
    ;
}

} // verus!
