use vstd::prelude::*;

verus! {

/// The PPU mode, in STAT's two low bits: 0 H-blank, 1 V-blank, 2 OAM scan, 3 drawing.
#[derive(Copy, Clone, Debug, PartialEq, Eq, Structural)]
pub enum Mode {
    HorizontalBlank,
    VerticalBlank,
    OAMAccess,
    VRAMAccess,
}

impl Mode {
    pub open spec fn spec_bits(self) -> u8 {
        match self {
            Mode::HorizontalBlank => 0,
            Mode::VerticalBlank => 1,
            Mode::OAMAccess => 2,
            Mode::VRAMAccess => 3,
        }
    }

    pub fn bits(&self) -> (r: u8)
        ensures
            r == self.spec_bits(),
    {
        match self {
            Mode::HorizontalBlank => 0,
            Mode::VerticalBlank => 1,
            Mode::OAMAccess => 2,
            Mode::VRAMAccess => 3,
        }
    }
}

/// The LCD status register: four interrupt-source enables, the LY=LYC flag and the mode.
#[derive(Copy, Clone, Debug, PartialEq, Eq, Structural)]
pub struct Stat {
    pub coincidence_interrupt: bool,
    pub oam_interrupt: bool,
    pub v_blank_interrupt: bool,
    pub h_blank_interrupt: bool,
    pub coincidence_flag: bool,
    pub mode: Mode,
}

impl Stat {
    pub open spec fn spec_to_byte(self) -> u8 {
        ((if self.coincidence_interrupt { 0x40u8 } else { 0u8 }) | (if self.oam_interrupt {
            0x20u8
        } else {
            0u8
        }) | (if self.v_blank_interrupt { 0x10u8 } else { 0u8 }) | (if self.h_blank_interrupt {
            0x08u8
        } else {
            0u8
        }) | (if self.coincidence_flag { 0x04u8 } else { 0u8 }) | self.mode.spec_bits()) as u8
    }

    pub fn new() -> (r: Stat)
        ensures
            r == (Stat {
                coincidence_interrupt: false,
                oam_interrupt: false,
                v_blank_interrupt: false,
                h_blank_interrupt: false,
                coincidence_flag: false,
                mode: Mode::HorizontalBlank,
            }),
    {
        Stat {
            coincidence_interrupt: false,
            oam_interrupt: false,
            v_blank_interrupt: false,
            h_blank_interrupt: false,
            coincidence_flag: false,
            mode: Mode::HorizontalBlank,
        }
    }

    pub fn to_byte(&self) -> (r: u8)
        ensures
            r == self.spec_to_byte(),
    {
        (if self.coincidence_interrupt { 0x40u8 } else { 0u8 }) | (if self.oam_interrupt {
            0x20u8
        } else {
            0u8
        }) | (if self.v_blank_interrupt { 0x10u8 } else { 0u8 }) | (if self.h_blank_interrupt {
            0x08u8
        } else {
            0u8
        }) | (if self.coincidence_flag { 0x04u8 } else { 0u8 }) | self.mode.bits()
    }

    /// A STAT write: only the four source-enable bits (3–6) are taken.
    pub fn from_byte(&mut self, byte: u8)
        ensures
            *final(self) == (Stat {
                coincidence_interrupt: byte & 0x40 != 0,
                oam_interrupt: byte & 0x20 != 0,
                v_blank_interrupt: byte & 0x10 != 0,
                h_blank_interrupt: byte & 0x08 != 0,
                ..*old(self)
            }),
    {
        self.coincidence_interrupt = byte & 0x40 != 0;
        self.oam_interrupt = byte & 0x20 != 0;
        self.v_blank_interrupt = byte & 0x10 != 0;
        self.h_blank_interrupt = byte & 0x08 != 0;
    }
}

} // verus!
