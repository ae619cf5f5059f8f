use vstd::prelude::*;

verus! {

/// Why a ROM image could not become a cartridge.
#[derive(Copy, Clone, Debug, PartialEq, Eq, Structural)]
pub enum CartridgeError {
    /// The image is shorter than its header.
    RomTooSmall,
    /// The header names a memory bank controller that is not implemented.
    UnsupportedType(u8),
    /// The save data given does not have the size that the header declares.
    SaveSizeMismatch,
}

pub const HEADER_END: usize = 0x150;

pub open spec fn spec_ram_size(code: u8) -> usize {
    if code == 0x01 {
        0x800
    } else if code == 0x02 {
        0x2000
    } else if code == 0x03 {
        0x8000
    } else if code == 0x04 {
        0x20000
    } else if code == 0x05 {
        0x10000
    } else {
        0
    }
}

/// The cartridge RAM size that header byte $0149 declares, if any.
pub fn get_ram_size(rom: &Vec<u8>) -> (r: Option<usize>)
    requires
        rom.len() >= HEADER_END,
    ensures
        spec_ram_size(rom@[0x149]) == 0 ==> r.is_none(),
        spec_ram_size(rom@[0x149]) != 0 ==> r == Some(spec_ram_size(rom@[0x149])),
{
    match rom[0x149] {
        0x01 => Some(2 * 1024),
        0x02 => Some(8 * 1024),
        0x03 => Some(32 * 1024),
        0x04 => Some(128 * 1024),
        0x05 => Some(64 * 1024),
        _ => None,
    }
}

pub open spec fn spec_has_ram(cartridge_type: u8) -> bool {
    cartridge_type == 0x02 || cartridge_type == 0x03 || cartridge_type == 0x10 || cartridge_type
        == 0x12 || cartridge_type == 0x13
}

/// The size of the RAM (and of its save data) that a cartridge built from this image holds.
pub open spec fn spec_cartridge_ram_size(rom: Seq<u8>) -> usize {
    if spec_has_ram(rom[0x147]) {
        spec_ram_size(rom[0x149])
    } else {
        0
    }
}

pub fn cartridge_ram_size(rom: &Vec<u8>) -> (r: usize)
    requires
        rom.len() >= HEADER_END,
    ensures
        r == spec_cartridge_ram_size(rom@),
{
    let t = rom[0x147];
    if t == 0x02 || t == 0x03 || t == 0x10 || t == 0x12 || t == 0x13 {
        match get_ram_size(rom) {
            Some(size) => size,
            None => 0,
        }
    } else {
        0
    }
}

/// Byte `i` of `s`, or $FF past its end.
pub open spec fn byte_or_ff(s: Seq<u8>, i: int) -> u8 {
    if 0 <= i < s.len() {
        s[i]
    } else {
        0xFF
    }
}

fn read_or_ff(v: &Vec<u8>, i: usize) -> (r: u8)
    ensures
        r == byte_or_ff(v@, i as int),
{
    if i < v.len() {
        v[i]
    } else {
        0xFF
    }
}

fn write_if_in(v: &mut Vec<u8>, i: usize, value: u8)
    ensures
        final(v)@ == if i < old(v)@.len() {
            old(v)@.update(i as int, value)
        } else {
            old(v)@
        },
{
    if i < v.len() {
        v.set(i, value);
    }
}

/// A cartridge without a memory bank controller.
pub struct RomOnlyCartridge {
    pub rom: Vec<u8>,
    pub cgb_flag: u8,
}

impl RomOnlyCartridge {
    pub fn new(rom: Vec<u8>) -> (r: RomOnlyCartridge)
        requires
            rom.len() >= HEADER_END,
        ensures
            r.rom@ == rom@,
            r.cgb_flag == rom@[0x143],
    {
        let cgb_flag = rom[0x143];
        RomOnlyCartridge { rom, cgb_flag }
    }
}

/// An MBC1 controller: 5 low ROM bank bits, 2 upper bits shared with the RAM bank, a mode bit.
pub struct MBC1 {
    pub rom: Vec<u8>,
    pub ram: Vec<u8>,
    pub ram_bank: u8,
    pub rom_bank: u8,
    pub rom_bank_high: u8,
    pub ram_enabled: bool,
    pub cgb_flag: u8,
    pub mode: u8,
    pub rom_size: u8,
}

impl MBC1 {
    pub open spec fn wf(&self) -> bool {
        1 <= self.rom_bank <= 0x1F && self.rom_bank_high <= 3 && self.ram_bank <= 3 && self.mode <= 1
    }

    /// The ROM bank that $4000–$7FFF shows.
    pub open spec fn spec_bank(&self) -> int {
        self.rom_bank_high * 32 + self.rom_bank
    }

    pub fn new(rom: Vec<u8>, ram: Vec<u8>) -> (r: MBC1)
        requires
            rom.len() >= HEADER_END,
        ensures
            r.wf(),
            r.rom@ == rom@,
            r.ram@ == ram@,
            r.rom_bank == 1 && r.rom_bank_high == 0 && r.ram_bank == 0 && r.mode == 0,
            !r.ram_enabled,
            r.cgb_flag == rom@[0x143],
            r.rom_size == rom@[0x148],
    {
        let cgb_flag = rom[0x143];
        let rom_size = rom[0x148];
        MBC1 {
            rom,
            ram,
            ram_bank: 0,
            rom_bank: 1,
            rom_bank_high: 0,
            ram_enabled: false,
            cgb_flag,
            mode: 0,
            rom_size,
        }
    }
}

/// An MBC3 controller: a 7-bit ROM bank and a RAM bank or clock register select.
pub struct MBC3 {
    pub rom: Vec<u8>,
    pub ram: Vec<u8>,
    pub ram_bank: u8,
    pub rom_bank: u8,
    pub ram_enabled: bool,
    pub cgb_flag: u8,
    pub rtc_selected: bool,
}

impl MBC3 {
    pub open spec fn wf(&self) -> bool {
        1 <= self.rom_bank <= 0x7F && self.ram_bank <= 3
    }

    pub fn new(rom: Vec<u8>, ram: Vec<u8>) -> (r: MBC3)
        requires
            rom.len() >= HEADER_END,
        ensures
            r.wf(),
            r.rom@ == rom@,
            r.ram@ == ram@,
            r.rom_bank == 1 && r.ram_bank == 0 && !r.rtc_selected && !r.ram_enabled,
            r.cgb_flag == rom@[0x143],
    {
        let cgb_flag = rom[0x143];
        MBC3 { rom, ram, ram_bank: 0, rom_bank: 1, ram_enabled: false, cgb_flag, rtc_selected: false }
    }
}

/// A cartridge, by the controller that header byte $0147 names.
pub enum Cartridge {
    RomOnly(RomOnlyCartridge),
    Mbc1(MBC1),
    Mbc3(MBC3),
}

/// Builds the cartridge that the header of `rom` describes, with `save` as its RAM.
pub fn new_cartridge(rom: Vec<u8>, save: Vec<u8>) -> (r: Result<Cartridge, CartridgeError>)
    ensures
        rom@.len() < HEADER_END ==> r == Err::<Cartridge, CartridgeError>(CartridgeError::RomTooSmall),
        rom@.len() >= HEADER_END ==> {
            let t = rom@[0x147];
            &&& !(t == 0x00 || (0x01 <= t <= 0x03) || (0x0F <= t <= 0x13)) ==> r == Err::<
                Cartridge,
                CartridgeError,
            >(CartridgeError::UnsupportedType(t))
            &&& (t == 0x00 || (0x01 <= t <= 0x03) || (0x0F <= t <= 0x13)) && save@.len()
                != spec_cartridge_ram_size(rom@) ==> r == Err::<Cartridge, CartridgeError>(
                CartridgeError::SaveSizeMismatch,
            )
            &&& (t == 0x00 || (0x01 <= t <= 0x03) || (0x0F <= t <= 0x13)) && save@.len()
                == spec_cartridge_ram_size(rom@) ==> r is Ok && r->Ok_0.wf() && r->Ok_0.rom()
                == rom@ && r->Ok_0.cgb_flag() == rom@[0x143] && (t == 0x00 <==> r->Ok_0 is RomOnly)
                && ((0x01 <= t <= 0x03) <==> r->Ok_0 is Mbc1)
                && ((0x0F <= t <= 0x13) <==> r->Ok_0 is Mbc3)
        },
{
    if rom.len() < HEADER_END {
        return Err(CartridgeError::RomTooSmall);
    }
    let t = rom[0x147];
    if !(t == 0x00 || (0x01 <= t && t <= 0x03) || (0x0F <= t && t <= 0x13)) {
        return Err(CartridgeError::UnsupportedType(t));
    }
    if save.len() != cartridge_ram_size(&rom) {
        return Err(CartridgeError::SaveSizeMismatch);
    }
    if t == 0x00 {
        Ok(Cartridge::RomOnly(RomOnlyCartridge::new(rom)))
    } else if t <= 0x03 {
        Ok(Cartridge::Mbc1(MBC1::new(rom, save)))
    } else {
        Ok(Cartridge::Mbc3(MBC3::new(rom, save)))
    }
}

impl Cartridge {
    pub open spec fn wf(&self) -> bool {
        match self {
            Cartridge::RomOnly(_) => true,
            Cartridge::Mbc1(c) => c.wf(),
            Cartridge::Mbc3(c) => c.wf(),
        }
    }

    pub open spec fn rom(&self) -> Seq<u8> {
        match self {
            Cartridge::RomOnly(c) => c.rom@,
            Cartridge::Mbc1(c) => c.rom@,
            Cartridge::Mbc3(c) => c.rom@,
        }
    }

    pub open spec fn ram(&self) -> Seq<u8> {
        match self {
            Cartridge::RomOnly(_) => Seq::empty(),
            Cartridge::Mbc1(c) => c.ram@,
            Cartridge::Mbc3(c) => c.ram@,
        }
    }

    pub open spec fn cgb_flag(&self) -> u8 {
        match self {
            Cartridge::RomOnly(c) => c.cgb_flag,
            Cartridge::Mbc1(c) => c.cgb_flag,
            Cartridge::Mbc3(c) => c.cgb_flag,
        }
    }

    /// The ROM bank that $4000–$7FFF shows.
    pub open spec fn rom_bank(&self) -> int {
        match self {
            Cartridge::RomOnly(_) => 1,
            Cartridge::Mbc1(c) => c.spec_bank(),
            Cartridge::Mbc3(c) => c.rom_bank as int,
        }
    }

    /// What a read of `address` in $0000–$7FFF returns; bytes past the image read as $FF.
    pub open spec fn spec_read(&self, address: u16) -> u8 {
        if address < 0x4000 {
            byte_or_ff(self.rom(), address as int)
        } else {
            byte_or_ff(self.rom(), self.rom_bank() * 0x4000 + (address - 0x4000))
        }
    }

    /// Index into the RAM that $A000 + `offset` reaches, when RAM is mapped there.
    pub open spec fn ram_index(&self, address: u16) -> int {
        match self {
            Cartridge::RomOnly(_) => 0,
            Cartridge::Mbc1(c) => (if c.mode == 0 { 0 } else { c.ram_bank as int }) * 0x2000
                + (address - 0xA000),
            Cartridge::Mbc3(c) => c.ram_bank as int * 0x2000 + (address - 0xA000),
        }
    }

    /// What a read of `address` in $A000–$BFFF returns.
    pub open spec fn spec_read_ram(&self, address: u16) -> u8 {
        match self {
            Cartridge::RomOnly(_) => 0xFF,
            Cartridge::Mbc1(c) => if !c.ram_enabled {
                0xFF
            } else {
                byte_or_ff(c.ram@, self.ram_index(address))
            },
            Cartridge::Mbc3(c) => if !c.ram_enabled {
                0xFF
            } else if c.rtc_selected {
                0
            } else {
                byte_or_ff(c.ram@, self.ram_index(address))
            },
        }
    }

    /// Whether a write to `address` in $A000–$BFFF reaches the RAM.
    pub open spec fn ram_writable(&self) -> bool {
        match self {
            Cartridge::RomOnly(_) => false,
            Cartridge::Mbc1(c) => c.ram_enabled,
            Cartridge::Mbc3(c) => c.ram_enabled && !c.rtc_selected,
        }
    }

    /// The controller state after a write of `v` to `address` in $0000–$7FFF.
    pub open spec fn spec_write_post(&self, new: &Cartridge, address: u16, v: u8) -> bool {
        match (self, new) {
            (Cartridge::RomOnly(a), Cartridge::RomOnly(b)) => a.rom@ == b.rom@ && a.cgb_flag == b.cgb_flag,
            (Cartridge::Mbc1(a), Cartridge::Mbc1(b)) => {
                &&& b.rom@ == a.rom@ && b.ram@ == a.ram@ && b.cgb_flag == a.cgb_flag
                &&& b.rom_size == a.rom_size
                &&& b.ram_enabled == if address < 0x2000 { v & 0x0F == 0x0A } else { a.ram_enabled }
                &&& b.rom_bank == if 0x2000 <= address < 0x4000 {
                    if v & 0x1F == 0 { 1 } else { v & 0x1F }
                } else {
                    a.rom_bank
                }
                &&& b.rom_bank_high == if 0x4000 <= address < 0x6000 && a.mode == 0 && a.rom_size >= 5 {
                    v & 0x03
                } else {
                    a.rom_bank_high
                }
                &&& b.ram_bank == if 0x4000 <= address < 0x6000 && a.mode == 1 && a.ram@.len() > 0x2000 {
                    v & 0x03
                } else {
                    a.ram_bank
                }
                &&& b.mode == if 0x6000 <= address { v & 0x01 } else { a.mode }
            },
            (Cartridge::Mbc3(a), Cartridge::Mbc3(b)) => {
                &&& b.rom@ == a.rom@ && b.ram@ == a.ram@ && b.cgb_flag == a.cgb_flag
                &&& b.ram_enabled == if address < 0x2000 { v & 0x0F == 0x0A } else { a.ram_enabled }
                &&& b.rom_bank == if 0x2000 <= address < 0x4000 {
                    if v & 0x7F == 0 { 1 } else { v & 0x7F }
                } else {
                    a.rom_bank
                }
                &&& b.ram_bank == if 0x4000 <= address < 0x6000 && v <= 3 { v } else { a.ram_bank }
                &&& b.rtc_selected == if 0x4000 <= address < 0x6000 { v > 3 } else { a.rtc_selected }
            },
            _ => false,
        }
    }

    /// A write to $0000–$7FFF: it sets banking latches and never changes the ROM.
    pub fn write(&mut self, address: u16, value: u8)
        requires
            old(self).wf(),
            address < 0x8000,
        ensures
            final(self).wf(),
            old(self).spec_write_post(final(self), address, value),
            final(self).rom() == old(self).rom(),
            final(self).ram() == old(self).ram(),
            final(self).cgb_flag() == old(self).cgb_flag(),
    {
        match self {
            Cartridge::RomOnly(_) => {},
            Cartridge::Mbc1(c) => {
                if address < 0x2000 {
                    c.ram_enabled = value & 0x0F == 0x0A;
                } else if address < 0x4000 {
                    c.rom_bank = if value & 0x1F == 0 { 1 } else { value & 0x1F };
                } else if address < 0x6000 {
                    if c.mode == 0 {
                        if c.rom_size >= 5 {
                            c.rom_bank_high = value & 0x03;
                        }
                    } else if c.ram.len() > 0x2000 {
                        c.ram_bank = value & 0x03;
                    }
                } else {
                    c.mode = value & 0x01;
                }
                assert(value & 0x1F <= 0x1F && value & 0x03 <= 3 && value & 0x01 <= 1) by (bit_vector);
            },
            Cartridge::Mbc3(c) => {
                if address < 0x2000 {
                    c.ram_enabled = value & 0x0F == 0x0A;
                } else if address < 0x4000 {
                    c.rom_bank = if value & 0x7F == 0 { 1 } else { value & 0x7F };
                } else if address < 0x6000 {
                    if value <= 3 {
                        c.rtc_selected = false;
                        c.ram_bank = value;
                    } else {
                        c.rtc_selected = true;
                    }
                }
                assert(value & 0x7F <= 0x7F) by (bit_vector);
            },
        }
    }

    /// The bytes of the cartridge RAM, for writing them back to the save file.
    pub fn ram_bytes(&self) -> (r: &[u8])
        ensures
            r@ == self.ram(),
    {
        match self {
            Cartridge::RomOnly(_) => &[],
            Cartridge::Mbc1(c) => c.ram.as_slice(),
            Cartridge::Mbc3(c) => c.ram.as_slice(),
        }
    }

    pub fn get_cgb_flag(&self) -> (r: u8)
        ensures
            r == self.cgb_flag(),
    {
        match self {
            Cartridge::RomOnly(c) => c.cgb_flag,
            Cartridge::Mbc1(c) => c.cgb_flag,
            Cartridge::Mbc3(c) => c.cgb_flag,
        }
    }

    pub fn read(&self, address: u16) -> (r: u8)
        requires
            self.wf(),
            address < 0x8000,
        ensures
            r == self.spec_read(address),
    {
        let rom = match self {
            Cartridge::RomOnly(c) => &c.rom,
            Cartridge::Mbc1(c) => &c.rom,
            Cartridge::Mbc3(c) => &c.rom,
        };
        if address < 0x4000 {
            read_or_ff(rom, address as usize)
        } else {
            let bank: usize = match self {
                Cartridge::RomOnly(_) => 1,
                Cartridge::Mbc1(c) => c.rom_bank_high as usize * 32 + c.rom_bank as usize,
                Cartridge::Mbc3(c) => c.rom_bank as usize,
            };
            read_or_ff(rom, bank * 0x4000 + (address as usize - 0x4000))
        }
    }

    pub fn read_ram(&self, address: u16) -> (r: u8)
        requires
            self.wf(),
            0xA000 <= address <= 0xBFFF,
        ensures
            r == self.spec_read_ram(address),
    {
        match self {
            Cartridge::RomOnly(_) => 0xFF,
            Cartridge::Mbc1(c) => {
                if !c.ram_enabled {
                    return 0xFF;
                }
                let bank: usize = if c.mode == 0 { 0 } else { c.ram_bank as usize };
                read_or_ff(&c.ram, bank * 0x2000 + (address as usize - 0xA000))
            },
            Cartridge::Mbc3(c) => {
                if !c.ram_enabled {
                    0xFF
                } else if c.rtc_selected {
                    0
                } else {
                    read_or_ff(&c.ram, c.ram_bank as usize * 0x2000 + (address as usize - 0xA000))
                }
            },
        }
    }

    /// The state after a write of `value` to `address` in $A000–$BFFF.
    pub open spec fn write_ram_post(&self, new: &Cartridge, address: u16, value: u8) -> bool {
        &&& new.rom() == self.rom()
        &&& new.cgb_flag() == self.cgb_flag()
        &&& new.rom_bank() == self.rom_bank()
        &&& forall|a: u16| #![auto] 0xA000 <= a <= 0xBFFF ==> new.ram_index(a) == self.ram_index(a)
        &&& new.ram_writable() == self.ram_writable()
        &&& new.ram() == if self.ram_writable() && self.ram_index(address) < self.ram().len() { self.ram().update(self.ram_index(address), value) } else { self.ram() }
        &&& forall|a: u16| #![auto] 0xA000 <= a <= 0xBFFF && !(self.ram_writable() && self.ram_index(address) < self.ram().len()) ==> new.spec_read_ram(a) == self.spec_read_ram(a)
    }

    /// A write to $A000–$BFFF: stored when RAM is enabled and the byte exists, else dropped.
    pub fn write_ram(&mut self, address: u16, value: u8)
        requires
            old(self).wf(),
            0xA000 <= address <= 0xBFFF,
        ensures
            final(self).wf(),
            old(self).write_ram_post(final(self), address, value),
    {
        match self {
            Cartridge::RomOnly(_) => {},
            Cartridge::Mbc1(c) => {
                if c.ram_enabled {
                    let bank: usize = if c.mode == 0 { 0 } else { c.ram_bank as usize };
                    write_if_in(&mut c.ram, bank * 0x2000 + (address as usize - 0xA000), value);
                }
            },
            Cartridge::Mbc3(c) => {
                if c.ram_enabled && !c.rtc_selected {
                    write_if_in(&mut c.ram, c.ram_bank as usize * 0x2000 + (address as usize - 0xA000), value);
                }
            },
        }
    }
}

/// On MBC1, writing a value whose low five bits are zero to $2000–$3FFF stores bank 1, and
/// with the upper bank bits clear, reads of $4000–$7FFF then come from ROM bank 1.
pub proof fn lemma_mbc1_zero_bank_selects_one(c: Cartridge, next: Cartridge, address: u16, v: u8, a: u16)
    requires
        c is Mbc1,
        c.wf(),
        c.spec_write_post(&next, address, v),
        0x2000 <= address < 0x4000,
        v & 0x1F == 0,
        c->Mbc1_0.rom_bank_high == 0,
        0x4000 <= a < 0x8000,
    ensures
        next is Mbc1,
        next->Mbc1_0.rom_bank == 1,
        next.spec_read(a) == byte_or_ff(c.rom(), 0x4000 + (a - 0x4000)),
{
}

} // verus!
