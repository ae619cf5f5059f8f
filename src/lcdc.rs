use vstd::prelude::*;

verus! {

/// The LCD control register, bit 7 down to bit 0.
#[derive(Copy, Clone, Debug, PartialEq, Eq, Structural)]
pub struct Lcdc {
    pub display_enabled: bool,
    pub window_tile_map: bool,
    pub window_display_enabled: bool,
    pub bg_window_tile_data: bool,
    pub bg_tile_map: bool,
    pub sprite_size: bool,
    pub object_display_enabled: bool,
    pub bg_window_enabled: bool,
}

pub open spec fn flag(b: bool, m: u8) -> u8 {
    if b {
        m
    } else {
        0
    }
}

impl Lcdc {
    pub open spec fn spec_to_byte(self) -> u8 {
        (flag(self.display_enabled, 0x80) | flag(self.window_tile_map, 0x40) | flag(
            self.window_display_enabled,
            0x20,
        ) | flag(self.bg_window_tile_data, 0x10) | flag(self.bg_tile_map, 0x08) | flag(
            self.sprite_size,
            0x04,
        ) | flag(self.object_display_enabled, 0x02) | flag(self.bg_window_enabled, 0x01)) as u8
    }

    pub open spec fn spec_from_byte(byte: u8) -> Lcdc {
        Lcdc {
            display_enabled: byte & 0x80 != 0,
            window_tile_map: byte & 0x40 != 0,
            window_display_enabled: byte & 0x20 != 0,
            bg_window_tile_data: byte & 0x10 != 0,
            bg_tile_map: byte & 0x08 != 0,
            sprite_size: byte & 0x04 != 0,
            object_display_enabled: byte & 0x02 != 0,
            bg_window_enabled: byte & 0x01 != 0,
        }
    }

    pub fn new() -> (r: Lcdc)
        ensures
            r == Lcdc::spec_from_byte(0),
    {
        let r = Lcdc {
            display_enabled: false,
            window_tile_map: false,
            window_display_enabled: false,
            bg_window_tile_data: false,
            bg_tile_map: false,
            sprite_size: false,
            object_display_enabled: false,
            bg_window_enabled: false,
        };
        assert(0u8 & 0x80 == 0 && 0u8 & 0x40 == 0 && 0u8 & 0x20 == 0 && 0u8 & 0x10 == 0 && 0u8 & 0x08
            == 0 && 0u8 & 0x04 == 0 && 0u8 & 0x02 == 0 && 0u8 & 0x01 == 0) by (bit_vector);
        r
    }

    pub fn to_byte(&self) -> (r: u8)
        ensures
            r == self.spec_to_byte(),
    {
        (if self.display_enabled { 0x80u8 } else { 0 }) | (if self.window_tile_map { 0x40u8 } else { 0 })
            | (if self.window_display_enabled { 0x20u8 } else { 0 }) | (if self.bg_window_tile_data {
            0x10u8
        } else {
            0
        }) | (if self.bg_tile_map { 0x08u8 } else { 0 }) | (if self.sprite_size { 0x04u8 } else { 0 })
            | (if self.object_display_enabled { 0x02u8 } else { 0 }) | (if self.bg_window_enabled {
            0x01u8
        } else {
            0
        })
    }

    pub fn from_byte(&mut self, byte: u8)
        ensures
            *final(self) == Lcdc::spec_from_byte(byte),
    {
        self.display_enabled = byte & 0x80 != 0;
        self.window_tile_map = byte & 0x40 != 0;
        self.window_display_enabled = byte & 0x20 != 0;
        self.bg_window_tile_data = byte & 0x10 != 0;
        self.bg_tile_map = byte & 0x08 != 0;
        self.sprite_size = byte & 0x04 != 0;
        self.object_display_enabled = byte & 0x02 != 0;
        self.bg_window_enabled = byte & 0x01 != 0;
    }
}

} // verus!
