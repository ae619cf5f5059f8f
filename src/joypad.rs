use vstd::prelude::*;

verus! {

#[derive(Copy, Clone, Debug, PartialEq, Eq, Structural)]
pub enum Key {
    Up,
    Down,
    Left,
    Right,
    A,
    B,
    Start,
    Select,
}

impl Key {
    /// Whether the key sits in the action nibble (A, B, Select, Start).
    pub open spec fn is_action(self) -> bool {
        matches!(self, Key::A | Key::B | Key::Select | Key::Start)
    }

    /// The key's bit within its nibble.
    pub open spec fn mask(self) -> u8 {
        match self {
            Key::A | Key::Right => 0x01,
            Key::B | Key::Left => 0x02,
            Key::Select | Key::Up => 0x04,
            Key::Start | Key::Down => 0x08,
        }
    }
}

/// Button state: two low-active nibbles and the selector last written to JOYP ($FF00).
#[derive(Copy, Clone, Debug, PartialEq, Eq, Structural)]
pub struct Joypad {
    pub action_buttons: u8,
    pub direction_buttons: u8,
    pub selected_buttons: u8,
}

impl Joypad {
    pub open spec fn wf(self) -> bool {
        self.action_buttons <= 0x0F && self.direction_buttons <= 0x0F
    }

    /// What a read of JOYP ($FF00) returns.
    pub open spec fn spec_read_input(self) -> u8 {
        let sel = self.selected_buttons & 0x30;
        if sel == 0x30 {
            0xCF
        } else if sel == 0x20 {
            (0x20 | self.action_buttons) as u8
        } else if sel == 0x10 {
            (0x10 | self.direction_buttons) as u8
        } else {
            0x00
        }
    }

    pub fn new() -> (r: Joypad)
        ensures
            r == (Joypad { action_buttons: 0x0F, direction_buttons: 0x0F, selected_buttons: 0xF0 }),
            r.wf(),
    {
        Joypad { action_buttons: 0x0F, direction_buttons: 0x0F, selected_buttons: 0xF0 }
    }

    /// Clears the key's bit: a pressed key reads as 0.
    pub fn push_button(&mut self, key: Key)
        requires
            old(self).wf(),
        ensures
            final(self).wf(),
            final(self).selected_buttons == old(self).selected_buttons,
            key.is_action() ==> final(self).action_buttons == old(self).action_buttons & !key.mask()
                && final(self).direction_buttons == old(self).direction_buttons,
            !key.is_action() ==> final(self).direction_buttons == old(self).direction_buttons
                & !key.mask() && final(self).action_buttons == old(self).action_buttons,
    {
        let old_a = self.action_buttons;
        let old_d = self.direction_buttons;
        match key {
            Key::A => self.action_buttons = self.action_buttons & !0x01u8,
            Key::B => self.action_buttons = self.action_buttons & !0x02u8,
            Key::Select => self.action_buttons = self.action_buttons & !0x04u8,
            Key::Start => self.action_buttons = self.action_buttons & !0x08u8,
            Key::Right => self.direction_buttons = self.direction_buttons & !0x01u8,
            Key::Left => self.direction_buttons = self.direction_buttons & !0x02u8,
            Key::Up => self.direction_buttons = self.direction_buttons & !0x04u8,
            Key::Down => self.direction_buttons = self.direction_buttons & !0x08u8,
        }
        assert(forall|x: u8, m: u8| x <= 0x0F ==> #[trigger] (x & !m) <= 0x0F) by (bit_vector);
    }

    /// Sets the key's bit: a released key reads as 1.
    pub fn release_button(&mut self, key: Key)
        requires
            old(self).wf(),
        ensures
            final(self).wf(),
            final(self).selected_buttons == old(self).selected_buttons,
            key.is_action() ==> final(self).action_buttons == old(self).action_buttons | key.mask()
                && final(self).direction_buttons == old(self).direction_buttons,
            !key.is_action() ==> final(self).direction_buttons == old(self).direction_buttons
                | key.mask() && final(self).action_buttons == old(self).action_buttons,
    {
        match key {
            Key::A => self.action_buttons = self.action_buttons | 0x01,
            Key::B => self.action_buttons = self.action_buttons | 0x02,
            Key::Select => self.action_buttons = self.action_buttons | 0x04,
            Key::Start => self.action_buttons = self.action_buttons | 0x08,
            Key::Right => self.direction_buttons = self.direction_buttons | 0x01,
            Key::Left => self.direction_buttons = self.direction_buttons | 0x02,
            Key::Up => self.direction_buttons = self.direction_buttons | 0x04,
            Key::Down => self.direction_buttons = self.direction_buttons | 0x08,
        }
        assert(forall|x: u8, m: u8| x <= 0x0F && m <= 0x0F ==> #[trigger] (x | m) <= 0x0F)
            by (bit_vector);
    }

    /// JOYP read: the selector bits with the chosen nibble; $CF when neither group is selected
    /// and $00 when both are.
    pub fn read_input(&self) -> (r: u8)
        ensures
            r == self.spec_read_input(),
    {
        let value = self.selected_buttons & 0x30;
        if value == 0x30 {
            0xCF
        } else if value == 0x20 {
            0x20 | self.action_buttons
        } else if value == 0x10 {
            0x10 | self.direction_buttons
        } else {
            0x00
        }
    }

    pub fn write(&mut self, value: u8)
        ensures
            *final(self) == (Joypad { selected_buttons: value, ..*old(self) }),
    {
        self.selected_buttons = value;
    }
}

} // verus!
