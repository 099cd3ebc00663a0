//! The button matrix behind `P1/JOYP`.
use crate::bus::{BusView, MemorySystem, INT_JOYPAD, REG_IF, REG_JOYP};
use vstd::prelude::*;

verus! {

#[derive(Clone, Copy, Debug, PartialEq, Eq, Hash)]
pub enum Button {
    Up,
    Down,
    Left,
    Right,
    A,
    B,
    Select,
    Start,
}

/// The bit of a button within its nibble: Right/A bit 0, Left/B bit 1,
/// Up/Select bit 2, Down/Start bit 3.
pub open spec fn button_bit(button: Button) -> u8 {
    match button {
        Button::Right | Button::A => 0x01,
        Button::Left | Button::B => 0x02,
        Button::Up | Button::Select => 0x04,
        Button::Down | Button::Start => 0x08,
    }
}

pub open spec fn is_direction(button: Button) -> bool {
    match button {
        Button::Up | Button::Down | Button::Left | Button::Right => true,
        _ => false,
    }
}

fn bit_of_button(button: Button) -> (r: u8)
    ensures
        r == button_bit(button),
{
    match button {
        Button::Right | Button::A => 0x01,
        Button::Left | Button::B => 0x02,
        Button::Up | Button::Select => 0x04,
        Button::Down | Button::Start => 0x08,
    }
}

/// The value of `P1/JOYP` composed from the select bits present in memory
/// and the two key nibbles (a key reads 0 while held).
pub open spec fn compose(joyp: u8, d_pad: u8, buttons: u8) -> u8 {
    let base = joyp | 0x0F;
    let with_pad = if base & 0x10 == 0 {
        base & (0xF0 | d_pad)
    } else {
        base
    };
    if with_pad & 0x20 == 0 {
        with_pad & (0xF0 | buttons)
    } else {
        with_pad
    }
}

/// Key state of the D-pad and of the buttons, and the last composed value.
pub struct Joypad {
    buttons: u8,
    d_pad: u8,
    prev: u8,
}

impl Default for Joypad {
    fn default() -> (r: Self)
        ensures
            r.spec_buttons() == 0x0F,
            r.spec_d_pad() == 0x0F,
            r.spec_prev() == 0x0F,
    {
        Joypad::new()
    }
}

impl Joypad {
    pub closed spec fn spec_buttons(self) -> u8 {
        self.buttons
    }

    pub closed spec fn spec_d_pad(self) -> u8 {
        self.d_pad
    }

    pub closed spec fn spec_prev(self) -> u8 {
        self.prev
    }

    /// No key held.
    pub fn new() -> (r: Self)
        ensures
            r.spec_buttons() == 0x0F,
            r.spec_d_pad() == 0x0F,
            r.spec_prev() == 0x0F,
    {
        Joypad { buttons: 0x0F, d_pad: 0x0F, prev: 0x0F }
    }

    /// Releases every key and sets the low nibble of `P1/JOYP`.
    pub fn reset(&mut self, bus: &mut MemorySystem)
        requires
            old(bus)@.wf(),
        ensures
            final(bus)@ == old(bus)@.store(REG_JOYP, old(bus)@.peek(REG_JOYP) | 0x0F),
            final(bus)@.wf(),
            final(self).spec_buttons() == 0x0F,
            final(self).spec_d_pad() == 0x0F,
            final(self).spec_prev() == old(bus)@.peek(REG_JOYP) | 0x0F,
    {
        let joyp = bus.read_byte(REG_JOYP) | 0x0F;
        bus.write_internal_byte(REG_JOYP, joyp);
        self.buttons = 0x0F;
        self.d_pad = 0x0F;
        self.prev = joyp;
    }

    /// What `update` does, from joypad `self` and bus `m0` to `j2` and `m2`.
    pub open spec fn update_post(self, m0: BusView, j2: Joypad, m2: BusView) -> bool {
        &&& m2.wf()
        &&& ({
                    let m = m0;
                    let joyp = compose(m.peek(REG_JOYP), self.spec_d_pad(), self.spec_buttons());
                    let raised: BusView = if joyp & 0x0F != self.spec_prev() & 0x0F {
                        m.store(REG_IF, m.peek(REG_IF) | INT_JOYPAD)
                    } else {
                        m
                    };
                    &&& m2 == raised.store(REG_JOYP, joyp)
                    &&& j2.spec_prev() == joyp
                    &&& j2.spec_buttons() == self.spec_buttons()
                    &&& j2.spec_d_pad() == self.spec_d_pad()
                })
    }

    /// Composes `P1/JOYP` from the selected key groups and requests the
    /// joypad interrupt when its low nibble changed since the last refresh.
    pub fn update(&mut self, bus: &mut MemorySystem)
        requires
            old(bus)@.wf(),
        ensures
            old(self).update_post(old(bus)@, *final(self), final(bus)@),
    {
        let mut joyp = bus.read_byte(REG_JOYP) | 0x0F;
        if joyp & 0x10 == 0 {
            joyp = joyp & (0xF0 | self.d_pad);
        }
        if joyp & 0x20 == 0 {
            joyp = joyp & (0xF0 | self.buttons);
        }
        if joyp & 0x0F != self.prev & 0x0F {
            let requested = bus.read_byte(REG_IF);
            bus.write_internal_byte(REG_IF, requested | INT_JOYPAD);
        }
        self.prev = joyp;
        bus.write_internal_byte(REG_JOYP, joyp);
    }

    /// `new` is `self` with `button` held.
    pub open spec fn pressed(self, new: Joypad, button: Button) -> bool {
        &&& is_direction(button) ==> new.spec_d_pad() == self.spec_d_pad() & !button_bit(button)
            && new.spec_buttons() == self.spec_buttons()
        &&& !is_direction(button) ==> new.spec_buttons() == self.spec_buttons() & !button_bit(button)
            && new.spec_d_pad() == self.spec_d_pad()
        &&& new.spec_prev() == self.spec_prev()
    }

    /// `new` is `self` with `button` let go.
    pub open spec fn released(self, new: Joypad, button: Button) -> bool {
        &&& is_direction(button) ==> new.spec_d_pad() == self.spec_d_pad() | button_bit(button)
            && new.spec_buttons() == self.spec_buttons()
        &&& !is_direction(button) ==> new.spec_buttons() == self.spec_buttons() | button_bit(button)
            && new.spec_d_pad() == self.spec_d_pad()
        &&& new.spec_prev() == self.spec_prev()
    }

    /// Holds a key: its bit reads 0.
    pub fn button_pressed(&mut self, button: Button)
        ensures
            is_direction(button) ==> final(self).spec_d_pad() == old(self).spec_d_pad() & !button_bit(button)
                && final(self).spec_buttons() == old(self).spec_buttons(),
            !is_direction(button) ==> final(self).spec_buttons() == old(self).spec_buttons() & !button_bit(button)
                && final(self).spec_d_pad() == old(self).spec_d_pad(),
            final(self).spec_prev() == old(self).spec_prev(),
    {
        let bit = bit_of_button(button);
        match button {
            Button::Up | Button::Down | Button::Left | Button::Right => {
                self.d_pad = self.d_pad & !bit;
            },
            _ => {
                self.buttons = self.buttons & !bit;
            },
        }
    }

    /// Lets a key go: its bit reads 1.
    pub fn button_released(&mut self, button: Button)
        ensures
            is_direction(button) ==> final(self).spec_d_pad() == old(self).spec_d_pad() | button_bit(button)
                && final(self).spec_buttons() == old(self).spec_buttons(),
            !is_direction(button) ==> final(self).spec_buttons() == old(self).spec_buttons() | button_bit(button)
                && final(self).spec_d_pad() == old(self).spec_d_pad(),
            final(self).spec_prev() == old(self).spec_prev(),
    {
        let bit = bit_of_button(button);
        match button {
            Button::Up | Button::Down | Button::Left | Button::Right => {
                self.d_pad = self.d_pad | bit;
            },
            _ => {
                self.buttons = self.buttons | bit;
            },
        }
    }
}

} // verus!
