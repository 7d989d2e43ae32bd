use vstd::prelude::*;

verus! {

/// Start, select, B and A as a low nibble; a zero bit means pressed.
pub struct SelectButtons(pub u8);

/// Down, up, left and right as a low nibble; a zero bit means pressed.
pub struct Dpad(pub u8);

/// The joypad register: two select bits choose which button group the low
/// nibble reflects. A press (a one-to-zero edge) requests the joypad
/// interrupt.
pub struct Joypad {
    pub select_mode: bool,
    pub dpad_mode: bool,
    pub select: SelectButtons,
    pub dpad: Dpad,
    pub interrupt: bool,
}

/// Bitwise facts keeping button nibbles inside their four bits.
proof fn lemma_nibble_ops()
    by (bit_vector)
    ensures
        forall|s: u8, b: u8| s <= 15 && b <= 15 ==> (#[trigger] (s | b)) <= 15,
        forall|s: u8, b: u8| s <= 15 ==> (#[trigger] (s & !b)) <= 15,
{
}

impl Joypad {
    pub open spec fn wf(&self) -> bool {
        self.select.0 <= 15 && self.dpad.0 <= 15
    }

    pub fn new() -> (r: Joypad)
        ensures
            r.wf(),
            !r.select_mode && !r.dpad_mode && !r.interrupt,
            r.select.0 == 15 && r.dpad.0 == 15,
    {
        Self {
            select_mode: false,
            dpad_mode: false,
            select: SelectButtons(0x0f),
            dpad: Dpad(0x0f),
            interrupt: false,
        }
    }

    /// The value a read of the register yields: the two unused high bits as
    /// ones, the two mode bits, and the nibble of whichever group the mode
    /// bits select (all ones when both groups are deselected).
    pub open spec fn spec_read(&self) -> u8 {
        let lo: int = if !self.select_mode {
            self.select.0 as int
        } else if !self.dpad_mode {
            self.dpad.0 as int
        } else {
            15
        };
        (0xc0 + (if self.select_mode {
            32int
        } else {
            0
        }) + (if self.dpad_mode {
            16int
        } else {
            0
        }) + lo) as u8
    }

    pub fn read(&self) -> (r: u8)
        requires
            self.wf(),
        ensures
            r == self.spec_read(),
    {
        let lo: u8 = if !self.select_mode {
            self.select.0
        } else if !self.dpad_mode {
            self.dpad.0
        } else {
            0x0f
        };
        let m: u8 = if self.select_mode {
            32
        } else {
            0
        };
        let d: u8 = if self.dpad_mode {
            16
        } else {
            0
        };
        0xc0 + m + d + lo
    }

    /// A write sets only the two mode bits.
    pub fn write(&mut self, val: u8)
        ensures
            *final(self) == (Joypad {
                select_mode: val / 32 % 2 == 1,
                dpad_mode: val / 16 % 2 == 1,
                ..*old(self)
            }),
    {
        self.select_mode = val / 32 % 2 == 1;
        self.dpad_mode = val / 16 % 2 == 1;
    }

    /// Records a host button event: a press clears the button's bit in its
    /// group and requests the joypad interrupt; a release sets the bit back.
    /// `mode` true addresses the select group, false the directional group.
    pub fn button_pressed_status(&mut self, mode: bool, button: u8, pressed: bool)
        requires
            old(self).wf(),
            button <= 15,
        ensures
            final(self).wf(),
            ({
                let o = *old(self);
                match (mode, pressed) {
                    (true, true) => *final(self) == (Joypad {
                        interrupt: true,
                        select: SelectButtons((o.select.0 & !button) as u8),
                        ..o
                    }),
                    (true, false) => *final(self) == (Joypad {
                        select: SelectButtons((o.select.0 | button) as u8),
                        ..o
                    }),
                    (false, true) => *final(self) == (Joypad {
                        interrupt: true,
                        dpad: Dpad((o.dpad.0 & !button) as u8),
                        ..o
                    }),
                    (false, false) => *final(self) == (Joypad {
                        dpad: Dpad((o.dpad.0 | button) as u8),
                        ..o
                    }),
                }
            }),
    {
        proof {
            lemma_nibble_ops();
        }
        match (mode, pressed) {
            (true, true) => {
                self.interrupt = true;
                self.select.0 = self.select.0 & !button;
            },
            (true, false) => {
                self.select.0 = self.select.0 | button;
            },
            (false, true) => {
                self.interrupt = true;
                self.dpad.0 = self.dpad.0 & !button;
            },
            (false, false) => {
                self.dpad.0 = self.dpad.0 | button;
            },
        }
    }
}

} // verus!
