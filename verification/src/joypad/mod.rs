//! The DMG joypad.
//!
//! One memory-mapped register: 0xFF00 (JOYP).
//!
//!   Bits 7,6 : unused, read as 1
//!   Bit 5    : select action buttons    (0 = selected; CPU writes)
//!   Bit 4    : select direction buttons (0 = selected; CPU writes)
//!   Bits 3..0: button state for the selected set, 0 = pressed
//!
//! The internal `pressed` mask is active-high:
//!   bit 7: Start  bit 6: Select bit 5: B     bit 4: A
//!   bit 3: Down   bit 2: Up     bit 1: Left  bit 0: Right

use vstd::prelude::*;

verus! {

#[derive(Clone, Copy)]
pub enum Button {
    Right,
    Left,
    Up,
    Down,
    A,
    B,
    Select,
    Start,
}

/// The bit position of a button in the `pressed` mask.
pub open spec fn button_index(b: Button) -> u8 {
    match b {
        Button::Right => 0,
        Button::Left => 1,
        Button::Up => 2,
        Button::Down => 3,
        Button::A => 4,
        Button::B => 5,
        Button::Select => 6,
        Button::Start => 7,
    }
}

pub struct Joypad {
    /// Bit set = button pressed. Bits 0..3 are the D-pad
    /// (right/left/up/down), bits 4..7 the actions (a/b/select/start).
    pub pressed: u8,
    /// The two selection bits the CPU last wrote, in bits 4 and 5.
    pub select: u8,
    /// Set on a falling edge of any selected line. The MMU consumes this
    /// and ORs it into IF bit 4.
    pub interrupt_request: bool,
}

/// The low nibble of JOYP, active-low: a selected set contributes its
/// pressed buttons as 0 bits; an unselected set contributes nothing.
pub open spec fn low_nibble(pressed: u8, select: u8) -> u8 {
    let dpad: u8 = if select & 0x10 == 0 { !pressed & 0x0F } else { 0x0F };
    let action: u8 = if select & 0x20 == 0 { !(pressed >> 4u8) & 0x0F } else { 0x0F };
    0x0F & dpad & action
}

/// Whether some line of the low nibble went from 1 to 0.
pub open spec fn falling_edge(before: u8, after: u8) -> bool {
    before & !after != 0
}

impl Joypad {
    /// Nothing pressed, both sets deselected (bits 4 and 5 high).
    pub open spec fn initial() -> Joypad {
        Joypad { pressed: 0, select: 0x30, interrupt_request: false }
    }

    pub open spec fn nibble(&self) -> u8 {
        low_nibble(self.pressed, self.select)
    }

    /// JOYP as the CPU reads it.
    pub open spec fn read_spec(&self) -> u8 {
        0xC0 | self.select | self.nibble()
    }

    /// The joypad after the CPU writes `value` to JOYP: only the two
    /// selection bits are kept; a falling edge raises the interrupt.
    pub open spec fn write_spec(self, value: u8) -> Joypad {
        let after = low_nibble(self.pressed, value & 0x30);
        Joypad {
            select: value & 0x30,
            interrupt_request: self.interrupt_request || falling_edge(self.nibble(), after),
            ..self
        }
    }

    pub fn new() -> (j: Self)
        ensures
            j == Joypad::initial(),
    {
        Self { pressed: 0, select: 0x30, interrupt_request: false }
    }

    /// Update the press state. `pressed_now` uses the bit positions of
    /// `button_index`. Called once per frame by the front-end.
    pub fn set_state(&mut self, pressed_now: u8)
        ensures
            final(self).pressed == pressed_now,
            final(self).select == old(self).select,
            final(self).interrupt_request == (old(self).interrupt_request || falling_edge(
                old(self).nibble(),
                low_nibble(pressed_now, old(self).select),
            )),
    {
        let before = self.read_low_nibble();
        self.pressed = pressed_now;
        let after = self.read_low_nibble();
        // Bits are active-low: a fall is a line going from released or
        // unselected (1) to pressed in a selected set (0).
        if (before & !after) != 0 {
            self.interrupt_request = true;
        }
    }

    pub fn read(&self) -> (r: u8)
        ensures
            r == self.read_spec(),
    {
        // Top two bits read as 1, then the selection bits the CPU wrote,
        // then the active-low state of the selected set.
        0xC0 | self.select | self.read_low_nibble()
    }

    pub fn write(&mut self, value: u8)
        ensures
            *final(self) == old(self).write_spec(value),
    {
        let new_select = value & 0x30;
        let before = self.read_low_nibble();
        self.select = new_select;
        let after = self.read_low_nibble();
        if (before & !after) != 0 {
            self.interrupt_request = true;
        }
    }

    /// The low 4 bits as JOYP reports them: 0 = pressed.
    pub fn read_low_nibble(&self) -> (r: u8)
        ensures
            r == self.nibble(),
    {
        let mut out: u8 = 0x0F;
        // Bit 4 of select == 0 means the direction set is selected.
        let dpad: u8 = if self.select & 0x10 == 0 {
            !self.pressed & 0x0F
        } else {
            0x0F
        };
        out = out & dpad;
        // Bit 5 of select == 0 means the action set is selected.
        let action: u8 = if self.select & 0x20 == 0 {
            !(self.pressed >> 4) & 0x0F
        } else {
            0x0F
        };
        out = out & action;
        out
    }
}

/// The `pressed` mask bit of a button.
pub fn bit(b: Button) -> (r: u8)
    ensures
        r == 1u8 << button_index(b),
{
    let idx: u8 = match b {
        Button::Right => 0,
        Button::Left => 1,
        Button::Up => 2,
        Button::Down => 3,
        Button::A => 4,
        Button::B => 5,
        Button::Select => 6,
        Button::Start => 7,
    };
    1u8 << idx
}

impl Default for Joypad {
    fn default() -> (j: Self)
        ensures
            j == Joypad::initial(),
    {
        Self::new()
    }
}

/// With nothing pressed, JOYP reads all four button lines high, whatever
/// is selected; the selection bits read back as written.
pub proof fn law_joypad_idle_reads_high(j: Joypad, value: u8)
    requires
        j.pressed == 0,
    ensures
        j.read_spec() & 0x0F == 0x0F,
        j.write_spec(value).read_spec() & 0x30 == value & 0x30,
{
    let sel = j.select;
    let v2 = value & 0x30;
    let n = low_nibble(j.pressed, v2);
    assert({
        &&& low_nibble(0, sel) == 0x0F
        &&& (0xC0u8 | sel | 0x0Fu8) & 0x0Fu8 == 0x0Fu8
        &&& (0xC0u8 | (value & 0x30u8) | (n & 0x0Fu8)) & 0x30u8 == value & 0x30u8
        &&& n & 0x0F == n
    }) by (bit_vector)
        requires
            n == low_nibble(0, v2),
    ;
}

/// A press raises the interrupt request only when it pulls a selected
/// line low: with neither set selected, pressing buttons never does.
pub proof fn law_joypad_unselected_press_is_silent(j: Joypad, pressed_now: u8)
    requires
        j.select & 0x30 == 0x30,
    ensures
        !falling_edge(j.nibble(), low_nibble(pressed_now, j.select)),
{
    let sel = j.select;
    let p = j.pressed;
    assert(sel & 0x30 == 0x30 ==> low_nibble(p, sel) == 0x0F && low_nibble(pressed_now, sel) == 0x0F
        && 0x0Fu8 & !0x0Fu8 == 0) by (bit_vector);
}

/// JOYP lines: with only the direction set selected (bit 4 low), line i
/// (i = 0..3) reads 0 exactly when direction button i (Right, Left, Up,
/// Down) is pressed; with only the action set selected (bit 5 low), it
/// reads 0 exactly when action button i (A, B, Select, Start, mask bits
/// 4..7) is pressed. Bits 6 and 7 always read 1. (`select` holds only
/// bits 4 and 5, as every write to JOYP leaves it.)
pub proof fn law_joypad_lines(j: Joypad, i: u8)
    requires
        i < 4,
        j.select & 0xCF == 0,
    ensures
        j.select & 0x30 == 0x20 ==> (((j.read_spec() >> i) & 1) == 0) == (((j.pressed >> i) & 1)
            == 1),
        j.select & 0x30 == 0x10 ==> (((j.read_spec() >> i) & 1) == 0) == (((j.pressed >> (i + 4))
            & 1) == 1),
        j.read_spec() & 0xC0 == 0xC0,
{
    let p = j.pressed;
    let sel = j.select;
    let r = j.read_spec();
    assert({
        &&& sel & 0x30 == 0x20 ==> (((r >> i) & 1) == 0) == (((p >> i) & 1) == 1)
        &&& sel & 0x30 == 0x10 ==> (((r >> i) & 1) == 0) == (((p >> (i + 4)) & 1) == 1)
        &&& r & 0xC0 == 0xC0
    }) by (bit_vector)
        requires
            i < 4,
            sel & 0xCFu8 == 0,
            r == 0xC0u8 | sel | low_nibble(p, sel),
    ;
}

} // verus!
