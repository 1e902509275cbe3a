//! The eight buttons and the register at 0xFF00 that shows them to the program.

use vstd::prelude::*;

verus! {

/// Which buttons are held down.
#[derive(Clone, Copy, Debug, PartialEq, Eq, Structural)]
pub struct JoypadState {
    pub a: bool,
    pub b: bool,
    pub select: bool,
    pub start: bool,
    pub right: bool,
    pub left: bool,
    pub up: bool,
    pub down: bool,
}

/// 1 for an input line at rest, 0 for one pulled low by a pressed button.
pub open spec fn line(pressed: bool) -> int {
    if pressed {
        0
    } else {
        1
    }
}

/// Whether the select bits choose the direction buttons: bit 4 is clear.
pub open spec fn selects_directions(select: u8) -> bool {
    (select / 16) % 2 == 0
}

/// Whether the select bits choose the action buttons: bit 5 is clear.
pub open spec fn selects_actions(select: u8) -> bool {
    (select / 32) % 2 == 0
}

impl JoypadState {
    /// No button held down.
    pub open spec fn released() -> JoypadState {
        JoypadState {
            a: false,
            b: false,
            select: false,
            start: false,
            right: false,
            left: false,
            up: false,
            down: false,
        }
    }

    /// Whether input line `n` (0 to 3) is pulled low: a button of a selected group
    /// on that line is pressed. Line 0 carries Right and A, line 1 Left and B, line 2
    /// Up and Select, line 3 Down and Start.
    pub open spec fn line_low(self, select: u8, n: int) -> bool {
        let direction = if n == 0 {
            self.right
        } else if n == 1 {
            self.left
        } else if n == 2 {
            self.up
        } else {
            self.down
        };
        let action = if n == 0 {
            self.a
        } else if n == 1 {
            self.b
        } else if n == 2 {
            self.select
        } else {
            self.start
        };
        (selects_directions(select) && direction) || (selects_actions(select) && action)
    }

    /// Bits 0 to 3 of the register: each is the AND, over the selected groups, of
    /// the button on that line not being pressed.
    pub open spec fn lines(self, select: u8) -> int {
        line(self.line_low(select, 0)) + 2 * line(self.line_low(select, 1)) + 4 * line(
            self.line_low(select, 2),
        ) + 8 * line(self.line_low(select, 3))
    }

    /// What a read of the register gives: the two upper bits read as one, bits 4 and
    /// 5 are the select bits as last written, bits 0 to 3 the input lines.
    pub open spec fn read_spec(self, select: u8) -> u8 {
        (0xC0 + (select as int / 16) % 4 * 16 + self.lines(select)) as u8
    }

    /// Whether some input line that was at rest under (`old_select`, `self`) is
    /// pulled low under (`select`, `next`): the change that raises the JOYPAD
    /// interrupt.
    pub open spec fn falling_edge(self, old_select: u8, next: JoypadState, select: u8) -> bool {
        exists|n: int|
            0 <= n < 4 && !#[trigger] self.line_low(old_select, n) && next.line_low(select, n)
    }

    /// No button held down.
    pub fn new() -> (r: JoypadState)
        ensures
            r == JoypadState::released(),
    {
        JoypadState {
            a: false,
            b: false,
            select: false,
            start: false,
            right: false,
            left: false,
            up: false,
            down: false,
        }
    }

    fn low(&self, select: u8, n: u8) -> (r: bool)
        requires
            n < 4,
        ensures
            r == self.line_low(select, n as int),
    {
        let directions: bool = (select / 16) % 2 == 0;
        let actions: bool = (select / 32) % 2 == 0;
        match n {
            0 => (directions && self.right) || (actions && self.a),
            1 => (directions && self.left) || (actions && self.b),
            2 => (directions && self.up) || (actions && self.select),
            _ => (directions && self.down) || (actions && self.start),
        }
    }

    /// Reads the register with the given select bits.
    pub fn read(&self, select: u8) -> (r: u8)
        ensures
            r == self.read_spec(select),
    {
        let mut r: u8 = 0xC0 + ((select / 16) % 4) * 16;
        if !self.low(select, 0) {
            r = r + 1;
        }
        if !self.low(select, 1) {
            r = r + 2;
        }
        if !self.low(select, 2) {
            r = r + 4;
        }
        if !self.low(select, 3) {
            r = r + 8;
        }
        r
    }

    /// Whether going from (`old_select`, `self`) to (`select`, `next`) pulls an input
    /// line low that was at rest.
    pub fn raises_interrupt(&self, old_select: u8, next: &JoypadState, select: u8) -> (r: bool)
        ensures
            r == self.falling_edge(old_select, *next, select),
    {
        let r: bool = (!self.low(old_select, 0) && next.low(select, 0)) || (!self.low(old_select, 1)
            && next.low(select, 1)) || (!self.low(old_select, 2) && next.low(select, 2)) || (
        !self.low(old_select, 3) && next.low(select, 3));
        proof {
            if self.falling_edge(old_select, *next, select) {
                let n = choose|n: int|
                    0 <= n < 4 && !#[trigger] self.line_low(old_select, n) && next.line_low(
                        select,
                        n,
                    );
                assert(n == 0 || n == 1 || n == 2 || n == 3);
            }
        }
        r
    }
}

impl Default for JoypadState {
    fn default() -> (r: Self)
        ensures
            r == JoypadState::released(),
    {
        JoypadState::new()
    }
}

} // verus!
