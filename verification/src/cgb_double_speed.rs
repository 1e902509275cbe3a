//! The speed switch of the Color hardware, register KEY1.

use vstd::prelude::*;

verus! {

/// KEY1: bit 0 arms a speed switch, bit 7 tells the current speed. The six bits
/// between them always read as one.
#[derive(Clone, Copy, Debug, PartialEq, Eq, Structural)]
pub struct CgbDoubleSpeed {
    /// A switch is armed and waits for STOP.
    pub pending: bool,
    /// The processor runs at double speed.
    pub enabled: bool,
}

impl CgbDoubleSpeed {
    /// Normal speed, no switch armed.
    pub open spec fn base() -> CgbDoubleSpeed {
        CgbDoubleSpeed { pending: false, enabled: false }
    }

    /// What a read of the register gives.
    pub open spec fn bits_spec(self) -> u8 {
        (0x7E + (if self.pending {
            1int
        } else {
            0
        }) + (if self.enabled {
            0x80int
        } else {
            0
        })) as u8
    }

    /// A write reaches only the arming bit.
    pub open spec fn write_spec(self, data: u8) -> CgbDoubleSpeed {
        CgbDoubleSpeed { pending: data % 2 == 1, ..self }
    }

    /// What STOP does to the register: an armed switch changes the speed and is
    /// disarmed.
    pub open spec fn commit_spec(self) -> CgbDoubleSpeed {
        if self.pending {
            CgbDoubleSpeed { pending: false, enabled: !self.enabled }
        } else {
            self
        }
    }

    /// Reads the register.
    pub fn bits(&self) -> (r: u8)
        ensures
            r == self.bits_spec(),
    {
        let mut r: u8 = 0x7E;
        if self.pending {
            r = r + 1;
        }
        if self.enabled {
            r = r + 0x80;
        }
        r
    }

    /// Writes the register.
    pub fn write(&mut self, data: u8)
        ensures
            *final(self) == old(self).write_spec(data),
    {
        self.pending = data % 2 == 1;
    }

    /// Carries out an armed switch. Returns whether there was one.
    pub fn commit(&mut self) -> (switched: bool)
        ensures
            *final(self) == old(self).commit_spec(),
            switched == old(self).pending,
    {
        if self.pending {
            self.pending = false;
            self.enabled = !self.enabled;
            true
        } else {
            false
        }
    }
}

impl Default for CgbDoubleSpeed {
    fn default() -> (r: Self)
        ensures
            r == CgbDoubleSpeed::base(),
    {
        CgbDoubleSpeed { pending: false, enabled: false }
    }
}

} // verus!
