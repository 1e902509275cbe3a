//! STAT, the status register of the display.

use vstd::prelude::*;
use crate::ppu::fifo_mode::FifoMode;

verus! {

/// STAT as stored: the four interrupt enables in bits 3 to 6. The mode and the
/// LYC=LY flag are worked out when the register is read.
#[derive(Clone, Copy, Debug, PartialEq, Eq, Structural)]
pub struct LcdStatus {
    pub bits: u8,
}

impl LcdStatus {
    /// Bit 3: entering HBlank raises the STAT interrupt.
    #[verifier::allow_in_spec]
    pub fn hblank_interrupt(self) -> bool
        returns
            (self.bits / 8) % 2 == 1,
    {
        (self.bits / 8) % 2 == 1
    }

    /// Bit 4: entering VBlank raises the STAT interrupt.
    #[verifier::allow_in_spec]
    pub fn vblank_interrupt(self) -> bool
        returns
            (self.bits / 16) % 2 == 1,
    {
        (self.bits / 16) % 2 == 1
    }

    /// Bit 5: entering the sprite scan raises the STAT interrupt.
    #[verifier::allow_in_spec]
    pub fn oam_interrupt(self) -> bool
        returns
            (self.bits / 32) % 2 == 1,
    {
        (self.bits / 32) % 2 == 1
    }

    /// Bit 6: LY becoming equal to LYC raises the STAT interrupt.
    #[verifier::allow_in_spec]
    pub fn lyc_interrupt(self) -> bool
        returns
            (self.bits / 64) % 2 == 1,
    {
        (self.bits / 64) % 2 == 1
    }

    /// The register after a write: only bits 3 to 6 take the new value.
    pub open spec fn write_spec(self, data: u8) -> LcdStatus {
        LcdStatus { bits: (self.bits - (self.bits / 8) % 16 * 8 + (data / 8) % 16 * 8) as u8 }
    }

    /// What a read gives: bit 7 reads as one, bits 3 to 6 are the enables, bit 2
    /// tells whether LY equals LYC, bits 0 and 1 are the mode.
    pub open spec fn read_spec(self, mode: FifoMode, ly_equals_lyc: bool) -> u8 {
        (0x80 + (self.bits / 8) % 16 * 8 + (if ly_equals_lyc {
            4int
        } else {
            0
        }) + mode.number()) as u8
    }

    /// Writes the register.
    pub fn write(&mut self, data: u8)
        ensures
            *final(self) == old(self).write_spec(data),
    {
        self.bits = self.bits - (self.bits / 8) % 16 * 8 + (data / 8) % 16 * 8;
    }

    /// Reads the register.
    pub fn read(&self, mode: FifoMode, ly_equals_lyc: bool) -> (r: u8)
        ensures
            r == self.read_spec(mode, ly_equals_lyc),
    {
        let mut r: u8 = 0x80 + (self.bits / 8) % 16 * 8;
        if ly_equals_lyc {
            r = r + 4;
        }
        r + u8::from(mode)
    }
}

impl Default for LcdStatus {
    fn default() -> (r: Self)
        ensures
            r.bits == 0,
    {
        LcdStatus { bits: 0 }
    }
}

/// A byte written to STAT and read back keeps its bits 3 to 6.
pub proof fn lemma_status_keeps_enables(status: LcdStatus, data: u8, mode: FifoMode, flag: bool)
    ensures
        (status.write_spec(data).read_spec(mode, flag) / 8) % 16 == (data / 8) % 16,
        status.write_spec(data).hblank_interrupt() == ((data / 8) % 2 == 1),
        status.write_spec(data).lyc_interrupt() == ((data / 64) % 2 == 1),
{
}

} // verus!
