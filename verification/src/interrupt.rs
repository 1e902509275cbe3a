//! Interrupt sources and the two interrupt registers, IE and IF.

use vstd::prelude::*;

verus! {

/// The five interrupt sources, in priority order: `VBlank` is served first.
#[derive(Clone, Copy, Debug, PartialEq, Eq, Structural)]
pub enum Interrupt {
    VBlank,
    LcdStat,
    Timer,
    Serial,
    Joypad,
}

impl Interrupt {
    /// The address execution continues at when this interrupt is served.
    pub open spec fn vector_spec(self) -> u16 {
        match self {
            Interrupt::VBlank => 0x40,
            Interrupt::LcdStat => 0x48,
            Interrupt::Timer => 0x50,
            Interrupt::Serial => 0x58,
            Interrupt::Joypad => 0x60,
        }
    }
    /// The address execution continues at when this interrupt is served.
    pub fn vector(self) -> (r: u16)
        ensures
            r == self.vector_spec(),
    {
        match self {
            Interrupt::VBlank => 0x40,
            Interrupt::LcdStat => 0x48,
            Interrupt::Timer => 0x50,
            Interrupt::Serial => 0x58,
            Interrupt::Joypad => 0x60,
        }
    }
}

/// One interrupt register seen as a set of sources.
#[derive(Clone, Copy, Debug, PartialEq, Eq, Structural)]
pub struct InterruptReg {
    pub vblank: bool,
    pub lcd_stat: bool,
    pub timer: bool,
    pub serial: bool,
    pub joypad: bool,
}

impl InterruptReg {
    /// The register with no source in it.
    pub open spec fn empty_spec() -> InterruptReg {
        InterruptReg { vblank: false, lcd_stat: false, timer: false, serial: false, joypad: false }
    }

    /// The register with no source in it.
    pub fn empty() -> (r: InterruptReg)
        ensures
            r == InterruptReg::empty_spec(),
    {
        InterruptReg { vblank: false, lcd_stat: false, timer: false, serial: false, joypad: false }
    }

    /// Whether the register holds `source`.
    pub open spec fn contains(self, source: Interrupt) -> bool {
        match source {
            Interrupt::VBlank => self.vblank,
            Interrupt::LcdStat => self.lcd_stat,
            Interrupt::Timer => self.timer,
            Interrupt::Serial => self.serial,
            Interrupt::Joypad => self.joypad,
        }
    }

    /// The register with `source` put in or taken out.
    pub open spec fn with(self, source: Interrupt, on: bool) -> InterruptReg {
        match source {
            Interrupt::VBlank => InterruptReg { vblank: on, ..self },
            Interrupt::LcdStat => InterruptReg { lcd_stat: on, ..self },
            Interrupt::Timer => InterruptReg { timer: on, ..self },
            Interrupt::Serial => InterruptReg { serial: on, ..self },
            Interrupt::Joypad => InterruptReg { joypad: on, ..self },
        }
    }

    /// Both registers' common sources.
    pub open spec fn intersect(self, other: InterruptReg) -> InterruptReg {
        InterruptReg {
            vblank: self.vblank && other.vblank,
            lcd_stat: self.lcd_stat && other.lcd_stat,
            timer: self.timer && other.timer,
            serial: self.serial && other.serial,
            joypad: self.joypad && other.joypad,
        }
    }

    /// The source served first among those in the register.
    pub open spec fn first(self) -> Option<Interrupt> {
        if self.vblank {
            Some(Interrupt::VBlank)
        } else if self.lcd_stat {
            Some(Interrupt::LcdStat)
        } else if self.timer {
            Some(Interrupt::Timer)
        } else if self.serial {
            Some(Interrupt::Serial)
        } else if self.joypad {
            Some(Interrupt::Joypad)
        } else {
            None
        }
    }

    /// The low five bits of the register's byte: bit 0 is VBLANK, bit 4 JOYPAD.
    pub open spec fn bits_spec(self) -> u8 {
        ((if self.vblank { 1int } else { 0 }) + (if self.lcd_stat { 2int } else { 0 }) + (if self.timer {
            4int
        } else {
            0
        }) + (if self.serial { 8int } else { 0 }) + (if self.joypad { 16int } else { 0 })) as u8
    }

    /// The sources that the low five bits of a byte name.
    pub open spec fn from_bits_spec(byte: u8) -> InterruptReg {
        InterruptReg {
            vblank: byte % 2 == 1,
            lcd_stat: (byte / 2) % 2 == 1,
            timer: (byte / 4) % 2 == 1,
            serial: (byte / 8) % 2 == 1,
            joypad: (byte / 16) % 2 == 1,
        }
    }
    /// The low five bits of the register's byte.
    pub fn bits(self) -> (r: u8)
        ensures
            r == self.bits_spec(),
            r < 32,
    {
        let mut r: u8 = 0;
        if self.vblank {
            r = r + 1;
        }
        if self.lcd_stat {
            r = r + 2;
        }
        if self.timer {
            r = r + 4;
        }
        if self.serial {
            r = r + 8;
        }
        if self.joypad {
            r = r + 16;
        }
        r
    }

    /// Reads the sources out of a byte; its upper three bits are dropped.
    pub fn from_bits_truncate(byte: u8) -> (r: InterruptReg)
        ensures
            r == InterruptReg::from_bits_spec(byte),
    {
        InterruptReg {
            vblank: byte % 2 == 1,
            lcd_stat: (byte / 2) % 2 == 1,
            timer: (byte / 4) % 2 == 1,
            serial: (byte / 8) % 2 == 1,
            joypad: (byte / 16) % 2 == 1,
        }
    }
}

/// IE and IF.
#[derive(Clone, Copy, Debug, PartialEq, Eq, Structural)]
pub struct InterruptState {
    /// IE: the sources the program lets through.
    pub enable: InterruptReg,
    /// IF: the sources that wait to be served.
    pub status: InterruptReg,
}

impl InterruptState {
    /// After power-up nothing is enabled and VBLANK is already requested.
    pub open spec fn initial() -> InterruptState {
        InterruptState {
            enable: InterruptReg::empty_spec(),
            status: InterruptReg::empty_spec().with(Interrupt::VBlank, true),
        }
    }

    /// The registers with `source` added to IF.
    pub open spec fn request_spec(self, source: Interrupt) -> InterruptState {
        InterruptState { status: self.status.with(source, true), ..self }
    }

    /// The registers with `source` taken out of IF.
    pub open spec fn acknowledge_spec(self, source: Interrupt) -> InterruptState {
        InterruptState { status: self.status.with(source, false), ..self }
    }

    /// The source to serve next: the first that is both requested and enabled.
    pub open spec fn pending_spec(self) -> Option<Interrupt> {
        self.enable.intersect(self.status).first()
    }

    /// What a read of IF gives: the upper three bits read as one.
    pub open spec fn read_status_spec(self) -> u8 {
        (self.status.bits_spec() + 0xE0) as u8
    }

    /// What a read of IE gives. The register keeps only its five sources.
    pub open spec fn read_enable_spec(self) -> u8 {
        self.enable.bits_spec()
    }

    /// The registers after a write to IF.
    pub open spec fn write_status_spec(self, byte: u8) -> InterruptState {
        InterruptState { status: InterruptReg::from_bits_spec(byte), ..self }
    }

    /// The registers after a write to IE.
    pub open spec fn write_enable_spec(self, byte: u8) -> InterruptState {
        InterruptState { enable: InterruptReg::from_bits_spec(byte), ..self }
    }

    /// Adds `source` to IF.
    pub fn request(&mut self, source: Interrupt)
        ensures
            *final(self) == old(self).request_spec(source),
    {
        match source {
            Interrupt::VBlank => self.status.vblank = true,
            Interrupt::LcdStat => self.status.lcd_stat = true,
            Interrupt::Timer => self.status.timer = true,
            Interrupt::Serial => self.status.serial = true,
            Interrupt::Joypad => self.status.joypad = true,
        }
    }

    /// Takes `source` out of IF.
    pub fn acknowledge(&mut self, source: Interrupt)
        ensures
            *final(self) == old(self).acknowledge_spec(source),
    {
        match source {
            Interrupt::VBlank => self.status.vblank = false,
            Interrupt::LcdStat => self.status.lcd_stat = false,
            Interrupt::Timer => self.status.timer = false,
            Interrupt::Serial => self.status.serial = false,
            Interrupt::Joypad => self.status.joypad = false,
        }
    }
    /// The source to serve next, if there is one.
    pub fn pending(&self) -> (r: Option<Interrupt>)
        ensures
            r == self.pending_spec(),
    {
        if self.enable.vblank && self.status.vblank {
            Some(Interrupt::VBlank)
        } else if self.enable.lcd_stat && self.status.lcd_stat {
            Some(Interrupt::LcdStat)
        } else if self.enable.timer && self.status.timer {
            Some(Interrupt::Timer)
        } else if self.enable.serial && self.status.serial {
            Some(Interrupt::Serial)
        } else if self.enable.joypad && self.status.joypad {
            Some(Interrupt::Joypad)
        } else {
            None
        }
    }
    /// Reads IF.
    pub fn read_status(&self) -> (r: u8)
        ensures
            r == self.read_status_spec(),
    {
        self.status.bits() + 0xE0
    }
    /// Reads IE.
    pub fn read_enable(&self) -> (r: u8)
        ensures
            r == self.read_enable_spec(),
    {
        self.enable.bits()
    }

    /// Writes IF.
    pub fn write_status(&mut self, byte: u8)
        ensures
            *final(self) == old(self).write_status_spec(byte),
    {
        self.status = InterruptReg::from_bits_truncate(byte);
    }

    /// Writes IE.
    pub fn write_enable(&mut self, byte: u8)
        ensures
            *final(self) == old(self).write_enable_spec(byte),
    {
        self.enable = InterruptReg::from_bits_truncate(byte);
    }
}

impl Default for InterruptState {
    fn default() -> (r: Self)
        ensures
            r == InterruptState::initial(),
    {
        InterruptState {
            enable: InterruptReg::empty(),
            status: InterruptReg {
                vblank: true,
                lcd_stat: false,
                timer: false,
                serial: false,
                joypad: false,
            },
        }
    }
}

/// A register's byte holds exactly its sources: reading the byte back gives the register.
pub proof fn lemma_interrupt_bits_round_trip(reg: InterruptReg)
    ensures
        InterruptReg::from_bits_spec(reg.bits_spec()) == reg,
{
}

/// Of a byte written to a register only the low five bits are kept.
pub proof fn lemma_interrupt_byte_round_trip(byte: u8)
    ensures
        InterruptReg::from_bits_spec(byte).bits_spec() == byte % 32,
{
    assert((byte % 2) + 2 * ((byte / 2) % 2) + 4 * ((byte / 4) % 2) + 8 * ((byte / 8) % 2) + 16 * ((
    byte / 16) % 2) == byte % 32) by (bit_vector);
}

/// A served interrupt no longer waits, and serving it touches no other source.
pub proof fn lemma_acknowledge_clears_only_source(state: InterruptState, source: Interrupt, other: Interrupt)
    ensures
        !state.acknowledge_spec(source).status.contains(source),
        other != source ==> state.acknowledge_spec(source).status.contains(other)
            == state.status.contains(other),
        state.acknowledge_spec(source).enable == state.enable,
{
}

} // verus!
