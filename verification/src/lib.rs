//! The emulation core of a handheld console built around the LR35902 processor.
//!
//! An [`Emulator`] owns the whole machine: the cartridge, the processor, the
//! picture processing unit, the serial port and the memories between them. Each
//! call of [`Emulator::clock`] advances the machine by one tick of its master
//! clock of 4.194304 MHz and hands out a frame when one is finished.

pub mod bits;
pub mod bus;
pub mod cartridge;
pub mod cgb_double_speed;
pub mod cpu;
pub mod emulator;
pub mod interrupt;
pub mod joypad_state;
pub mod ppu;
pub mod serial;
pub mod timer;

pub use bus::Bus;
pub use cartridge::{Cartridge, RomParserError};
pub use cpu::Cpu;
pub use emulator::Emulator;
pub use interrupt::{Interrupt, InterruptReg, InterruptState};
pub use joypad_state::JoypadState;
pub use ppu::{Frame, Ppu, FRAME_BYTES, FRAME_HEIGHT, FRAME_WIDTH};
pub use serial::{NullSerialTransport, SerialPort, SerialTransport, TransportError};
