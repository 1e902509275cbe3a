//! Laws of the serial port: what a transfer to the printer does.

use vstd::prelude::*;
use crate::serial::SerialPortView;

verus! {

/// The port after `n` machine cycles with no transport.
pub open spec fn printing(port: SerialPortView, n: nat) -> SerialPortView
    decreases n,
{
    if n == 0 {
        port
    } else {
        printing(port, (n - 1) as nat).clock_printer().0
    }
}

/// The port as a write of `byte` to SB and of 0x81 to SC leaves it: a transfer
/// as master at the normal rate begins.
pub open spec fn started_with(port: SerialPortView, byte: u8) -> SerialPortView {
    port.set_buffer(byte).set_control(0x81)
}

/// The port in the middle of a transfer to the printer: `bit` bit periods and
/// `cycle` machine cycles after it began. The byte is printed as the first bit
/// period begins.
pub open spec fn in_transfer(port: SerialPortView, byte: u8, bit: nat, cycle: nat) -> SerialPortView {
    let begun = started_with(port, byte);
    if bit == 0 {
        SerialPortView { freq_downscale_cycle: cycle as u8, ..begun }
    } else {
        SerialPortView {
            freq_downscale_cycle: cycle as u8,
            bit_cycle: bit as u8,
            receive_latch: 0xFF,
            ..begun.print(byte)
        }
    }
}

/// The port after a transfer to the printer: the byte is printed, 0xFF was
/// received for it, and the start bit is clear.
pub open spec fn transferred(port: SerialPortView, byte: u8) -> SerialPortView {
    SerialPortView {
        buffer: 0xFF,
        control: 0x7D,
        freq_downscale_cycle: 0,
        bit_cycle: 0,
        exchange_step: 0,
        receive_latch: 0xFF,
        ..port.print(byte)
    }
}

/// A transfer to the printer, cycle by cycle: it takes eight bit periods of 128
/// machine cycles, and no cycle before the last raises the interrupt.
pub proof fn lemma_transfer_progress(port: SerialPortView, byte: u8, bit: nat, cycle: nat)
    requires
        bit < 8,
        cycle < 128,
    ensures
        printing(started_with(port, byte), 128 * bit + cycle) == in_transfer(port, byte, bit, cycle),
        !(bit == 7 && cycle == 127) ==> !in_transfer(port, byte, bit, cycle).clock_printer().1,
    decreases 128 * bit + cycle,
{
    let n = 128 * bit + cycle;
    let begun = started_with(port, byte);
    assert(begun.control == 0xFD);
    assert(begun.started() && !begun.fast());
    if n > 0 {
        let (before_bit, before_cycle) = if cycle == 0 {
            ((bit - 1) as nat, 127nat)
        } else {
            (bit, (cycle - 1) as nat)
        };
        assert(128 * before_bit + before_cycle == n - 1);
        lemma_transfer_progress(port, byte, before_bit, before_cycle);
        let before = in_transfer(port, byte, before_bit, before_cycle);
        assert(before.control == 0xFD);
        assert(before.buffer == byte);
        let after = before.clock_printer().0;
        assert(after =~= in_transfer(port, byte, bit, cycle));
    }
    let here = in_transfer(port, byte, bit, cycle);
    assert(here.control == 0xFD);
}

/// What a transfer to the printer does: 1024 machine cycles after the program
/// wrote the byte to SB and 0x81 to SC, the byte is printed, SB holds 0xFF, the
/// start bit is clear, and the last cycle, no other, raised the SERIAL interrupt.
pub proof fn lemma_transfer_prints(port: SerialPortView, byte: u8)
    ensures
        printing(started_with(port, byte), 1024) == transferred(port, byte),
        printing(started_with(port, byte), 1023).clock_printer().1,
        !transferred(port, byte).started(),
{
    lemma_transfer_progress(port, byte, 7, 127);
    assert(128 * 7 + 127 == 1023);
    let last = in_transfer(port, byte, 7, 127);
    assert(last.control == 0xFD);
    assert(last.clock_printer().0 =~= transferred(port, byte));
}

/// The printer's line: three transfers of 'H', 'i' and a newline from a port
/// that has printed nothing put out the line "Hi", ended by the newline, and
/// leave nothing in the line buffer.
pub proof fn lemma_prints_a_line(port: SerialPortView)
    requires
        port.print_buffer.len() == 0,
        port.output.len() == 0,
    ensures
        ({
            let h = printing(started_with(port, 0x48), 1024);
            let i = printing(started_with(h, 0x69), 1024);
            let done = printing(started_with(i, 0x0A), 1024);
            &&& done.output == seq![0x48u8, 0x69u8, 0x0Au8]
            &&& done.print_buffer.len() == 0
            &&& done.buffer == 0xFF
            &&& !done.started()
        }),
{
    lemma_transfer_prints(port, 0x48);
    let h = transferred(port, 0x48);
    lemma_transfer_prints(h, 0x69);
    let i = transferred(h, 0x69);
    lemma_transfer_prints(i, 0x0A);
    let done = transferred(i, 0x0A);
    assert(h.print_buffer =~= seq![0x48u8]);
    assert(h.output.len() == 0);
    assert(i.print_buffer =~= seq![0x48u8, 0x69u8]);
    assert(i.output.len() == 0);
    assert(done.output =~= seq![0x48u8, 0x69u8, 0x0Au8]);
    assert(done.print_buffer.len() == 0);
}

} // verus!
