//! A serial console: just enough of a 16550 for a guest to print through it.

use crate::device::Device;
use crate::io::{IoAction, IoAddress, IoDirection};
use vstd::prelude::*;

verus! {

/// What the line status register always shows: the transmitter is empty and
/// ready for the next byte.
pub const LINE_STATUS_IDLE: u8 = 0b0110_0000;

/// The registers of the serial port.
#[derive(Debug, Copy, Clone, PartialEq, Eq)]
pub struct Serial {
    /// The line status.
    ///
    /// - bit 0: data ready
    /// - bit 1: overrun error
    /// - bit 2: parity error
    /// - bit 3: framing error
    /// - bit 4: break interrupt
    /// - bit 5: transmitter holding register empty
    /// - bit 6: data holding registers empty
    /// - bit 7: error in the receive queue
    pub status: u8,
    /// The divisor of the baud rate, high byte first.
    pub divisor: (u8, u8),
    /// The line control.
    ///
    /// - bits 0 and 1: the word length, from 5 bits (00) to 8 bits (11)
    /// - bit 2: the number of stop bits
    /// - bit 3: parity enable
    /// - bits 4 and 5: the kind of parity
    /// - bit 7: the divisor latch access bit, which puts the divisor in the place
    ///   of the first two registers
    pub control: u8,
    /// The interrupts that are enabled.
    ///
    /// - bit 0: data available
    /// - bit 1: transmitter empty
    /// - bit 2: break or error
    /// - bit 3: status change
    pub interrupts: u8,
}

impl Serial {
    /// Whether the divisor latch access bit is set.
    pub open spec fn spec_dlab(self) -> bool {
        self.control & 0x80 != 0
    }

    /// Whether the divisor latch access bit is set.
    pub fn dlab(&self) -> (set: bool)
        ensures
            set == self.spec_dlab(),
    {
        (self.control & 0x80) != 0
    }
}

/// A serial console on eight consecutive ports.
///
/// What the guest sends is kept until the owner of the device takes it away with
/// `take_output` to show it.
#[derive(Debug)]
pub struct SerialConsole {
    base: u64,
    serial: Serial,
    output: Vec<u8>,
}

/// What a serial console is at any moment.
pub struct SerialConsoleView {
    /// The first of its eight ports.
    pub base: u64,
    /// Its registers.
    pub serial: Serial,
    /// What the guest has sent and the owner has not taken yet.
    pub output: Seq<u8>,
}

impl View for SerialConsole {
    type V = SerialConsoleView;

    closed spec fn view(&self) -> SerialConsoleView {
        SerialConsoleView { base: self.base, serial: self.serial, output: self.output@ }
    }
}

/// The access that moves one byte in direction `direction` through the port at
/// `offset` from `base`.
pub open spec fn register(base: u64, offset: u64, direction: IoDirection) -> IoAction {
    IoAction(IoAddress::Port(base).moved(offset), direction, 1)
}

impl SerialConsole {
    /// What a new serial console on the ports from `port` on is: set to eight
    /// data bits, with a divisor of 1 and nothing sent yet.
    pub open spec fn new_view(port: u64) -> SerialConsoleView {
        SerialConsoleView {
            base: port,
            serial: Serial { status: 0, divisor: (0, 1), control: 0b0000_0011, interrupts: 0 },
            output: Seq::empty(),
        }
    }

    /// A serial console on the eight ports from `port` on.
    pub fn new(port: u64) -> (console: SerialConsole)
        ensures
            console@ == SerialConsole::new_view(port),
    {
        SerialConsole {
            base: port,
            serial: Serial { status: 0, divisor: (0, 1), control: 0b0000_0011, interrupts: 0 },
            output: Vec::new(),
        }
    }

    /// Hands out what the guest has sent since the last call, and forgets it.
    pub fn take_output(&mut self) -> (output: Vec<u8>)
        ensures
            output@ == old(self)@.output,
            final(self)@ == (SerialConsoleView {
                base: old(self)@.base,
                serial: old(self)@.serial,
                output: Seq::empty(),
            }),
    {
        let mut output: Vec<u8> = Vec::new();
        std::mem::swap(&mut self.output, &mut output);
        output
    }
}

impl Device for SerialConsole {
    open spec fn requests(model: SerialConsoleView) -> Seq<IoAddress> {
        Seq::new(8, |i: int| IoAddress::Port(model.base).moved(i as u64))
    }

    /// With the divisor latch open, a write to the first port sets the low byte
    /// of the divisor and a write to the second port its high byte. With the
    /// latch closed, a write to the first port sends the byte. A write to the
    /// fourth port sets the line control.
    open spec fn next(
        model: SerialConsoleView,
        io: IoAction,
        memory: Seq<u8>,
    ) -> SerialConsoleView {
        let serial = model.serial;
        if io == register(model.base, 0, IoDirection::In) && serial.spec_dlab() {
            model
        } else if io == register(model.base, 0, IoDirection::Out) && serial.spec_dlab() {
            SerialConsoleView {
                base: model.base,
                serial: Serial {
                    status: serial.status,
                    divisor: (serial.divisor.0, memory[0]),
                    control: serial.control,
                    interrupts: serial.interrupts,
                },
                output: model.output,
            }
        } else if io == register(model.base, 0, IoDirection::Out) {
            SerialConsoleView {
                base: model.base,
                serial,
                output: model.output.push(memory[0]),
            }
        } else if io == register(model.base, 1, IoDirection::In) && serial.spec_dlab() {
            model
        } else if io == register(model.base, 1, IoDirection::Out) && serial.spec_dlab() {
            SerialConsoleView {
                base: model.base,
                serial: Serial {
                    status: serial.status,
                    divisor: (memory[0], serial.divisor.1),
                    control: serial.control,
                    interrupts: serial.interrupts,
                },
                output: model.output,
            }
        } else if io == register(model.base, 3, IoDirection::Out) {
            SerialConsoleView {
                base: model.base,
                serial: Serial {
                    status: serial.status,
                    divisor: serial.divisor,
                    control: memory[0],
                    interrupts: serial.interrupts,
                },
                output: model.output,
            }
        } else {
            model
        }
    }

    /// With the divisor latch open, a read of the first or of the second port
    /// gives the low byte of the divisor. A read of the fourth port gives the
    /// line control, and a read of the sixth the line status of an idle
    /// transmitter.
    open spec fn output(model: SerialConsoleView, io: IoAction, memory: Seq<u8>) -> Seq<u8> {
        let serial = model.serial;
        if io == register(model.base, 0, IoDirection::In) && serial.spec_dlab() {
            seq![serial.divisor.1]
        } else if io == register(model.base, 0, IoDirection::Out) {
            memory
        } else if io == register(model.base, 1, IoDirection::In) && serial.spec_dlab() {
            seq![serial.divisor.1]
        } else if io == register(model.base, 1, IoDirection::Out) && serial.spec_dlab() {
            memory
        } else if io == register(model.base, 3, IoDirection::In) {
            seq![serial.control]
        } else if io == register(model.base, 3, IoDirection::Out) {
            memory
        } else if io == register(model.base, 5, IoDirection::In) {
            seq![LINE_STATUS_IDLE]
        } else {
            memory
        }
    }

    open spec fn claims(model: SerialConsoleView, io: IoAction) -> bool {
        ||| io == register(model.base, 0, IoDirection::Out)
        ||| io == register(model.base, 3, IoDirection::In)
        ||| io == register(model.base, 3, IoDirection::Out)
        ||| io == register(model.base, 5, IoDirection::In)
        ||| model.serial.spec_dlab() && {
            ||| io == register(model.base, 0, IoDirection::In)
            ||| io == register(model.base, 1, IoDirection::In)
            ||| io == register(model.base, 1, IoDirection::Out)
        }
    }

    fn request(&self) -> (addresses: Vec<IoAddress>) {
        let mut addresses: Vec<IoAddress> = Vec::new();
        let base = IoAddress::Port(self.base);
        let mut v: u64 = 0;
        while v < 8
            invariant
                v <= 8,
                base == IoAddress::Port(self.base),
                addresses@.len() == v,
                forall|i: int| 0 <= i < v ==> addresses@[i] == base.moved(i as u64),
            decreases 8 - v,
        {
            addresses.push(base.offset(v));
            v += 1;
        }
        assert(addresses@ =~= Self::requests(self@));
        addresses
    }

    fn handle(&mut self, io: IoAction, memory: &mut [u8]) -> (handled: Option<()>) {
        let base = IoAddress::Port(self.base);
        let dlab: bool = self.serial.dlab();
        if io == base.inb() && dlab {
            memory[0] = self.serial.divisor.1;
            assert(memory@ =~= seq![self.serial.divisor.1]);
            Some(())
        } else if io == base.outb() && dlab {
            self.serial.divisor.1 = memory[0];
            Some(())
        } else if io == base.outb() {
            self.output.push(memory[0]);
            assert(self@.output == old(self)@.output.push(memory@[0]));
            Some(())
        } else if io == base.offset(1).inb() && dlab {
            memory[0] = self.serial.divisor.1;
            assert(memory@ =~= seq![self.serial.divisor.1]);
            Some(())
        } else if io == base.offset(1).outb() && dlab {
            self.serial.divisor.0 = memory[0];
            Some(())
        } else if io == base.offset(3).inb() {
            memory[0] = self.serial.control;
            assert(memory@ =~= seq![self.serial.control]);
            Some(())
        } else if io == base.offset(3).outb() {
            self.serial.control = memory[0];
            Some(())
        } else if io == base.offset(5).inb() {
            memory[0] = LINE_STATUS_IDLE;
            assert(memory@ =~= seq![LINE_STATUS_IDLE]);
            Some(())
        } else {
            None
        }
    }
}

} // verus!
