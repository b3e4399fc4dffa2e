//! The CMOS memory with its real-time clock.
//!
//! The guest writes the number of a register to the index port and then reads or
//! writes the register through the data port. The first registers are the clock;
//! they show the time in binary-coded decimals.

use crate::device::Device;
use crate::io::{IoAction, IoAddress, IoDirection};
use vstd::prelude::*;

verus! {

/// The port that selects a register.
pub const CMOS_RAM_INDEX_PORT: u64 = 0x70;

/// The port through which the selected register is read and written.
pub const CMOS_RAM_DATA_PORT: u64 = 0x71;

/// The number of registers.
pub const CMOS_RAM_SIZE: usize = 128;

pub const RTC_SECONDS: u8 = 0x00;

pub const RTC_MINUTES: u8 = 0x02;

pub const RTC_HOURS: u8 = 0x04;

pub const RTC_DAY_OF_WEEK: u8 = 0x06;

pub const RTC_DAY_OF_MONTH: u8 = 0x07;

pub const RTC_MONTH: u8 = 0x08;

pub const RTC_CENTURY: u8 = 0x32;

pub const RTC_REG_C: u8 = 0x0c;

pub const RTC_REG_D: u8 = 0x0d;

/// A moment in universal time, broken down as the C library does it.
#[derive(Debug, Copy, Clone, PartialEq, Eq, Structural)]
pub struct Time {
    /// Seconds of the minute.
    pub sec: u32,
    /// Minutes of the hour.
    pub min: u32,
    /// Hours of the day.
    pub hour: u32,
    /// Days since Sunday.
    pub wday: u32,
    /// The day of the month, from 1 on.
    pub mday: u32,
    /// Years since 1900.
    pub year: u32,
}

/// `value` as a binary-coded decimal: the tens in the high four bits and the ones
/// in the low four. Only values below 100 have such a code; of a larger value the
/// tens lose what does not fit into four bits.
pub open spec fn bcd(value: u32) -> u8 {
    ((value / 10 % 16) * 16 + value % 10) as u8
}

/// Encodes a value as a binary-coded decimal.
pub fn encode(value: u32) -> (code: u8)
    ensures
        code == bcd(value),
{
    let tens: u32 = (value / 10) % 16;
    let ones: u32 = value % 10;
    (tens * 16 + ones) as u8
}

/// What the register `register` shows when the clock stands at `time`, if it is
/// a register of the clock. The day of the week counts from 1 for Sunday; the
/// register at `RTC_MONTH` shows the last two digits of the year, and the one at
/// `RTC_CENTURY` the digits before them.
pub open spec fn clock_register(register: u8, time: Time) -> Option<u8> {
    if register == RTC_SECONDS {
        Some(bcd(time.sec))
    } else if register == RTC_MINUTES {
        Some(bcd(time.min))
    } else if register == RTC_HOURS {
        Some(bcd(time.hour))
    } else if register == RTC_DAY_OF_WEEK {
        Some(bcd(((time.wday + 1) % 0x1_0000_0000) as u32))
    } else if register == RTC_DAY_OF_MONTH {
        Some(bcd(time.mday))
    } else if register == RTC_MONTH {
        Some(bcd((((time.year + 1900) % 0x1_0000_0000) % 100) as u32))
    } else if register == RTC_CENTURY {
        Some(bcd((((time.year + 1900) % 0x1_0000_0000) / 100) as u32))
    } else {
        None
    }
}

/// The CMOS memory and its clock.
///
/// The clock does not run by itself: whoever owns the device sets it with
/// `set_time` before the guest looks at it.
#[derive(Debug)]
pub struct Cmos {
    index: u8,
    ram: Vec<u8>,
    time: Time,
}

/// What the CMOS is at any moment.
pub struct CmosView {
    /// The selected register.
    pub index: u8,
    /// The registers, of which those of the clock are never read.
    pub ram: Seq<u8>,
    /// The time that the clock shows.
    pub time: Time,
}

impl View for Cmos {
    type V = CmosView;

    closed spec fn view(&self) -> CmosView {
        CmosView { index: self.index, ram: self.ram@, time: self.time }
    }
}

impl Cmos {
    #[verifier::type_invariant]
    spec fn wf(self) -> bool {
        self.ram@.len() == CMOS_RAM_SIZE && self.index < CMOS_RAM_SIZE
    }

    /// What a new CMOS is: register 0 is selected, all registers are zero, and
    /// the clock stands at zero.
    pub open spec fn new_view() -> CmosView {
        CmosView {
            index: 0,
            ram: Seq::new(CMOS_RAM_SIZE as nat, |i: int| 0u8),
            time: Time { sec: 0, min: 0, hour: 0, wday: 0, mday: 0, year: 0 },
        }
    }

    /// A new CMOS.
    pub fn new() -> (cmos: Cmos)
        ensures
            cmos@ == Cmos::new_view(),
    {
        let ram: Vec<u8> = vec![0u8; 128];
        assert(ram@ =~= Seq::new(CMOS_RAM_SIZE as nat, |i: int| 0u8));
        Cmos { index: 0, ram, time: Time { sec: 0, min: 0, hour: 0, wday: 0, mday: 0, year: 0 } }
    }

    /// Sets the clock.
    pub fn set_time(&mut self, time: Time)
        ensures
            final(self)@ == (CmosView { index: old(self)@.index, ram: old(self)@.ram, time }),
    {
        proof {
            use_type_invariant(&*self);
        }
        self.time = time;
    }
}

impl Device for Cmos {
    open spec fn requests(model: CmosView) -> Seq<IoAddress> {
        seq![IoAddress::Port(CMOS_RAM_INDEX_PORT), IoAddress::Port(CMOS_RAM_DATA_PORT)]
    }

    /// A byte written to the index port selects the register that its low seven
    /// bits name. A byte written to the data port goes into the selected
    /// register, unless that is one of the two status registers, which cannot be
    /// written.
    open spec fn next(model: CmosView, io: IoAction, memory: Seq<u8>) -> CmosView {
        if io == IoAction(IoAddress::Port(CMOS_RAM_INDEX_PORT), IoDirection::Out, 1) {
            CmosView { index: memory[0] & 0x7f, ram: model.ram, time: model.time }
        } else if io == IoAction(IoAddress::Port(CMOS_RAM_DATA_PORT), IoDirection::Out, 1) {
            if model.index == RTC_REG_C || model.index == RTC_REG_D {
                model
            } else {
                CmosView {
                    index: model.index,
                    ram: model.ram.update(model.index as int, memory[0]),
                    time: model.time,
                }
            }
        } else {
            model
        }
    }

    /// A byte read from the data port is what the clock shows in the selected
    /// register, or what the register holds where it is none of the clock's.
    open spec fn output(model: CmosView, io: IoAction, memory: Seq<u8>) -> Seq<u8> {
        if io == IoAction(IoAddress::Port(CMOS_RAM_DATA_PORT), IoDirection::In, 1) {
            seq![
                match clock_register(model.index, model.time) {
                    Some(value) => value,
                    None => model.ram[model.index as int],
                },
            ]
        } else {
            memory
        }
    }

    open spec fn claims(model: CmosView, io: IoAction) -> bool {
        ||| io == IoAction(IoAddress::Port(CMOS_RAM_INDEX_PORT), IoDirection::Out, 1)
        ||| io == IoAction(IoAddress::Port(CMOS_RAM_DATA_PORT), IoDirection::In, 1)
        ||| io == IoAction(IoAddress::Port(CMOS_RAM_DATA_PORT), IoDirection::Out, 1)
    }

    fn request(&self) -> (addresses: Vec<IoAddress>) {
        let mut addresses: Vec<IoAddress> = Vec::new();
        addresses.push(IoAddress::Port(CMOS_RAM_INDEX_PORT));
        addresses.push(IoAddress::Port(CMOS_RAM_DATA_PORT));
        assert(addresses@ =~= Self::requests(self@));
        addresses
    }

    fn handle(&mut self, io: IoAction, memory: &mut [u8]) -> (handled: Option<()>) {
        proof {
            use_type_invariant(&*self);
        }
        let index_port = IoAddress::Port(CMOS_RAM_INDEX_PORT);
        let data_port = IoAddress::Port(CMOS_RAM_DATA_PORT);
        if io == index_port.outb() {
            let byte: u8 = memory[0];
            let selected: u8 = byte & 0x7f;
            assert(selected < 128) by (bit_vector)
                requires
                    selected == byte & 0x7f,
            ;
            self.index = selected;
            Some(())
        } else if io == data_port.inb() {
            let address: u8 = self.index;
            let time = self.time;
            let value: u8 = if address == RTC_SECONDS {
                encode(time.sec)
            } else if address == RTC_MINUTES {
                encode(time.min)
            } else if address == RTC_HOURS {
                encode(time.hour)
            } else if address == RTC_DAY_OF_WEEK {
                encode(time.wday.wrapping_add(1))
            } else if address == RTC_DAY_OF_MONTH {
                encode(time.mday)
            } else if address == RTC_MONTH {
                encode(time.year.wrapping_add(1900) % 100)
            } else if address == RTC_CENTURY {
                encode(time.year.wrapping_add(1900) / 100)
            } else {
                self.ram[address as usize]
            };
            memory[0] = value;
            assert(memory@ =~= Self::output(old(self)@, io, old(memory)@));
            Some(())
        } else if io == data_port.outb() {
            let address: u8 = self.index;
            if address == RTC_REG_C || address == RTC_REG_D {
            } else {
                let value: u8 = memory[0];
                self.ram[address as usize] = value;
            }
            Some(())
        } else {
            None
        }
    }
}

} // verus!
