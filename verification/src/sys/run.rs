//! The control page that a virtual CPU shares with the kernel, and the payload that
//! goes with each reason for leaving the guest.
//!
//! The kernel describes an exit by a number, the exit reason, and up to 256 bytes
//! whose meaning depends on that number. Here each meaning is a type of its own,
//! together with the place of every field among those bytes. Integers are
//! little-endian, as on every x86 machine, and a field stands at a multiple of its
//! size.

use crate::bytes::{
    get_bytes, get_u16, get_u32, get_u64, get_words, group_stored, put_bytes, put_u16, put_u32,
    put_words,
    put_u64, put_u8, splice, store_u16, store_u32, store_u64, store_u8, store_words, stored_u16,
    stored_u32, stored_u64, stored_words,
};
use vstd::prelude::*;

verus! {

pub const KVM_S390_RESET_POR: u64 = 1;

pub const KVM_S390_RESET_CLEAR: u64 = 2;

pub const KVM_S390_RESET_SUBSYSTEM: u64 = 4;

pub const KVM_S390_RESET_CPU_INIT: u64 = 8;

pub const KVM_S390_RESET_IPL: u64 = 16;

/// The guest reads from a port.
pub const KVM_EXIT_IO_IN: u8 = 0;

/// The guest writes to a port.
pub const KVM_EXIT_IO_OUT: u8 = 1;

pub const KVM_SYSTEM_EVENT_SHUTDOWN: u32 = 1;

pub const KVM_SYSTEM_EVENT_RESET: u32 = 2;

pub const KVM_SYSTEM_EVENT_CRASH: u32 = 3;

pub const KVM_EXIT_UNKNOWN: u32 = 0;

pub const KVM_EXIT_EXCEPTION: u32 = 1;

pub const KVM_EXIT_IO: u32 = 2;

pub const KVM_EXIT_HYPERCALL: u32 = 3;

pub const KVM_EXIT_DEBUG: u32 = 4;

pub const KVM_EXIT_HLT: u32 = 5;

pub const KVM_EXIT_MMIO: u32 = 6;

pub const KVM_EXIT_IRQ_WINDOW_OPEN: u32 = 7;

pub const KVM_EXIT_SHUTDOWN: u32 = 8;

pub const KVM_EXIT_FAIL_ENTRY: u32 = 9;

pub const KVM_EXIT_INTR: u32 = 10;

pub const KVM_EXIT_SET_TPR: u32 = 11;

pub const KVM_EXIT_TPR_ACCESS: u32 = 12;

pub const KVM_EXIT_S390_SIEIC: u32 = 13;

pub const KVM_EXIT_S390_RESET: u32 = 14;

/// Deprecated.
pub const KVM_EXIT_DCR: u32 = 15;

pub const KVM_EXIT_NMI: u32 = 16;

pub const KVM_EXIT_INTERNAL_ERROR: u32 = 17;

pub const KVM_EXIT_OSI: u32 = 18;

pub const KVM_EXIT_PAPR_HCALL: u32 = 19;

pub const KVM_EXIT_S390_UCONTROL: u32 = 20;

pub const KVM_EXIT_WATCHDOG: u32 = 21;

pub const KVM_EXIT_S390_TSCH: u32 = 22;

pub const KVM_EXIT_EPR: u32 = 23;

pub const KVM_EXIT_SYSTEM_EVENT: u32 = 24;

pub const KVM_EXIT_S390_STSI: u32 = 25;

pub const KVM_EXIT_IOAPIC_EOI: u32 = 26;

pub const KVM_EXIT_HYPERV: u32 = 27;

/// The size of the payload area in bytes.
pub const EXIT_SIZE: usize = 256;

/// The payload of an exit as the kernel left it: bytes whose meaning the exit
/// reason decides.
#[derive(Debug, Copy, Clone, PartialEq, Eq)]
pub struct Exit {
    pub raw: [u8; 256],
}

/// A payload area that holds nothing: 256 zero bytes.
pub open spec fn blank() -> Seq<u8> {
    Seq::new(256, |i: int| 0u8)
}

impl Exit {
    /// A payload area that holds nothing.
    pub fn zeroed() -> (exit: Exit)
        ensures
            exit.raw@ == blank(),
    {
        let exit = Exit { raw: [0u8;256] };
        assert(exit.raw@ =~= blank());
        exit
    }

    /// The payload of a reset of an s390 machine: the reset flags, at the start
    /// of the area.
    pub open spec fn reset_flags_payload(flags: u64) -> Seq<u8> {
        store_u64(blank(), 0, flags)
    }

    /// The reset flags that the area holds.
    pub open spec fn reset_flags_of(raw: Seq<u8>) -> u64 {
        stored_u64(raw, 0)
    }

    /// Reads the reset flags of an s390 machine.
    pub fn reset_flags(&self) -> (flags: u64)
        ensures
            flags == Exit::reset_flags_of(self.raw@),
    {
        get_u64(&self.raw, 0)
    }

    /// The payload area that holds the reset flags of an s390 machine and
    /// nothing else.
    pub fn from_reset_flags(flags: u64) -> (exit: Exit)
        ensures
            exit.raw@ == Exit::reset_flags_payload(flags),
    {
        let mut exit = Exit::zeroed();
        put_u64(&mut exit.raw, 0, flags);
        exit
    }

    /// The flags written into an empty area are the flags read from it.
    pub proof fn lemma_reset_flags_round_trip(flags: u64)
        ensures
            Exit::reset_flags_of(Exit::reset_flags_payload(flags)) == flags,
    {
        broadcast use group_stored;
    }
}


/// The hardware left the guest for a reason the kernel does not know. (`KVM_EXIT_UNKNOWN`)
#[derive(Debug, Copy, Clone, PartialEq, Eq)]
pub struct ExitUnknown {
    pub hardware_exit_reason: u64,
}

impl ExitUnknown {
    /// The payload area that holds these fields, each at its place, and zeros
    /// everywhere else.
    pub open spec fn payload(self) -> Seq<u8> {
        store_u64(blank(), 0, self.hardware_exit_reason)
    }

    /// Whether `self` is what the payload area `raw` holds: every field has the
    /// value that stands at its place.
    pub open spec fn read_from(self, raw: Seq<u8>) -> bool {
        &&& self.hardware_exit_reason == stored_u64(raw, 0)
    }

    /// Reads the fields out of a payload area.
    pub fn decode(exit: &Exit) -> (fields: ExitUnknown)
        ensures
            fields.read_from(exit.raw@),
    {
        let hardware_exit_reason: u64 = get_u64(&exit.raw, 0);
        ExitUnknown { hardware_exit_reason }
    }

    /// Lays the fields out in a payload area that is zero everywhere else.
    pub fn encode(&self) -> (exit: Exit)
        ensures
            exit.raw@ == self.payload(),
    {
        let mut exit = Exit::zeroed();
        put_u64(&mut exit.raw, 0, self.hardware_exit_reason);
        exit
    }

    /// The fields that were laid out are the fields that are read back.
    pub proof fn lemma_round_trip(self)
        ensures
            self.read_from(self.payload()),
    {
        broadcast use group_stored;
    }
}

/// The hardware refused to enter the guest. (`KVM_EXIT_FAIL_ENTRY`)
#[derive(Debug, Copy, Clone, PartialEq, Eq)]
pub struct ExitFailEntry {
    pub hardware_entry_failure_reason: u64,
}

impl ExitFailEntry {
    /// The payload area that holds these fields, each at its place, and zeros
    /// everywhere else.
    pub open spec fn payload(self) -> Seq<u8> {
        store_u64(blank(), 0, self.hardware_entry_failure_reason)
    }

    /// Whether `self` is what the payload area `raw` holds: every field has the
    /// value that stands at its place.
    pub open spec fn read_from(self, raw: Seq<u8>) -> bool {
        &&& self.hardware_entry_failure_reason == stored_u64(raw, 0)
    }

    /// Reads the fields out of a payload area.
    pub fn decode(exit: &Exit) -> (fields: ExitFailEntry)
        ensures
            fields.read_from(exit.raw@),
    {
        let hardware_entry_failure_reason: u64 = get_u64(&exit.raw, 0);
        ExitFailEntry { hardware_entry_failure_reason }
    }

    /// Lays the fields out in a payload area that is zero everywhere else.
    pub fn encode(&self) -> (exit: Exit)
        ensures
            exit.raw@ == self.payload(),
    {
        let mut exit = Exit::zeroed();
        put_u64(&mut exit.raw, 0, self.hardware_entry_failure_reason);
        exit
    }

    /// The fields that were laid out are the fields that are read back.
    pub proof fn lemma_round_trip(self)
        ensures
            self.read_from(self.payload()),
    {
        broadcast use group_stored;
    }
}

/// The guest raised an exception. (`KVM_EXIT_EXCEPTION`)
#[derive(Debug, Copy, Clone, PartialEq, Eq)]
pub struct ExitException {
    pub exception: u32,
    pub error_code: u32,
}

impl ExitException {
    /// The payload area that holds these fields, each at its place, and zeros
    /// everywhere else.
    pub open spec fn payload(self) -> Seq<u8> {
        let with_exception = store_u32(blank(), 0, self.exception);
        store_u32(with_exception, 4, self.error_code)
    }

    /// Whether `self` is what the payload area `raw` holds: every field has the
    /// value that stands at its place.
    pub open spec fn read_from(self, raw: Seq<u8>) -> bool {
        &&& self.exception == stored_u32(raw, 0)
        &&& self.error_code == stored_u32(raw, 4)
    }

    /// Reads the fields out of a payload area.
    pub fn decode(exit: &Exit) -> (fields: ExitException)
        ensures
            fields.read_from(exit.raw@),
    {
        let exception: u32 = get_u32(&exit.raw, 0);
        let error_code: u32 = get_u32(&exit.raw, 4);
        ExitException { exception, error_code }
    }

    /// Lays the fields out in a payload area that is zero everywhere else.
    pub fn encode(&self) -> (exit: Exit)
        ensures
            exit.raw@ == self.payload(),
    {
        let mut exit = Exit::zeroed();
        put_u32(&mut exit.raw, 0, self.exception);
        put_u32(&mut exit.raw, 4, self.error_code);
        exit
    }

    /// The fields that were laid out are the fields that are read back.
    pub proof fn lemma_round_trip(self)
        ensures
            self.read_from(self.payload()),
    {
        broadcast use group_stored;
    }
}

/// The guest executed a port I/O instruction. (`KVM_EXIT_IO`)
#[derive(Debug, Copy, Clone, PartialEq, Eq)]
pub struct ExitIo {
    /// `KVM_EXIT_IO_IN` or `KVM_EXIT_IO_OUT`.
    pub direction: u8,
    /// The bytes of one access.
    pub size: u8,
    pub port: u16,
    /// How many accesses the instruction makes.
    pub count: u32,
    /// Where in the control page the data of the first access stands.
    pub data_offset: u64,
}

impl ExitIo {
    /// The payload area that holds these fields, each at its place, and zeros
    /// everywhere else.
    pub open spec fn payload(self) -> Seq<u8> {
        let with_direction = store_u8(blank(), 0, self.direction);
        let with_size = store_u8(with_direction, 1, self.size);
        let with_port = store_u16(with_size, 2, self.port);
        let with_count = store_u32(with_port, 4, self.count);
        store_u64(with_count, 8, self.data_offset)
    }

    /// Whether `self` is what the payload area `raw` holds: every field has the
    /// value that stands at its place.
    pub open spec fn read_from(self, raw: Seq<u8>) -> bool {
        &&& self.direction == raw[0]
        &&& self.size == raw[1]
        &&& self.port == stored_u16(raw, 2)
        &&& self.count == stored_u32(raw, 4)
        &&& self.data_offset == stored_u64(raw, 8)
    }

    /// Reads the fields out of a payload area.
    pub fn decode(exit: &Exit) -> (fields: ExitIo)
        ensures
            fields.read_from(exit.raw@),
    {
        let direction: u8 = exit.raw[0];
        let size: u8 = exit.raw[1];
        let port: u16 = get_u16(&exit.raw, 2);
        let count: u32 = get_u32(&exit.raw, 4);
        let data_offset: u64 = get_u64(&exit.raw, 8);
        ExitIo { direction, size, port, count, data_offset }
    }

    /// Lays the fields out in a payload area that is zero everywhere else.
    pub fn encode(&self) -> (exit: Exit)
        ensures
            exit.raw@ == self.payload(),
    {
        let mut exit = Exit::zeroed();
        put_u8(&mut exit.raw, 0, self.direction);
        put_u8(&mut exit.raw, 1, self.size);
        put_u16(&mut exit.raw, 2, self.port);
        put_u32(&mut exit.raw, 4, self.count);
        put_u64(&mut exit.raw, 8, self.data_offset);
        exit
    }

    /// The fields that were laid out are the fields that are read back.
    pub proof fn lemma_round_trip(self)
        ensures
            self.read_from(self.payload()),
    {
        broadcast use group_stored;
    }
}

/// The guest touched memory that no slot backs. (`KVM_EXIT_MMIO`)
#[derive(Debug, Copy, Clone, PartialEq, Eq)]
pub struct ExitMmio {
    pub phys_addr: u64,
    pub data: [u8; 8],
    /// How many bytes of `data` the access moves.
    pub len: u32,
    /// Nonzero when the guest writes.
    pub is_write: u8,
}

impl ExitMmio {
    /// The payload area that holds these fields, each at its place, and zeros
    /// everywhere else.
    pub open spec fn payload(self) -> Seq<u8> {
        let with_phys_addr = store_u64(blank(), 0, self.phys_addr);
        let with_data = splice(with_phys_addr, 8, self.data@);
        let with_len = store_u32(with_data, 16, self.len);
        store_u8(with_len, 20, self.is_write)
    }

    /// Whether `self` is what the payload area `raw` holds: every field has the
    /// value that stands at its place.
    pub open spec fn read_from(self, raw: Seq<u8>) -> bool {
        &&& self.phys_addr == stored_u64(raw, 0)
        &&& self.data@ == raw.subrange(8, 16)
        &&& self.len == stored_u32(raw, 16)
        &&& self.is_write == raw[20]
    }

    /// Reads the fields out of a payload area.
    pub fn decode(exit: &Exit) -> (fields: ExitMmio)
        ensures
            fields.read_from(exit.raw@),
    {
        let phys_addr: u64 = get_u64(&exit.raw, 0);
        let data: [u8; 8] = get_bytes(&exit.raw, 8);
        let len: u32 = get_u32(&exit.raw, 16);
        let is_write: u8 = exit.raw[20];
        ExitMmio { phys_addr, data, len, is_write }
    }

    /// Lays the fields out in a payload area that is zero everywhere else.
    pub fn encode(&self) -> (exit: Exit)
        ensures
            exit.raw@ == self.payload(),
    {
        let mut exit = Exit::zeroed();
        put_u64(&mut exit.raw, 0, self.phys_addr);
        put_bytes(&mut exit.raw, 8, &self.data);
        put_u32(&mut exit.raw, 16, self.len);
        put_u8(&mut exit.raw, 20, self.is_write);
        exit
    }

    /// The fields that were laid out are the fields that are read back.
    pub proof fn lemma_round_trip(self)
        ensures
            self.read_from(self.payload()),
    {
        broadcast use group_stored;
    }
}

/// The guest made a hypercall. (`KVM_EXIT_HYPERCALL`)
#[derive(Debug, Copy, Clone, PartialEq, Eq)]
pub struct ExitHypercall {
    pub nr: u64,
    pub args: [u64; 6],
    pub ret: u64,
    pub longmode: u32,
}

impl ExitHypercall {
    /// The payload area that holds these fields, each at its place, and zeros
    /// everywhere else.
    pub open spec fn payload(self) -> Seq<u8> {
        let with_nr = store_u64(blank(), 0, self.nr);
        let with_args = store_words(with_nr, 8, self.args@);
        let with_ret = store_u64(with_args, 56, self.ret);
        store_u32(with_ret, 64, self.longmode)
    }

    /// Whether `self` is what the payload area `raw` holds: every field has the
    /// value that stands at its place.
    pub open spec fn read_from(self, raw: Seq<u8>) -> bool {
        &&& self.nr == stored_u64(raw, 0)
        &&& self.args@ == stored_words(raw, 8, 6)
        &&& self.ret == stored_u64(raw, 56)
        &&& self.longmode == stored_u32(raw, 64)
    }

    /// Reads the fields out of a payload area.
    pub fn decode(exit: &Exit) -> (fields: ExitHypercall)
        ensures
            fields.read_from(exit.raw@),
    {
        let nr: u64 = get_u64(&exit.raw, 0);
        let args: [u64; 6] = get_words(&exit.raw, 8);
        let ret: u64 = get_u64(&exit.raw, 56);
        let longmode: u32 = get_u32(&exit.raw, 64);
        ExitHypercall { nr, args, ret, longmode }
    }

    /// Lays the fields out in a payload area that is zero everywhere else.
    pub fn encode(&self) -> (exit: Exit)
        ensures
            exit.raw@ == self.payload(),
    {
        let mut exit = Exit::zeroed();
        put_u64(&mut exit.raw, 0, self.nr);
        put_words(&mut exit.raw, 8, &self.args);
        put_u64(&mut exit.raw, 56, self.ret);
        put_u32(&mut exit.raw, 64, self.longmode);
        exit
    }

    /// The fields that were laid out are the fields that are read back.
    pub proof fn lemma_round_trip(self)
        ensures
            self.read_from(self.payload()),
    {
        broadcast use group_stored;
    }
}

/// The guest accessed the task-priority register. (`KVM_EXIT_TPR_ACCESS`)
#[derive(Debug, Copy, Clone, PartialEq, Eq)]
pub struct ExitTprAccess {
    pub rip: u64,
    pub is_write: u32,
}

impl ExitTprAccess {
    /// The payload area that holds these fields, each at its place, and zeros
    /// everywhere else.
    pub open spec fn payload(self) -> Seq<u8> {
        let with_rip = store_u64(blank(), 0, self.rip);
        store_u32(with_rip, 8, self.is_write)
    }

    /// Whether `self` is what the payload area `raw` holds: every field has the
    /// value that stands at its place.
    pub open spec fn read_from(self, raw: Seq<u8>) -> bool {
        &&& self.rip == stored_u64(raw, 0)
        &&& self.is_write == stored_u32(raw, 8)
    }

    /// Reads the fields out of a payload area.
    pub fn decode(exit: &Exit) -> (fields: ExitTprAccess)
        ensures
            fields.read_from(exit.raw@),
    {
        let rip: u64 = get_u64(&exit.raw, 0);
        let is_write: u32 = get_u32(&exit.raw, 8);
        ExitTprAccess { rip, is_write }
    }

    /// Lays the fields out in a payload area that is zero everywhere else.
    pub fn encode(&self) -> (exit: Exit)
        ensures
            exit.raw@ == self.payload(),
    {
        let mut exit = Exit::zeroed();
        put_u64(&mut exit.raw, 0, self.rip);
        put_u32(&mut exit.raw, 8, self.is_write);
        exit
    }

    /// The fields that were laid out are the fields that are read back.
    pub proof fn lemma_round_trip(self)
        ensures
            self.read_from(self.payload()),
    {
        broadcast use group_stored;
    }
}

/// An s390 interception. (`KVM_EXIT_S390_SIEIC`)
#[derive(Debug, Copy, Clone, PartialEq, Eq)]
pub struct ExitS390Sieic {
    pub icptcode: u8,
    pub ipa: u16,
    pub ipb: u32,
}

impl ExitS390Sieic {
    /// The payload area that holds these fields, each at its place, and zeros
    /// everywhere else.
    pub open spec fn payload(self) -> Seq<u8> {
        let with_icptcode = store_u8(blank(), 0, self.icptcode);
        let with_ipa = store_u16(with_icptcode, 2, self.ipa);
        store_u32(with_ipa, 4, self.ipb)
    }

    /// Whether `self` is what the payload area `raw` holds: every field has the
    /// value that stands at its place.
    pub open spec fn read_from(self, raw: Seq<u8>) -> bool {
        &&& self.icptcode == raw[0]
        &&& self.ipa == stored_u16(raw, 2)
        &&& self.ipb == stored_u32(raw, 4)
    }

    /// Reads the fields out of a payload area.
    pub fn decode(exit: &Exit) -> (fields: ExitS390Sieic)
        ensures
            fields.read_from(exit.raw@),
    {
        let icptcode: u8 = exit.raw[0];
        let ipa: u16 = get_u16(&exit.raw, 2);
        let ipb: u32 = get_u32(&exit.raw, 4);
        ExitS390Sieic { icptcode, ipa, ipb }
    }

    /// Lays the fields out in a payload area that is zero everywhere else.
    pub fn encode(&self) -> (exit: Exit)
        ensures
            exit.raw@ == self.payload(),
    {
        let mut exit = Exit::zeroed();
        put_u8(&mut exit.raw, 0, self.icptcode);
        put_u16(&mut exit.raw, 2, self.ipa);
        put_u32(&mut exit.raw, 4, self.ipb);
        exit
    }

    /// The fields that were laid out are the fields that are read back.
    pub proof fn lemma_round_trip(self)
        ensures
            self.read_from(self.payload()),
    {
        broadcast use group_stored;
    }
}

/// An s390 fault of a user-controlled machine. (`KVM_EXIT_S390_UCONTROL`)
#[derive(Debug, Copy, Clone, PartialEq, Eq)]
pub struct ExitS390Ucontrol {
    pub trans_exc_code: u64,
}

impl ExitS390Ucontrol {
    /// The payload area that holds these fields, each at its place, and zeros
    /// everywhere else.
    pub open spec fn payload(self) -> Seq<u8> {
        store_u64(blank(), 0, self.trans_exc_code)
    }

    /// Whether `self` is what the payload area `raw` holds: every field has the
    /// value that stands at its place.
    pub open spec fn read_from(self, raw: Seq<u8>) -> bool {
        &&& self.trans_exc_code == stored_u64(raw, 0)
    }

    /// Reads the fields out of a payload area.
    pub fn decode(exit: &Exit) -> (fields: ExitS390Ucontrol)
        ensures
            fields.read_from(exit.raw@),
    {
        let trans_exc_code: u64 = get_u64(&exit.raw, 0);
        ExitS390Ucontrol { trans_exc_code }
    }

    /// Lays the fields out in a payload area that is zero everywhere else.
    pub fn encode(&self) -> (exit: Exit)
        ensures
            exit.raw@ == self.payload(),
    {
        let mut exit = Exit::zeroed();
        put_u64(&mut exit.raw, 0, self.trans_exc_code);
        exit
    }

    /// The fields that were laid out are the fields that are read back.
    pub proof fn lemma_round_trip(self)
        ensures
            self.read_from(self.payload()),
    {
        broadcast use group_stored;
    }
}

/// A PowerPC device-control-register access (deprecated). (`KVM_EXIT_DCR`)
#[derive(Debug, Copy, Clone, PartialEq, Eq)]
pub struct ExitDcr {
    pub dcrn: u32,
    pub data: u32,
    pub is_write: u8,
}

impl ExitDcr {
    /// The payload area that holds these fields, each at its place, and zeros
    /// everywhere else.
    pub open spec fn payload(self) -> Seq<u8> {
        let with_dcrn = store_u32(blank(), 0, self.dcrn);
        let with_data = store_u32(with_dcrn, 4, self.data);
        store_u8(with_data, 8, self.is_write)
    }

    /// Whether `self` is what the payload area `raw` holds: every field has the
    /// value that stands at its place.
    pub open spec fn read_from(self, raw: Seq<u8>) -> bool {
        &&& self.dcrn == stored_u32(raw, 0)
        &&& self.data == stored_u32(raw, 4)
        &&& self.is_write == raw[8]
    }

    /// Reads the fields out of a payload area.
    pub fn decode(exit: &Exit) -> (fields: ExitDcr)
        ensures
            fields.read_from(exit.raw@),
    {
        let dcrn: u32 = get_u32(&exit.raw, 0);
        let data: u32 = get_u32(&exit.raw, 4);
        let is_write: u8 = exit.raw[8];
        ExitDcr { dcrn, data, is_write }
    }

    /// Lays the fields out in a payload area that is zero everywhere else.
    pub fn encode(&self) -> (exit: Exit)
        ensures
            exit.raw@ == self.payload(),
    {
        let mut exit = Exit::zeroed();
        put_u32(&mut exit.raw, 0, self.dcrn);
        put_u32(&mut exit.raw, 4, self.data);
        put_u8(&mut exit.raw, 8, self.is_write);
        exit
    }

    /// The fields that were laid out are the fields that are read back.
    pub proof fn lemma_round_trip(self)
        ensures
            self.read_from(self.payload()),
    {
        broadcast use group_stored;
    }
}

/// The kernel hit an internal error. (`KVM_EXIT_INTERNAL_ERROR`)
#[derive(Debug, Copy, Clone, PartialEq, Eq)]
pub struct ExitInternal {
    pub suberror: u32,
    /// How many entries of `data` are filled.
    pub ndata: u32,
    pub data: [u64; 16],
}

impl ExitInternal {
    /// The payload area that holds these fields, each at its place, and zeros
    /// everywhere else.
    pub open spec fn payload(self) -> Seq<u8> {
        let with_suberror = store_u32(blank(), 0, self.suberror);
        let with_ndata = store_u32(with_suberror, 4, self.ndata);
        store_words(with_ndata, 8, self.data@)
    }

    /// Whether `self` is what the payload area `raw` holds: every field has the
    /// value that stands at its place.
    pub open spec fn read_from(self, raw: Seq<u8>) -> bool {
        &&& self.suberror == stored_u32(raw, 0)
        &&& self.ndata == stored_u32(raw, 4)
        &&& self.data@ == stored_words(raw, 8, 16)
    }

    /// Reads the fields out of a payload area.
    pub fn decode(exit: &Exit) -> (fields: ExitInternal)
        ensures
            fields.read_from(exit.raw@),
    {
        let suberror: u32 = get_u32(&exit.raw, 0);
        let ndata: u32 = get_u32(&exit.raw, 4);
        let data: [u64; 16] = get_words(&exit.raw, 8);
        ExitInternal { suberror, ndata, data }
    }

    /// Lays the fields out in a payload area that is zero everywhere else.
    pub fn encode(&self) -> (exit: Exit)
        ensures
            exit.raw@ == self.payload(),
    {
        let mut exit = Exit::zeroed();
        put_u32(&mut exit.raw, 0, self.suberror);
        put_u32(&mut exit.raw, 4, self.ndata);
        put_words(&mut exit.raw, 8, &self.data);
        exit
    }

    /// The fields that were laid out are the fields that are read back.
    pub proof fn lemma_round_trip(self)
        ensures
            self.read_from(self.payload()),
    {
        broadcast use group_stored;
    }
}

/// A PowerPC OSI call. (`KVM_EXIT_OSI`)
#[derive(Debug, Copy, Clone, PartialEq, Eq)]
pub struct ExitOsi {
    pub gprs: [u64; 32],
}

impl ExitOsi {
    /// The payload area that holds these fields, each at its place, and zeros
    /// everywhere else.
    pub open spec fn payload(self) -> Seq<u8> {
        store_words(blank(), 0, self.gprs@)
    }

    /// Whether `self` is what the payload area `raw` holds: every field has the
    /// value that stands at its place.
    pub open spec fn read_from(self, raw: Seq<u8>) -> bool {
        &&& self.gprs@ == stored_words(raw, 0, 32)
    }

    /// Reads the fields out of a payload area.
    pub fn decode(exit: &Exit) -> (fields: ExitOsi)
        ensures
            fields.read_from(exit.raw@),
    {
        let gprs: [u64; 32] = get_words(&exit.raw, 0);
        ExitOsi { gprs }
    }

    /// Lays the fields out in a payload area that is zero everywhere else.
    pub fn encode(&self) -> (exit: Exit)
        ensures
            exit.raw@ == self.payload(),
    {
        let mut exit = Exit::zeroed();
        put_words(&mut exit.raw, 0, &self.gprs);
        exit
    }

    /// The fields that were laid out are the fields that are read back.
    pub proof fn lemma_round_trip(self)
        ensures
            self.read_from(self.payload()),
    {
        broadcast use group_stored;
    }
}

/// A PowerPC PAPR hypercall. (`KVM_EXIT_PAPR_HCALL`)
#[derive(Debug, Copy, Clone, PartialEq, Eq)]
pub struct ExitPaprHcall {
    pub nr: u64,
    pub ret: u64,
    pub args: [u64; 9],
}

impl ExitPaprHcall {
    /// The payload area that holds these fields, each at its place, and zeros
    /// everywhere else.
    pub open spec fn payload(self) -> Seq<u8> {
        let with_nr = store_u64(blank(), 0, self.nr);
        let with_ret = store_u64(with_nr, 8, self.ret);
        store_words(with_ret, 16, self.args@)
    }

    /// Whether `self` is what the payload area `raw` holds: every field has the
    /// value that stands at its place.
    pub open spec fn read_from(self, raw: Seq<u8>) -> bool {
        &&& self.nr == stored_u64(raw, 0)
        &&& self.ret == stored_u64(raw, 8)
        &&& self.args@ == stored_words(raw, 16, 9)
    }

    /// Reads the fields out of a payload area.
    pub fn decode(exit: &Exit) -> (fields: ExitPaprHcall)
        ensures
            fields.read_from(exit.raw@),
    {
        let nr: u64 = get_u64(&exit.raw, 0);
        let ret: u64 = get_u64(&exit.raw, 8);
        let args: [u64; 9] = get_words(&exit.raw, 16);
        ExitPaprHcall { nr, ret, args }
    }

    /// Lays the fields out in a payload area that is zero everywhere else.
    pub fn encode(&self) -> (exit: Exit)
        ensures
            exit.raw@ == self.payload(),
    {
        let mut exit = Exit::zeroed();
        put_u64(&mut exit.raw, 0, self.nr);
        put_u64(&mut exit.raw, 8, self.ret);
        put_words(&mut exit.raw, 16, &self.args);
        exit
    }

    /// The fields that were laid out are the fields that are read back.
    pub proof fn lemma_round_trip(self)
        ensures
            self.read_from(self.payload()),
    {
        broadcast use group_stored;
    }
}

/// An s390 test-subchannel instruction. (`KVM_EXIT_S390_TSCH`)
#[derive(Debug, Copy, Clone, PartialEq, Eq)]
pub struct ExitS390Tsch {
    pub subchannel_id: u16,
    pub subchannel_nr: u16,
    pub io_int_parm: u32,
    pub io_int_word: u32,
    pub ipb: u32,
    pub dequeued: u8,
}

impl ExitS390Tsch {
    /// The payload area that holds these fields, each at its place, and zeros
    /// everywhere else.
    pub open spec fn payload(self) -> Seq<u8> {
        let with_subchannel_id = store_u16(blank(), 0, self.subchannel_id);
        let with_subchannel_nr = store_u16(with_subchannel_id, 2, self.subchannel_nr);
        let with_io_int_parm = store_u32(with_subchannel_nr, 4, self.io_int_parm);
        let with_io_int_word = store_u32(with_io_int_parm, 8, self.io_int_word);
        let with_ipb = store_u32(with_io_int_word, 12, self.ipb);
        store_u8(with_ipb, 16, self.dequeued)
    }

    /// Whether `self` is what the payload area `raw` holds: every field has the
    /// value that stands at its place.
    pub open spec fn read_from(self, raw: Seq<u8>) -> bool {
        &&& self.subchannel_id == stored_u16(raw, 0)
        &&& self.subchannel_nr == stored_u16(raw, 2)
        &&& self.io_int_parm == stored_u32(raw, 4)
        &&& self.io_int_word == stored_u32(raw, 8)
        &&& self.ipb == stored_u32(raw, 12)
        &&& self.dequeued == raw[16]
    }

    /// Reads the fields out of a payload area.
    pub fn decode(exit: &Exit) -> (fields: ExitS390Tsch)
        ensures
            fields.read_from(exit.raw@),
    {
        let subchannel_id: u16 = get_u16(&exit.raw, 0);
        let subchannel_nr: u16 = get_u16(&exit.raw, 2);
        let io_int_parm: u32 = get_u32(&exit.raw, 4);
        let io_int_word: u32 = get_u32(&exit.raw, 8);
        let ipb: u32 = get_u32(&exit.raw, 12);
        let dequeued: u8 = exit.raw[16];
        ExitS390Tsch { subchannel_id, subchannel_nr, io_int_parm, io_int_word, ipb, dequeued }
    }

    /// Lays the fields out in a payload area that is zero everywhere else.
    pub fn encode(&self) -> (exit: Exit)
        ensures
            exit.raw@ == self.payload(),
    {
        let mut exit = Exit::zeroed();
        put_u16(&mut exit.raw, 0, self.subchannel_id);
        put_u16(&mut exit.raw, 2, self.subchannel_nr);
        put_u32(&mut exit.raw, 4, self.io_int_parm);
        put_u32(&mut exit.raw, 8, self.io_int_word);
        put_u32(&mut exit.raw, 12, self.ipb);
        put_u8(&mut exit.raw, 16, self.dequeued);
        exit
    }

    /// The fields that were laid out are the fields that are read back.
    pub proof fn lemma_round_trip(self)
        ensures
            self.read_from(self.payload()),
    {
        broadcast use group_stored;
    }
}

/// A PowerPC external-proxy interrupt. (`KVM_EXIT_EPR`)
#[derive(Debug, Copy, Clone, PartialEq, Eq)]
pub struct ExitEpr {
    pub epr: u32,
}

impl ExitEpr {
    /// The payload area that holds these fields, each at its place, and zeros
    /// everywhere else.
    pub open spec fn payload(self) -> Seq<u8> {
        store_u32(blank(), 0, self.epr)
    }

    /// Whether `self` is what the payload area `raw` holds: every field has the
    /// value that stands at its place.
    pub open spec fn read_from(self, raw: Seq<u8>) -> bool {
        &&& self.epr == stored_u32(raw, 0)
    }

    /// Reads the fields out of a payload area.
    pub fn decode(exit: &Exit) -> (fields: ExitEpr)
        ensures
            fields.read_from(exit.raw@),
    {
        let epr: u32 = get_u32(&exit.raw, 0);
        ExitEpr { epr }
    }

    /// Lays the fields out in a payload area that is zero everywhere else.
    pub fn encode(&self) -> (exit: Exit)
        ensures
            exit.raw@ == self.payload(),
    {
        let mut exit = Exit::zeroed();
        put_u32(&mut exit.raw, 0, self.epr);
        exit
    }

    /// The fields that were laid out are the fields that are read back.
    pub proof fn lemma_round_trip(self)
        ensures
            self.read_from(self.payload()),
    {
        broadcast use group_stored;
    }
}

/// The guest asked for a shutdown or reset, or crashed. (`KVM_EXIT_SYSTEM_EVENT`)
#[derive(Debug, Copy, Clone, PartialEq, Eq)]
pub struct ExitSystemEvent {
    /// The kernel calls this field `type`.
    pub kind: u32,
    pub flags: u64,
}

impl ExitSystemEvent {
    /// The payload area that holds these fields, each at its place, and zeros
    /// everywhere else.
    pub open spec fn payload(self) -> Seq<u8> {
        let with_kind = store_u32(blank(), 0, self.kind);
        store_u64(with_kind, 8, self.flags)
    }

    /// Whether `self` is what the payload area `raw` holds: every field has the
    /// value that stands at its place.
    pub open spec fn read_from(self, raw: Seq<u8>) -> bool {
        &&& self.kind == stored_u32(raw, 0)
        &&& self.flags == stored_u64(raw, 8)
    }

    /// Reads the fields out of a payload area.
    pub fn decode(exit: &Exit) -> (fields: ExitSystemEvent)
        ensures
            fields.read_from(exit.raw@),
    {
        let kind: u32 = get_u32(&exit.raw, 0);
        let flags: u64 = get_u64(&exit.raw, 8);
        ExitSystemEvent { kind, flags }
    }

    /// Lays the fields out in a payload area that is zero everywhere else.
    pub fn encode(&self) -> (exit: Exit)
        ensures
            exit.raw@ == self.payload(),
    {
        let mut exit = Exit::zeroed();
        put_u32(&mut exit.raw, 0, self.kind);
        put_u64(&mut exit.raw, 8, self.flags);
        exit
    }

    /// The fields that were laid out are the fields that are read back.
    pub proof fn lemma_round_trip(self)
        ensures
            self.read_from(self.payload()),
    {
        broadcast use group_stored;
    }
}

/// An s390 store-system-information instruction. (`KVM_EXIT_S390_STSI`)
#[derive(Debug, Copy, Clone, PartialEq, Eq)]
pub struct ExitS390Stsi {
    pub addr: u64,
    pub ar: u8,
    pub reserved: u8,
    pub fc: u8,
    pub sel1: u8,
    pub sel2: u16,
}

impl ExitS390Stsi {
    /// The payload area that holds these fields, each at its place, and zeros
    /// everywhere else.
    pub open spec fn payload(self) -> Seq<u8> {
        let with_addr = store_u64(blank(), 0, self.addr);
        let with_ar = store_u8(with_addr, 8, self.ar);
        let with_reserved = store_u8(with_ar, 9, self.reserved);
        let with_fc = store_u8(with_reserved, 10, self.fc);
        let with_sel1 = store_u8(with_fc, 11, self.sel1);
        store_u16(with_sel1, 12, self.sel2)
    }

    /// Whether `self` is what the payload area `raw` holds: every field has the
    /// value that stands at its place.
    pub open spec fn read_from(self, raw: Seq<u8>) -> bool {
        &&& self.addr == stored_u64(raw, 0)
        &&& self.ar == raw[8]
        &&& self.reserved == raw[9]
        &&& self.fc == raw[10]
        &&& self.sel1 == raw[11]
        &&& self.sel2 == stored_u16(raw, 12)
    }

    /// Reads the fields out of a payload area.
    pub fn decode(exit: &Exit) -> (fields: ExitS390Stsi)
        ensures
            fields.read_from(exit.raw@),
    {
        let addr: u64 = get_u64(&exit.raw, 0);
        let ar: u8 = exit.raw[8];
        let reserved: u8 = exit.raw[9];
        let fc: u8 = exit.raw[10];
        let sel1: u8 = exit.raw[11];
        let sel2: u16 = get_u16(&exit.raw, 12);
        ExitS390Stsi { addr, ar, reserved, fc, sel1, sel2 }
    }

    /// Lays the fields out in a payload area that is zero everywhere else.
    pub fn encode(&self) -> (exit: Exit)
        ensures
            exit.raw@ == self.payload(),
    {
        let mut exit = Exit::zeroed();
        put_u64(&mut exit.raw, 0, self.addr);
        put_u8(&mut exit.raw, 8, self.ar);
        put_u8(&mut exit.raw, 9, self.reserved);
        put_u8(&mut exit.raw, 10, self.fc);
        put_u8(&mut exit.raw, 11, self.sel1);
        put_u16(&mut exit.raw, 12, self.sel2);
        exit
    }

    /// The fields that were laid out are the fields that are read back.
    pub proof fn lemma_round_trip(self)
        ensures
            self.read_from(self.payload()),
    {
        broadcast use group_stored;
    }
}

/// An end-of-interrupt reached the I/O APIC. (`KVM_EXIT_IOAPIC_EOI`)
#[derive(Debug, Copy, Clone, PartialEq, Eq)]
pub struct ExitEoi {
    pub vector: u8,
}

impl ExitEoi {
    /// The payload area that holds these fields, each at its place, and zeros
    /// everywhere else.
    pub open spec fn payload(self) -> Seq<u8> {
        store_u8(blank(), 0, self.vector)
    }

    /// Whether `self` is what the payload area `raw` holds: every field has the
    /// value that stands at its place.
    pub open spec fn read_from(self, raw: Seq<u8>) -> bool {
        &&& self.vector == raw[0]
    }

    /// Reads the fields out of a payload area.
    pub fn decode(exit: &Exit) -> (fields: ExitEoi)
        ensures
            fields.read_from(exit.raw@),
    {
        let vector: u8 = exit.raw[0];
        ExitEoi { vector }
    }

    /// Lays the fields out in a payload area that is zero everywhere else.
    pub fn encode(&self) -> (exit: Exit)
        ensures
            exit.raw@ == self.payload(),
    {
        let mut exit = Exit::zeroed();
        put_u8(&mut exit.raw, 0, self.vector);
        exit
    }

    /// The fields that were laid out are the fields that are read back.
    pub proof fn lemma_round_trip(self)
        ensures
            self.read_from(self.payload()),
    {
        broadcast use group_stored;
    }
}

/// Where the payload of an exit starts in the control page.
pub const RUN_EXIT_OFFSET: usize = 48;

/// Where the data of a memory access stands in the control page: behind the
/// address, which opens the payload.
pub const RUN_MMIO_DATA_OFFSET: usize = 56;

/// The size of the head of the control page: everything up to and including the
/// two register masks. What follows belongs to the kernel and to the data of
/// port accesses.
pub const RUN_HEAD_SIZE: usize = 320;

/// The head of the control page and the payload of the last exit, as the kernel
/// shares them with this process (`kvm_run`).
#[derive(Debug, Copy, Clone, PartialEq, Eq)]
pub struct Run {
    /// In: ask for an exit as soon as an interrupt can be injected.
    pub request_interrupt_window: u8,
    /// In: leave the guest at once.
    pub immediate_exit: u8,
    /// Out: why the guest was left.
    pub exit_reason: u32,
    /// Out.
    pub ready_for_interrupt_injection: u8,
    /// Out.
    pub if_flag: u8,
    /// Out.
    pub flags: u16,
    /// In and out.
    pub cr8: u64,
    /// In and out.
    pub apic_base: u64,
    /// The upper half of the processor status word of an s390 machine.
    pub psw_mask: u64,
    /// The lower half of the processor status word of an s390 machine.
    pub psw_addr: u64,
    /// Out: the payload that goes with `exit_reason`.
    pub exit: Exit,
    /// The register classes that the kernel has filled in.
    pub kvm_valid_regs: u64,
    /// The register classes that this process has changed.
    pub kvm_dirty_regs: u64,
}

impl Run {
    /// Whether these are the values that stand in the head of the control page
    /// `page`, each at its place.
    pub open spec fn read_from(self, page: Seq<u8>) -> bool {
        &&& self.request_interrupt_window == page[0]
        &&& self.immediate_exit == page[1]
        &&& self.exit_reason == stored_u32(page, 8)
        &&& self.ready_for_interrupt_injection == page[12]
        &&& self.if_flag == page[13]
        &&& self.flags == stored_u16(page, 14)
        &&& self.cr8 == stored_u64(page, 16)
        &&& self.apic_base == stored_u64(page, 24)
        &&& self.psw_mask == stored_u64(page, 32)
        &&& self.psw_addr == stored_u64(page, 40)
        &&& self.exit.raw@ == page.subrange(48, 304)
        &&& self.kvm_valid_regs == stored_u64(page, 304)
        &&& self.kvm_dirty_regs == stored_u64(page, 312)
    }

    /// The control page `page` with these values written into its head, each at
    /// its place. The padding of the head and everything behind the head stay
    /// as they are.
    pub open spec fn written_over(self, page: Seq<u8>) -> Seq<u8> {
        let with_request_interrupt_window = store_u8(page, 0, self.request_interrupt_window);
        let with_immediate_exit = store_u8(with_request_interrupt_window, 1, self.immediate_exit);
        let with_exit_reason = store_u32(with_immediate_exit, 8, self.exit_reason);
        let with_ready_for_interrupt_injection = store_u8(with_exit_reason, 12, self.ready_for_interrupt_injection);
        let with_if_flag = store_u8(with_ready_for_interrupt_injection, 13, self.if_flag);
        let with_flags = store_u16(with_if_flag, 14, self.flags);
        let with_cr8 = store_u64(with_flags, 16, self.cr8);
        let with_apic_base = store_u64(with_cr8, 24, self.apic_base);
        let with_psw_mask = store_u64(with_apic_base, 32, self.psw_mask);
        let with_psw_addr = store_u64(with_psw_mask, 40, self.psw_addr);
        let with_exit = splice(with_psw_addr, 48, self.exit.raw@);
        let with_kvm_valid_regs = store_u64(with_exit, 304, self.kvm_valid_regs);
        store_u64(with_kvm_valid_regs, 312, self.kvm_dirty_regs)
    }

    /// Reads the head of a control page.
    pub fn load(page: &[u8]) -> (run: Run)
        requires
            page@.len() >= RUN_HEAD_SIZE,
        ensures
            run.read_from(page@),
    {
        let request_interrupt_window: u8 = page[0];
        let immediate_exit: u8 = page[1];
        let exit_reason: u32 = get_u32(page, 8);
        let ready_for_interrupt_injection: u8 = page[12];
        let if_flag: u8 = page[13];
        let flags: u16 = get_u16(page, 14);
        let cr8: u64 = get_u64(page, 16);
        let apic_base: u64 = get_u64(page, 24);
        let psw_mask: u64 = get_u64(page, 32);
        let psw_addr: u64 = get_u64(page, 40);
        let exit = Exit { raw: get_bytes(page, 48) };
        let kvm_valid_regs: u64 = get_u64(page, 304);
        let kvm_dirty_regs: u64 = get_u64(page, 312);
        Run {
            request_interrupt_window,
            immediate_exit,
            exit_reason,
            ready_for_interrupt_injection,
            if_flag,
            flags,
            cr8,
            apic_base,
            psw_mask,
            psw_addr,
            exit,
            kvm_valid_regs,
            kvm_dirty_regs,
        }
    }

    /// Writes the values into the head of a control page.
    pub fn store(&self, page: &mut [u8])
        requires
            old(page)@.len() >= RUN_HEAD_SIZE,
        ensures
            final(page)@ == self.written_over(old(page)@),
            final(page)@.len() == old(page)@.len(),
    {
        put_u8(page, 0, self.request_interrupt_window);
        put_u8(page, 1, self.immediate_exit);
        put_u32(page, 8, self.exit_reason);
        put_u8(page, 12, self.ready_for_interrupt_injection);
        put_u8(page, 13, self.if_flag);
        put_u16(page, 14, self.flags);
        put_u64(page, 16, self.cr8);
        put_u64(page, 24, self.apic_base);
        put_u64(page, 32, self.psw_mask);
        put_u64(page, 40, self.psw_addr);
        put_bytes(page, 48, &self.exit.raw);
        put_u64(page, 304, self.kvm_valid_regs);
        put_u64(page, 312, self.kvm_dirty_regs);
    }

    /// What was written into a control page is what is read from it.
    #[verifier::rlimit(50)]
    pub proof fn lemma_round_trip(self, page: Seq<u8>)
        requires
            page.len() >= RUN_HEAD_SIZE,
        ensures
            self.read_from(self.written_over(page)),
            self.written_over(page).len() == page.len(),
            forall|i: int|
                RUN_HEAD_SIZE <= i < page.len() ==> self.written_over(page)[i] == page[i],
    {
        broadcast use group_stored;
    }
}

} // verus!
