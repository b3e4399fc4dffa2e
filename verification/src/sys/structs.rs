//! Values that the machine and processor operations of the kernel interface take
//! and give.

use vstd::prelude::*;

verus! {

/// Set in a clock's flags when the value is stable across processors.
pub const KVM_CLOCK_TSC_STABLE: u32 = 2;

/// Asks the kernel to track which pages of a region the guest dirties.
pub const KVM_MEM_LOG_DIRTY_PAGES: u32 = 1;

/// Makes a region read-only for the guest.
pub const KVM_MEM_READONLY: u32 = 2;

/// A list of model-specific register indices (`kvm_msr_list`).
#[derive(Debug, Clone, PartialEq, Eq)]
pub struct MsrList {
    pub nmsrs: u32,
    pub indicies: Vec<u32>,
}

/// A request for the dirty-page log of one memory slot (`kvm_dirty_log`).
#[derive(Debug, Copy, Clone, PartialEq, Eq)]
pub struct DirtyLog {
    pub slot: u32,
    pub _pad: u32,
    /// Either the address of the bitmap to fill or plain padding.
    pub value: u64,
}

/// An interrupt to inject (`kvm_interrupt`).
#[derive(Debug, Copy, Clone, PartialEq, Eq)]
pub struct Interrupt {
    pub irq: u32,
}

/// The floating-point state of a virtual CPU (`kvm_fpu`).
#[derive(Copy, Clone)]
pub struct Fpu {
    pub fpr: [[u8; 16]; 8],
    pub fcw: u16,
    pub fsw: u16,
    pub ftwx: u8,
    pub pad1: u8,
    pub last_opcode: u16,
    pub last_ip: u64,
    pub last_dp: u64,
    pub xmm: [[u8; 16]; 16],
    pub mxcsr: u32,
    pub pad2: u32,
}

/// One answer of the CPUID instruction (`kvm_cpuid_entry`).
#[derive(Debug, Copy, Clone, PartialEq, Eq)]
pub struct CpuIdEntry {
    pub function: u32,
    pub eax: u32,
    pub ebx: u32,
    pub ecx: u32,
    pub edx: u32,
    pub _pad: u32,
}

/// The CPUID answers of a virtual CPU (`kvm_cpuid`).
#[derive(Debug, Clone, PartialEq, Eq)]
pub struct CpuId {
    pub nent: u32,
    pub padding: u32,
    pub entries: Vec<CpuIdEntry>,
}

/// The signals that stay blocked while the guest runs (`kvm_signal_mask`).
#[derive(Debug, Clone, PartialEq, Eq)]
pub struct SignalMask {
    pub len: u32,
    pub sigset: Vec<u8>,
}

/// The level of an interrupt line (`kvm_irq_level`).
#[derive(Debug, Copy, Clone, PartialEq, Eq)]
pub struct IrqLevel {
    /// On return this field holds the status instead.
    pub irq: u32,
    pub level: u32,
}

/// Where the Xen hypercall pages are (`kvm_xen_hvm_config`).
#[derive(Debug, Copy, Clone, PartialEq, Eq)]
pub struct XenHvmConfig {
    pub flags: u32,
    pub msr: u32,
    pub blob_addr_32: u64,
    pub blob_addr_64: u64,
    pub blob_size_32: u8,
    pub blob_size_64: u8,
    pub _pad: [u8; 30],
}

/// The guest's clock (`kvm_clock_data`).
#[derive(Debug, Copy, Clone, PartialEq, Eq)]
pub struct ClockData {
    pub clock: u64,
    pub flags: u32,
    pub _pad: [u32; 9],
}

impl ClockData {
    /// The value to hand in when the clock is read: no time yet, and the stable
    /// flag exactly when a stable reading is preferred.
    pub fn query(stable: bool) -> (data: ClockData)
        ensures
            data.clock == 0,
            data.flags == if stable {
                KVM_CLOCK_TSC_STABLE
            } else {
                0
            },
            data._pad@ == Seq::new(9, |i: int| 0u32),
    {
        let flags: u32 = if stable {
            KVM_CLOCK_TSC_STABLE
        } else {
            0
        };
        let data = ClockData { clock: 0, flags, _pad: [0u32;9] };
        assert(data._pad@ =~= Seq::new(9, |i: int| 0u32));
        data
    }

    /// The value to hand in when the clock is set to `clock`.
    pub fn at(clock: u64) -> (data: ClockData)
        ensures
            data.clock == clock,
            data.flags == 0,
            data._pad@ == Seq::new(9, |i: int| 0u32),
    {
        let data = ClockData { clock, flags: 0, _pad: [0u32;9] };
        assert(data._pad@ =~= Seq::new(9, |i: int| 0u32));
        data
    }
}

/// One slot of guest memory and the host memory behind it
/// (`kvm_userspace_memory_region`).
#[derive(Debug, Copy, Clone, PartialEq, Eq)]
pub struct UserspaceMemoryRegion {
    pub slot: u32,
    pub flags: u32,
    pub guest_phys_addr: u64,
    /// In bytes.
    pub memory_size: u64,
    /// Where the host memory starts.
    pub userspace_addr: u64,
}

/// The registration of an event on an address (`kvm_ioeventfd`).
#[derive(Copy, Clone)]
pub struct IoEventFd {
    /// The value that a write has to carry to raise the event, where the flags ask
    /// for a match.
    pub datamatch: u64,
    /// The address.
    pub addr: u64,
    /// The width of the accesses that raise the event: 1, 2, 4 or 8 bytes.
    pub len: u32,
    /// The event descriptor.
    pub fd: i32,
    pub flags: u32,
    pub _pad: [u8; 36],
}

/// A capability to switch on (`kvm_enable_cap`).
#[derive(Copy, Clone)]
pub struct EnableCap {
    pub cap: i32,
    /// Always 0.
    pub flags: u32,
    pub args: [u64; 4],
    pub _pad: [u8; 64],
}

/// The multiprocessor state of a virtual CPU, as the kernel numbers it.
#[derive(Debug, Copy, Clone, PartialEq, Eq, Structural)]
pub enum StateValue {
    /// Running. x86, ARM and arm64 only.
    Runnable,
    /// An application processor that has not received INIT yet. x86 only.
    Uninitialized,
    /// INIT was received; the processor waits for a SIPI. x86 only.
    InitReceived,
    /// Halted by HLT and waiting for an interrupt. x86 only.
    StateHalted,
    /// A SIPI was just received. x86 only.
    SipiReceived,
    /// Stopped. s390, ARM and arm64 only.
    Stopped,
    /// In the check-stop error state. s390 only.
    CheckStop,
    /// Operating, that is running or halted. s390 only.
    Operating,
    /// In the load state. s390 only.
    Load,
}

impl StateValue {
    /// The kernel's number for this state.
    pub open spec fn spec_value(self) -> u32 {
        match self {
            StateValue::Runnable => 0,
            StateValue::Uninitialized => 1,
            StateValue::InitReceived => 2,
            StateValue::StateHalted => 3,
            StateValue::SipiReceived => 4,
            StateValue::Stopped => 5,
            StateValue::CheckStop => 6,
            StateValue::Operating => 7,
            StateValue::Load => 8,
        }
    }

    /// The kernel's number for this state.
    pub fn value(self) -> (number: u32)
        ensures
            number == self.spec_value(),
    {
        match self {
            StateValue::Runnable => 0,
            StateValue::Uninitialized => 1,
            StateValue::InitReceived => 2,
            StateValue::StateHalted => 3,
            StateValue::SipiReceived => 4,
            StateValue::Stopped => 5,
            StateValue::CheckStop => 6,
            StateValue::Operating => 7,
            StateValue::Load => 8,
        }
    }
}

/// The multiprocessor state of a virtual CPU (`kvm_mp_state`).
#[derive(Debug, Copy, Clone, PartialEq, Eq)]
pub struct MpState {
    pub mp_state: StateValue,
}

/// A translation of a guest-virtual address (`kvm_translation`).
#[derive(Debug, Copy, Clone, PartialEq, Eq)]
pub struct Translation {
    /// The address to translate.
    pub linear_address: u64,
    /// The answer.
    pub physical_address: u64,
    pub valid: u8,
    pub writable: u8,
    pub usermode: u8,
    pub _pad: [u8; 5],
}

impl Translation {
    /// The value to hand in when `linear_address` is to be translated: the
    /// address, and zeros where the answer goes.
    pub fn query(linear_address: u64) -> (request: Translation)
        ensures
            request.linear_address == linear_address,
            request.physical_address == 0,
            request.valid == 0,
            request.writable == 0,
            request.usermode == 0,
            request._pad@ == Seq::new(5, |i: int| 0u8),
    {
        let request = Translation {
            linear_address,
            physical_address: 0,
            valid: 0,
            writable: 0,
            usermode: 0,
            _pad: [0u8;5],
        };
        assert(request._pad@ =~= Seq::new(5, |i: int| 0u8));
        request
    }

    /// The answer of a translation: the physical address, whether the
    /// translation is valid, whether the page can be written, and whether user
    /// mode can reach it. The kernel marks each of the three with a byte that is
    /// not zero.
    pub fn answer(&self) -> (answer: (u64, bool, bool, bool))
        ensures
            answer == (
                self.physical_address,
                self.valid != 0,
                self.writable != 0,
                self.usermode != 0,
            ),
    {
        (self.physical_address, self.valid != 0, self.writable != 0, self.usermode != 0)
    }
}

} // verus!
