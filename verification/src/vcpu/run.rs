//! One pass through the guest, in safe types.
//!
//! The kernel reports why a virtual CPU left the guest as a number and a payload
//! of raw bytes. `Exit` is the same information as a sum type: decoding picks the
//! variant by the number and reads its fields from the bytes, and refuses a
//! number it does not know. Encoding goes the other way.

use crate::error::Error;
use crate::sys;
use crate::sys::run::{
    ExitDcr, ExitEoi, ExitEpr, ExitException, ExitFailEntry, ExitHypercall, ExitInternal, ExitIo,
    ExitMmio, ExitOsi, ExitPaprHcall, ExitS390Sieic, ExitS390Stsi, ExitS390Tsch, ExitS390Ucontrol,
    ExitSystemEvent, ExitTprAccess, ExitUnknown,
};
use vstd::prelude::*;

verus! {

/// The state of a virtual CPU around one pass through the guest.
#[derive(Debug, Copy, Clone, PartialEq, Eq)]
pub struct Run {
    /// In: ask for an exit as soon as an interrupt can be injected.
    pub request_interrupt_window: u8,
    /// In: leave the guest at once.
    pub immediate_exit: u8,
    /// Out.
    pub ready_for_interrupt_injection: u8,
    /// Out.
    pub if_flag: u8,
    /// Out.
    pub flags: u16,
    /// In and out.
    pub cr8: u64,
    /// In and out.
    pub apic_base: u64,
    /// The upper half of the processor status word of an s390 machine.
    pub psw_mask: u64,
    /// The lower half of the processor status word of an s390 machine.
    pub psw_addr: u64,
    /// Why the guest was left.
    pub exit: Exit,
    /// The register classes that the kernel has filled in.
    pub kvm_valid_regs: u64,
    /// The register classes that this process has changed.
    pub kvm_dirty_regs: u64,
}

/// Why a virtual CPU left the guest, with what the kernel tells about it.
#[derive(Debug, Copy, Clone, PartialEq, Eq)]
pub enum Exit {
    Unknown(ExitUnknown),
    FailEntry(ExitFailEntry),
    Exception(ExitException),
    Io(ExitIo),
    Mmio(ExitMmio),
    Hypercall(ExitHypercall),
    Shutdown,
    TprAccess(ExitTprAccess),
    S390Sieic(ExitS390Sieic),
    S390ResetFlags(u64),
    S390Ucontrol(ExitS390Ucontrol),
    Dcr(ExitDcr),
    Internal(ExitInternal),
    Osi(ExitOsi),
    PaprHcall(ExitPaprHcall),
    S390Tsch(ExitS390Tsch),
    Epr(ExitEpr),
    SystemEvent(ExitSystemEvent),
    S390Stsi(ExitS390Stsi),
    Eoi(ExitEoi),
}

/// Whether `reason` is an exit reason that `Exit` has a variant for.
pub open spec fn recognized(reason: u32) -> bool {
    ||| reason == sys::run::KVM_EXIT_UNKNOWN
    ||| reason == sys::run::KVM_EXIT_FAIL_ENTRY
    ||| reason == sys::run::KVM_EXIT_EXCEPTION
    ||| reason == sys::run::KVM_EXIT_IO
    ||| reason == sys::run::KVM_EXIT_MMIO
    ||| reason == sys::run::KVM_EXIT_HYPERCALL
    ||| reason == sys::run::KVM_EXIT_SHUTDOWN
    ||| reason == sys::run::KVM_EXIT_TPR_ACCESS
    ||| reason == sys::run::KVM_EXIT_S390_SIEIC
    ||| reason == sys::run::KVM_EXIT_S390_RESET
    ||| reason == sys::run::KVM_EXIT_S390_UCONTROL
    ||| reason == sys::run::KVM_EXIT_DCR
    ||| reason == sys::run::KVM_EXIT_INTERNAL_ERROR
    ||| reason == sys::run::KVM_EXIT_OSI
    ||| reason == sys::run::KVM_EXIT_PAPR_HCALL
    ||| reason == sys::run::KVM_EXIT_S390_TSCH
    ||| reason == sys::run::KVM_EXIT_EPR
    ||| reason == sys::run::KVM_EXIT_SYSTEM_EVENT
    ||| reason == sys::run::KVM_EXIT_S390_STSI
    ||| reason == sys::run::KVM_EXIT_IOAPIC_EOI
}

impl Exit {
    /// The number by which the kernel names this exit.
    pub open spec fn reason(self) -> u32 {
        match self {
            Exit::Unknown(_) => sys::run::KVM_EXIT_UNKNOWN,
            Exit::FailEntry(_) => sys::run::KVM_EXIT_FAIL_ENTRY,
            Exit::Exception(_) => sys::run::KVM_EXIT_EXCEPTION,
            Exit::Io(_) => sys::run::KVM_EXIT_IO,
            Exit::Mmio(_) => sys::run::KVM_EXIT_MMIO,
            Exit::Hypercall(_) => sys::run::KVM_EXIT_HYPERCALL,
            Exit::Shutdown => sys::run::KVM_EXIT_SHUTDOWN,
            Exit::TprAccess(_) => sys::run::KVM_EXIT_TPR_ACCESS,
            Exit::S390Sieic(_) => sys::run::KVM_EXIT_S390_SIEIC,
            Exit::S390ResetFlags(_) => sys::run::KVM_EXIT_S390_RESET,
            Exit::S390Ucontrol(_) => sys::run::KVM_EXIT_S390_UCONTROL,
            Exit::Dcr(_) => sys::run::KVM_EXIT_DCR,
            Exit::Internal(_) => sys::run::KVM_EXIT_INTERNAL_ERROR,
            Exit::Osi(_) => sys::run::KVM_EXIT_OSI,
            Exit::PaprHcall(_) => sys::run::KVM_EXIT_PAPR_HCALL,
            Exit::S390Tsch(_) => sys::run::KVM_EXIT_S390_TSCH,
            Exit::Epr(_) => sys::run::KVM_EXIT_EPR,
            Exit::SystemEvent(_) => sys::run::KVM_EXIT_SYSTEM_EVENT,
            Exit::S390Stsi(_) => sys::run::KVM_EXIT_S390_STSI,
            Exit::Eoi(_) => sys::run::KVM_EXIT_IOAPIC_EOI,
        }
    }

    /// The payload area that the kernel would fill for this exit: the fields of
    /// the variant at their places and zeros everywhere else.
    pub open spec fn payload(self) -> Seq<u8> {
        match self {
            Exit::Unknown(fields) => fields.payload(),
            Exit::FailEntry(fields) => fields.payload(),
            Exit::Exception(fields) => fields.payload(),
            Exit::Io(fields) => fields.payload(),
            Exit::Mmio(fields) => fields.payload(),
            Exit::Hypercall(fields) => fields.payload(),
            Exit::Shutdown => sys::run::blank(),
            Exit::TprAccess(fields) => fields.payload(),
            Exit::S390Sieic(fields) => fields.payload(),
            Exit::S390ResetFlags(flags) => sys::run::Exit::reset_flags_payload(flags),
            Exit::S390Ucontrol(fields) => fields.payload(),
            Exit::Dcr(fields) => fields.payload(),
            Exit::Internal(fields) => fields.payload(),
            Exit::Osi(fields) => fields.payload(),
            Exit::PaprHcall(fields) => fields.payload(),
            Exit::S390Tsch(fields) => fields.payload(),
            Exit::Epr(fields) => fields.payload(),
            Exit::SystemEvent(fields) => fields.payload(),
            Exit::S390Stsi(fields) => fields.payload(),
            Exit::Eoi(fields) => fields.payload(),
        }
    }

    /// Whether this exit is what the number `reason` and the payload area `raw`
    /// say: the variant is the one that `reason` names, and its fields are the
    /// ones that stand in `raw`. At most one exit is.
    pub open spec fn read_from(self, reason: u32, raw: Seq<u8>) -> bool {
        match self {
            Exit::Unknown(fields) => reason == sys::run::KVM_EXIT_UNKNOWN && fields.read_from(raw),
            Exit::FailEntry(fields) => reason == sys::run::KVM_EXIT_FAIL_ENTRY && fields.read_from(raw),
            Exit::Exception(fields) => reason == sys::run::KVM_EXIT_EXCEPTION && fields.read_from(raw),
            Exit::Io(fields) => reason == sys::run::KVM_EXIT_IO && fields.read_from(raw),
            Exit::Mmio(fields) => reason == sys::run::KVM_EXIT_MMIO && fields.read_from(raw),
            Exit::Hypercall(fields) => reason == sys::run::KVM_EXIT_HYPERCALL && fields.read_from(raw),
            Exit::Shutdown => reason == sys::run::KVM_EXIT_SHUTDOWN,
            Exit::TprAccess(fields) => reason == sys::run::KVM_EXIT_TPR_ACCESS && fields.read_from(raw),
            Exit::S390Sieic(fields) => reason == sys::run::KVM_EXIT_S390_SIEIC && fields.read_from(raw),
            Exit::S390ResetFlags(flags) => reason == sys::run::KVM_EXIT_S390_RESET && flags
                == sys::run::Exit::reset_flags_of(raw),
            Exit::S390Ucontrol(fields) => reason == sys::run::KVM_EXIT_S390_UCONTROL && fields.read_from(raw),
            Exit::Dcr(fields) => reason == sys::run::KVM_EXIT_DCR && fields.read_from(raw),
            Exit::Internal(fields) => reason == sys::run::KVM_EXIT_INTERNAL_ERROR && fields.read_from(raw),
            Exit::Osi(fields) => reason == sys::run::KVM_EXIT_OSI && fields.read_from(raw),
            Exit::PaprHcall(fields) => reason == sys::run::KVM_EXIT_PAPR_HCALL && fields.read_from(raw),
            Exit::S390Tsch(fields) => reason == sys::run::KVM_EXIT_S390_TSCH && fields.read_from(raw),
            Exit::Epr(fields) => reason == sys::run::KVM_EXIT_EPR && fields.read_from(raw),
            Exit::SystemEvent(fields) => reason == sys::run::KVM_EXIT_SYSTEM_EVENT && fields.read_from(raw),
            Exit::S390Stsi(fields) => reason == sys::run::KVM_EXIT_S390_STSI && fields.read_from(raw),
            Exit::Eoi(fields) => reason == sys::run::KVM_EXIT_IOAPIC_EOI && fields.read_from(raw),
        }
    }

    /// Decodes an exit from the kernel's number and payload.
    ///
    /// A number that names no variant is refused with `IllegalExitReason`, which
    /// carries the number; no variant stands in for it.
    pub fn from(raw: (u32, sys::run::Exit)) -> (decoded: Result<Exit, Error>)
        ensures
            match decoded {
                Ok(exit) => exit.read_from(raw.0, raw.1.raw@),
                Err(error) => !recognized(raw.0) && error == Error::IllegalExitReason(raw.0),
            },
    {
        let reason: u32 = raw.0;
        let area = raw.1;
        if reason == sys::run::KVM_EXIT_UNKNOWN {
            Ok(Exit::Unknown(ExitUnknown::decode(&area)))
        } else if reason == sys::run::KVM_EXIT_FAIL_ENTRY {
            Ok(Exit::FailEntry(ExitFailEntry::decode(&area)))
        } else if reason == sys::run::KVM_EXIT_EXCEPTION {
            Ok(Exit::Exception(ExitException::decode(&area)))
        } else if reason == sys::run::KVM_EXIT_IO {
            Ok(Exit::Io(ExitIo::decode(&area)))
        } else if reason == sys::run::KVM_EXIT_MMIO {
            Ok(Exit::Mmio(ExitMmio::decode(&area)))
        } else if reason == sys::run::KVM_EXIT_HYPERCALL {
            Ok(Exit::Hypercall(ExitHypercall::decode(&area)))
        } else if reason == sys::run::KVM_EXIT_SHUTDOWN {
            Ok(Exit::Shutdown)
        } else if reason == sys::run::KVM_EXIT_TPR_ACCESS {
            Ok(Exit::TprAccess(ExitTprAccess::decode(&area)))
        } else if reason == sys::run::KVM_EXIT_S390_SIEIC {
            Ok(Exit::S390Sieic(ExitS390Sieic::decode(&area)))
        } else if reason == sys::run::KVM_EXIT_S390_RESET {
            Ok(Exit::S390ResetFlags(area.reset_flags()))
        } else if reason == sys::run::KVM_EXIT_S390_UCONTROL {
            Ok(Exit::S390Ucontrol(ExitS390Ucontrol::decode(&area)))
        } else if reason == sys::run::KVM_EXIT_DCR {
            Ok(Exit::Dcr(ExitDcr::decode(&area)))
        } else if reason == sys::run::KVM_EXIT_INTERNAL_ERROR {
            Ok(Exit::Internal(ExitInternal::decode(&area)))
        } else if reason == sys::run::KVM_EXIT_OSI {
            Ok(Exit::Osi(ExitOsi::decode(&area)))
        } else if reason == sys::run::KVM_EXIT_PAPR_HCALL {
            Ok(Exit::PaprHcall(ExitPaprHcall::decode(&area)))
        } else if reason == sys::run::KVM_EXIT_S390_TSCH {
            Ok(Exit::S390Tsch(ExitS390Tsch::decode(&area)))
        } else if reason == sys::run::KVM_EXIT_EPR {
            Ok(Exit::Epr(ExitEpr::decode(&area)))
        } else if reason == sys::run::KVM_EXIT_SYSTEM_EVENT {
            Ok(Exit::SystemEvent(ExitSystemEvent::decode(&area)))
        } else if reason == sys::run::KVM_EXIT_S390_STSI {
            Ok(Exit::S390Stsi(ExitS390Stsi::decode(&area)))
        } else if reason == sys::run::KVM_EXIT_IOAPIC_EOI {
            Ok(Exit::Eoi(ExitEoi::decode(&area)))
        } else {
            Err(Error::IllegalExitReason(reason))
        }
    }

    /// Encodes the exit as the kernel's number and payload.
    pub fn into(self) -> (raw: (u32, sys::run::Exit))
        ensures
            raw.0 == self.reason(),
            raw.1.raw@ == self.payload(),
    {
        match self {
            Exit::Unknown(fields) => (sys::run::KVM_EXIT_UNKNOWN, fields.encode()),
            Exit::FailEntry(fields) => (sys::run::KVM_EXIT_FAIL_ENTRY, fields.encode()),
            Exit::Exception(fields) => (sys::run::KVM_EXIT_EXCEPTION, fields.encode()),
            Exit::Io(fields) => (sys::run::KVM_EXIT_IO, fields.encode()),
            Exit::Mmio(fields) => (sys::run::KVM_EXIT_MMIO, fields.encode()),
            Exit::Hypercall(fields) => (sys::run::KVM_EXIT_HYPERCALL, fields.encode()),
            Exit::Shutdown => (sys::run::KVM_EXIT_SHUTDOWN, sys::run::Exit::zeroed()),
            Exit::TprAccess(fields) => (sys::run::KVM_EXIT_TPR_ACCESS, fields.encode()),
            Exit::S390Sieic(fields) => (sys::run::KVM_EXIT_S390_SIEIC, fields.encode()),
            Exit::S390ResetFlags(flags) => (
                sys::run::KVM_EXIT_S390_RESET,
                sys::run::Exit::from_reset_flags(flags),
            ),
            Exit::S390Ucontrol(fields) => (sys::run::KVM_EXIT_S390_UCONTROL, fields.encode()),
            Exit::Dcr(fields) => (sys::run::KVM_EXIT_DCR, fields.encode()),
            Exit::Internal(fields) => (sys::run::KVM_EXIT_INTERNAL_ERROR, fields.encode()),
            Exit::Osi(fields) => (sys::run::KVM_EXIT_OSI, fields.encode()),
            Exit::PaprHcall(fields) => (sys::run::KVM_EXIT_PAPR_HCALL, fields.encode()),
            Exit::S390Tsch(fields) => (sys::run::KVM_EXIT_S390_TSCH, fields.encode()),
            Exit::Epr(fields) => (sys::run::KVM_EXIT_EPR, fields.encode()),
            Exit::SystemEvent(fields) => (sys::run::KVM_EXIT_SYSTEM_EVENT, fields.encode()),
            Exit::S390Stsi(fields) => (sys::run::KVM_EXIT_S390_STSI, fields.encode()),
            Exit::Eoi(fields) => (sys::run::KVM_EXIT_IOAPIC_EOI, fields.encode()),
        }
    }

    /// Encoding an exit and decoding the result gives the exit back: the number
    /// is one that decoding knows, and every field is read as it was written.
    pub proof fn lemma_round_trip(self)
        ensures
            recognized(self.reason()),
            self.read_from(self.reason(), self.payload()),
    {
        match self {
            Exit::Unknown(fields) => fields.lemma_round_trip(),
            Exit::FailEntry(fields) => fields.lemma_round_trip(),
            Exit::Exception(fields) => fields.lemma_round_trip(),
            Exit::Io(fields) => fields.lemma_round_trip(),
            Exit::Mmio(fields) => fields.lemma_round_trip(),
            Exit::Hypercall(fields) => fields.lemma_round_trip(),
            Exit::Shutdown => {},
            Exit::TprAccess(fields) => fields.lemma_round_trip(),
            Exit::S390Sieic(fields) => fields.lemma_round_trip(),
            Exit::S390ResetFlags(flags) => sys::run::Exit::lemma_reset_flags_round_trip(flags),
            Exit::S390Ucontrol(fields) => fields.lemma_round_trip(),
            Exit::Dcr(fields) => fields.lemma_round_trip(),
            Exit::Internal(fields) => fields.lemma_round_trip(),
            Exit::Osi(fields) => fields.lemma_round_trip(),
            Exit::PaprHcall(fields) => fields.lemma_round_trip(),
            Exit::S390Tsch(fields) => fields.lemma_round_trip(),
            Exit::Epr(fields) => fields.lemma_round_trip(),
            Exit::SystemEvent(fields) => fields.lemma_round_trip(),
            Exit::S390Stsi(fields) => fields.lemma_round_trip(),
            Exit::Eoi(fields) => fields.lemma_round_trip(),
        }
    }

    /// Two exits that are read from the same number and payload are the same
    /// exit.
    pub proof fn lemma_read_from_unique(self, other: Exit, reason: u32, raw: Seq<u8>)
        requires
            self.read_from(reason, raw),
            other.read_from(reason, raw),
        ensures
            self == other,
    {
        match (self, other) {
            (Exit::Mmio(a), Exit::Mmio(b)) => {
                assert(a.data =~= b.data);
            },
            (Exit::Hypercall(a), Exit::Hypercall(b)) => {
                assert(a.args =~= b.args);
            },
            (Exit::Internal(a), Exit::Internal(b)) => {
                assert(a.data =~= b.data);
            },
            (Exit::Osi(a), Exit::Osi(b)) => {
                assert(a.gprs =~= b.gprs);
            },
            (Exit::PaprHcall(a), Exit::PaprHcall(b)) => {
                assert(a.args =~= b.args);
            },
            _ => {},
        }
    }
}

impl Run {
    /// Whether this state is what the control page `page` says: the exit is the
    /// one that the page's exit reason and payload give, and every other field
    /// is the page's.
    pub open spec fn read_from(self, page: sys::run::Run) -> bool {
        &&& self.request_interrupt_window == page.request_interrupt_window
        &&& self.immediate_exit == page.immediate_exit
        &&& self.ready_for_interrupt_injection == page.ready_for_interrupt_injection
        &&& self.if_flag == page.if_flag
        &&& self.flags == page.flags
        &&& self.cr8 == page.cr8
        &&& self.apic_base == page.apic_base
        &&& self.psw_mask == page.psw_mask
        &&& self.psw_addr == page.psw_addr
        &&& self.exit.read_from(page.exit_reason, page.exit.raw@)
        &&& self.kvm_valid_regs == page.kvm_valid_regs
        &&& self.kvm_dirty_regs == page.kvm_dirty_regs
    }

    /// Whether the control page `page` is this state written out: the exit
    /// stands there as its number and payload, and every other field is taken
    /// over.
    pub open spec fn written_to(self, page: sys::run::Run) -> bool {
        &&& page.request_interrupt_window == self.request_interrupt_window
        &&& page.immediate_exit == self.immediate_exit
        &&& page.exit_reason == self.exit.reason()
        &&& page.ready_for_interrupt_injection == self.ready_for_interrupt_injection
        &&& page.if_flag == self.if_flag
        &&& page.flags == self.flags
        &&& page.cr8 == self.cr8
        &&& page.apic_base == self.apic_base
        &&& page.psw_mask == self.psw_mask
        &&& page.psw_addr == self.psw_addr
        &&& page.exit.raw@ == self.exit.payload()
        &&& page.kvm_valid_regs == self.kvm_valid_regs
        &&& page.kvm_dirty_regs == self.kvm_dirty_regs
    }

    /// Decodes what the kernel left in the control page.
    ///
    /// Fails with `IllegalExitReason`, which carries the page's exit reason,
    /// exactly when that reason names no variant of `Exit`.
    pub fn from(sys: sys::run::Run) -> (decoded: Result<Run, Error>)
        ensures
            match decoded {
                Ok(run) => run.read_from(sys),
                Err(error) => !recognized(sys.exit_reason) && error == Error::IllegalExitReason(
                    sys.exit_reason,
                ),
            },
    {
        match Exit::from((sys.exit_reason, sys.exit)) {
            Ok(exit) => Ok(
                Run {
                    request_interrupt_window: sys.request_interrupt_window,
                    immediate_exit: sys.immediate_exit,
                    ready_for_interrupt_injection: sys.ready_for_interrupt_injection,
                    if_flag: sys.if_flag,
                    flags: sys.flags,
                    cr8: sys.cr8,
                    apic_base: sys.apic_base,
                    psw_mask: sys.psw_mask,
                    psw_addr: sys.psw_addr,
                    exit,
                    kvm_valid_regs: sys.kvm_valid_regs,
                    kvm_dirty_regs: sys.kvm_dirty_regs,
                },
            ),
            Err(error) => Err(error),
        }
    }

    /// Writes the state out as the control page that the kernel reads.
    pub fn into(self) -> (page: sys::run::Run)
        ensures
            self.written_to(page),
    {
        let (reason, exit) = self.exit.into();
        sys::run::Run {
            request_interrupt_window: self.request_interrupt_window,
            immediate_exit: self.immediate_exit,
            exit_reason: reason,
            ready_for_interrupt_injection: self.ready_for_interrupt_injection,
            if_flag: self.if_flag,
            flags: self.flags,
            cr8: self.cr8,
            apic_base: self.apic_base,
            psw_mask: self.psw_mask,
            psw_addr: self.psw_addr,
            exit,
            kvm_valid_regs: self.kvm_valid_regs,
            kvm_dirty_regs: self.kvm_dirty_regs,
        }
    }

    /// A state that is written to a control page is the state that is read from
    /// that page, and no other state is.
    pub proof fn lemma_round_trip(self, page: sys::run::Run, other: Run)
        requires
            self.written_to(page),
        ensures
            recognized(page.exit_reason),
            self.read_from(page),
            other.read_from(page) ==> other == self,
    {
        self.exit.lemma_round_trip();
        if other.read_from(page) {
            other.exit.lemma_read_from_unique(self.exit, page.exit_reason, page.exit.raw@);
        }
    }
}

} // verus!
