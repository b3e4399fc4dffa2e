//! The privileged operations on a machine, and what each of them depends on.

use crate::capability::Capability;
use crate::error::Error;
use vstd::prelude::*;

verus! {

/// A privileged operation on a machine or on one of its virtual CPUs.
#[derive(Debug, Copy, Clone, PartialEq, Eq, Structural)]
pub enum Operation {
    /// Create the interrupt controller.
    CreateIrqChip,
    /// Say where the task state segment of the guest goes.
    SetTssAddress,
    /// Say where the identity map of the guest goes.
    SetIdentityMapAddress,
    /// Read the guest's clock.
    GetClock,
    /// Set the guest's clock.
    SetClock,
    /// Install or change a memory region.
    ModifyMemoryRegion,
    /// Register an event on an address.
    IoEventFd,
    /// Read the multiprocessor state of a virtual CPU.
    GetState,
    /// Set the multiprocessor state of a virtual CPU.
    SetState,
}

impl Operation {
    /// The capability that has to be asserted before the operation, if it depends
    /// on one.
    pub open spec fn requires_capability(self) -> Option<Capability> {
        match self {
            Operation::CreateIrqChip => Some(Capability::IrqChip),
            Operation::SetTssAddress => None,
            Operation::SetIdentityMapAddress => None,
            Operation::GetClock => Some(Capability::AdjustClock),
            Operation::SetClock => Some(Capability::AdjustClock),
            Operation::ModifyMemoryRegion => Some(Capability::UserspaceMemory),
            Operation::IoEventFd => Some(Capability::IoEventFd),
            Operation::GetState => Some(Capability::MpState),
            Operation::SetState => Some(Capability::MpState),
        }
    }

    /// The capability that has to be asserted before the operation, if it depends
    /// on one.
    pub fn capability(self) -> (cap: Option<Capability>)
        ensures
            cap == self.requires_capability(),
    {
        match self {
            Operation::CreateIrqChip => Some(Capability::IrqChip),
            Operation::SetTssAddress => None,
            Operation::SetIdentityMapAddress => None,
            Operation::GetClock => Some(Capability::AdjustClock),
            Operation::SetClock => Some(Capability::AdjustClock),
            Operation::ModifyMemoryRegion => Some(Capability::UserspaceMemory),
            Operation::IoEventFd => Some(Capability::IoEventFd),
            Operation::GetState => Some(Capability::MpState),
            Operation::SetState => Some(Capability::MpState),
        }
    }
}

/// The result of an operation on a machine, given what the kernel answered: `raw`
/// is the kernel's number, or nothing where the call itself failed. Only the
/// number zero is a success; everything else is a `MachineOperation` error.
pub fn chain_then(raw: Option<i32>) -> (result: Result<(), Error>)
    ensures
        result == if raw == Some(0i32) {
            Ok::<(), Error>(())
        } else {
            Err(Error::MachineOperation)
        },
{
    match raw {
        Some(value) => {
            if value == 0 {
                Ok(())
            } else {
                Err(Error::MachineOperation)
            }
        },
        None => Err(Error::MachineOperation),
    }
}

} // verus!
