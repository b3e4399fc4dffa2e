//! Optional kernel features, and how an operation that needs one makes sure of
//! it.

use crate::error::Error;
use crate::sys;
use vstd::prelude::*;

verus! {

/// An optional feature of the hypervisor that has to be probed before use.
#[derive(Debug, Copy, Clone, Hash, PartialEq, Eq, Structural)]
pub enum Capability {
    EnableCap,
    EnableCapVm,
    IrqChip,
    AdjustClock,
    MpState,
    UserspaceMemory,
    IoEventFd,
}

impl Capability {
    /// The number by which the kernel knows this capability.
    pub open spec fn number(self) -> i32 {
        match self {
            Capability::EnableCap => sys::KVM_CAP_ENABLE_CAP,
            Capability::EnableCapVm => sys::KVM_CAP_ENABLE_CAP_VM,
            Capability::IrqChip => sys::KVM_CAP_IRQCHIP,
            Capability::AdjustClock => sys::KVM_CAP_ADJUST_CLOCK,
            Capability::MpState => sys::KVM_CAP_MP_STATE,
            Capability::UserspaceMemory => sys::KVM_CAP_USER_MEMORY,
            Capability::IoEventFd => sys::KVM_CAP_IOEVENTFD,
        }
    }

    /// The name under which the kernel's headers define this capability.
    pub open spec fn spec_name(self) -> Seq<char> {
        match self {
            Capability::EnableCap => "KVM_CAP_ENABLE_CAP"@,
            Capability::EnableCapVm => "KVM_CAP_ENABLE_CAP_VM"@,
            Capability::IrqChip => "KVM_CAP_IRQCHIP"@,
            Capability::AdjustClock => "KVM_CAP_ADJUST_CLOCK"@,
            Capability::MpState => "KVM_CAP_MP_STATE"@,
            Capability::UserspaceMemory => "KVM_CAP_USER_MEMORY"@,
            Capability::IoEventFd => "KVM_CAP_IOEVENTFD"@,
        }
    }

    /// The number that is handed to the kernel's extension check.
    pub fn into(self) -> (number: i32)
        ensures
            number == self.number(),
    {
        match self {
            Capability::EnableCap => sys::KVM_CAP_ENABLE_CAP,
            Capability::EnableCapVm => sys::KVM_CAP_ENABLE_CAP_VM,
            Capability::IrqChip => sys::KVM_CAP_IRQCHIP,
            Capability::AdjustClock => sys::KVM_CAP_ADJUST_CLOCK,
            Capability::MpState => sys::KVM_CAP_MP_STATE,
            Capability::UserspaceMemory => sys::KVM_CAP_USER_MEMORY,
            Capability::IoEventFd => sys::KVM_CAP_IOEVENTFD,
        }
    }

    /// The capability's name, as it is shown to a user.
    pub fn name(self) -> (text: &'static str)
        ensures
            text@ == self.spec_name(),
    {
        match self {
            Capability::EnableCap => "KVM_CAP_ENABLE_CAP",
            Capability::EnableCapVm => "KVM_CAP_ENABLE_CAP_VM",
            Capability::IrqChip => "KVM_CAP_IRQCHIP",
            Capability::AdjustClock => "KVM_CAP_ADJUST_CLOCK",
            Capability::MpState => "KVM_CAP_MP_STATE",
            Capability::UserspaceMemory => "KVM_CAP_USER_MEMORY",
            Capability::IoEventFd => "KVM_CAP_IOEVENTFD",
        }
    }
}

/// Whether a check that ended with `check` shows the capability to be there: it
/// does when the kernel answered with a positive number.
pub open spec fn present(check: Result<i32, Error>) -> bool {
    match check {
        Ok(value) => value > 0,
        Err(_) => false,
    }
}

/// What asserting `cap` comes to when its check ended with `check`: a failed check
/// fails the same way, a negative answer means the capability is missing, and
/// zero or more lets the caller go on.
pub open spec fn asserted(cap: Capability, check: Result<i32, Error>) -> Result<(), Error> {
    match check {
        Ok(value) => if value < 0 {
            Err(Error::MissingCapability(cap))
        } else {
            Ok(())
        },
        Err(error) => Err(error),
    }
}

/// Decides from the outcome of a check whether the capability is there.
pub fn capability_present(check: Result<i32, Error>) -> (has: bool)
    ensures
        has == present(check),
{
    match check {
        Ok(value) => value > 0,
        Err(_) => false,
    }
}

/// Decides from the outcome of a check whether an operation that needs `cap` may go
/// on, and with which error it may not.
pub fn capability_asserted(cap: Capability, check: Result<i32, Error>) -> (outcome: Result<
    (),
    Error,
>)
    ensures
        outcome == asserted(cap, check),
{
    match check {
        Ok(value) => {
            if value < 0 {
                Err(Error::MissingCapability(cap))
            } else {
                Ok(())
            }
        },
        Err(error) => Err(error),
    }
}

/// Something capabilities can be checked against: the hypervisor itself, a
/// machine, or a virtual CPU.
///
/// What a check answers is the kernel's business and not known beforehand. An
/// implementation says with `checked` which answers its check can give and what
/// the check does to the object, and everything else here is stated over that.
pub trait CheckCapability {
    /// Whether a check of `cap` on this object can end with `check` and leave the
    /// object as `after`. Unless an implementation says more, every answer is
    /// possible.
    open spec fn checked(&self, cap: Capability, check: Result<i32, Error>, after: &Self) -> bool {
        true
    }

    /// Asks the kernel about `cap`. The answer is the kernel's own number for the
    /// capability's availability, or the error of a check that could not be made.
    fn check_capability(&mut self, cap: Capability) -> (check: Result<i32, Error>)
        ensures
            old(self).checked(cap, check, final(self)),
    ;

    /// Whether `cap` is available. The object is asked once, about `cap` itself,
    /// and the capability is there exactly when the answer is a number above
    /// zero; a check that fails counts as an absent capability.
    fn has_capability(&mut self, cap: Capability) -> (has: bool)
        ensures
            exists|check: Result<i32, Error>|
                old(self).checked(cap, check, final(self)) && has == present(check),
    {
        capability_present(self.check_capability(cap))
    }

    /// Fails unless `cap` is available. The object is asked once, about `cap`
    /// itself. A negative answer is a `MissingCapability` error that carries
    /// `cap`, an answer of zero or more is a success, and a check that fails
    /// hands its own error on. Which of these comes is for the kernel to decide.
    fn assert_capability(&mut self, cap: Capability) -> (outcome: Result<(), Error>)
        ensures
            exists|check: Result<i32, Error>|
                old(self).checked(cap, check, final(self)) && outcome == asserted(cap, check),
    {
        capability_asserted(cap, self.check_capability(cap))
    }
}

} // verus!
