//! The multiprocessor state of a virtual CPU.

use crate::sys;
use vstd::prelude::*;

verus! {

/// The multiprocessor state of a virtual CPU.
#[derive(Debug, Copy, Clone, PartialEq, Eq, Structural)]
pub enum State {
    /// A number from the kernel that names none of the states below.
    Unknown,
    /// Running. x86, ARM and arm64 only.
    Runnable,
    /// An application processor that has not received INIT yet. x86 only.
    Uninitialized,
    /// INIT was received; the processor waits for a SIPI. x86 only.
    InitReceived,
    /// Halted by HLT and waiting for an interrupt. x86 only.
    Halted,
    /// A SIPI was just received. x86 only.
    SipiReceived,
    /// Stopped. s390, ARM and arm64 only.
    Stopped,
    /// In the check-stop error state. s390 only.
    CheckStop,
    /// Operating, that is running or halted. s390 only.
    Operating,
    /// In the load state. s390 only.
    Load,
}

/// The number that stands for `State::Unknown`: all bits set.
pub const MP_STATE_UNKNOWN: u32 = 0xffff_ffff;

impl State {
    /// The kernel's number for this state; `Unknown` has a number that the
    /// kernel uses for no state.
    pub open spec fn number(self) -> u32 {
        match self {
            State::Runnable => sys::KVM_MP_STATE_RUNNABLE,
            State::Uninitialized => sys::KVM_MP_STATE_UNINITIALIZED,
            State::InitReceived => sys::KVM_MP_STATE_INIT_RECEIVED,
            State::Halted => sys::KVM_MP_STATE_HALTED,
            State::SipiReceived => sys::KVM_MP_STATE_SIPI_RECEIVED,
            State::Stopped => sys::KVM_MP_STATE_STOPPED,
            State::CheckStop => sys::KVM_MP_STATE_CHECK_STOP,
            State::Operating => sys::KVM_MP_STATE_OPERATING,
            State::Load => sys::KVM_MP_STATE_LOAD,
            State::Unknown => MP_STATE_UNKNOWN,
        }
    }

    /// The state that the number `v` stands for; `Unknown` for a number that
    /// stands for none.
    pub open spec fn of(v: u32) -> State {
        if v == sys::KVM_MP_STATE_RUNNABLE {
            State::Runnable
        } else if v == sys::KVM_MP_STATE_UNINITIALIZED {
            State::Uninitialized
        } else if v == sys::KVM_MP_STATE_INIT_RECEIVED {
            State::InitReceived
        } else if v == sys::KVM_MP_STATE_HALTED {
            State::Halted
        } else if v == sys::KVM_MP_STATE_SIPI_RECEIVED {
            State::SipiReceived
        } else if v == sys::KVM_MP_STATE_STOPPED {
            State::Stopped
        } else if v == sys::KVM_MP_STATE_CHECK_STOP {
            State::CheckStop
        } else if v == sys::KVM_MP_STATE_OPERATING {
            State::Operating
        } else if v == sys::KVM_MP_STATE_LOAD {
            State::Load
        } else {
            State::Unknown
        }
    }

    /// The number to hand to the kernel for this state.
    pub fn into(self) -> (number: u32)
        ensures
            number == self.number(),
    {
        match self {
            State::Runnable => sys::KVM_MP_STATE_RUNNABLE,
            State::Uninitialized => sys::KVM_MP_STATE_UNINITIALIZED,
            State::InitReceived => sys::KVM_MP_STATE_INIT_RECEIVED,
            State::Halted => sys::KVM_MP_STATE_HALTED,
            State::SipiReceived => sys::KVM_MP_STATE_SIPI_RECEIVED,
            State::Stopped => sys::KVM_MP_STATE_STOPPED,
            State::CheckStop => sys::KVM_MP_STATE_CHECK_STOP,
            State::Operating => sys::KVM_MP_STATE_OPERATING,
            State::Load => sys::KVM_MP_STATE_LOAD,
            State::Unknown => MP_STATE_UNKNOWN,
        }
    }

    /// The state that a number from the kernel stands for.
    pub fn from(v: u32) -> (state: State)
        ensures
            state == State::of(v),
    {
        if v == sys::KVM_MP_STATE_RUNNABLE {
            State::Runnable
        } else if v == sys::KVM_MP_STATE_UNINITIALIZED {
            State::Uninitialized
        } else if v == sys::KVM_MP_STATE_INIT_RECEIVED {
            State::InitReceived
        } else if v == sys::KVM_MP_STATE_HALTED {
            State::Halted
        } else if v == sys::KVM_MP_STATE_SIPI_RECEIVED {
            State::SipiReceived
        } else if v == sys::KVM_MP_STATE_STOPPED {
            State::Stopped
        } else if v == sys::KVM_MP_STATE_CHECK_STOP {
            State::CheckStop
        } else if v == sys::KVM_MP_STATE_OPERATING {
            State::Operating
        } else if v == sys::KVM_MP_STATE_LOAD {
            State::Load
        } else {
            State::Unknown
        }
    }

    /// A state survives the way to its number and back.
    pub proof fn lemma_round_trip(self)
        ensures
            State::of(self.number()) == self,
    {
    }
}

} // verus!
