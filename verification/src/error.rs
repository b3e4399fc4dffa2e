//! What can go wrong while a machine is set up and run.

use crate::capability::Capability;
use vstd::prelude::*;

verus! {

/// The failures of this library, by kind.
///
/// Setup failures are fatal to the caller; a failure inside one virtual CPU's loop
/// ends that loop only. An access to an address that no device asked for is not an
/// error at all.
#[derive(Debug, Clone, PartialEq, Eq)]
pub enum Error {
    /// The hypervisor device could not be opened.
    SystemOpen,
    /// An operation on the hypervisor handle failed.
    SystemOperation,
    /// The query for a capability itself failed.
    CapabilityCheck,
    /// The kernel lacks a capability that an operation depends on.
    MissingCapability(Capability),
    /// The kernel refused an operation on a machine.
    MachineOperation,
    /// The kernel refused an operation on a virtual CPU.
    CoreOperation,
    /// A virtual CPU was run before its control page was mapped.
    CoreUninitialized,
    /// The kernel reported an exit reason that this library does not know.
    IllegalExitReason(u32),
    /// Guest memory could not be mapped.
    MemoryMap,
    /// The firmware image cannot be used; the text says why.
    InvalidFirmware(&'static str),
    /// A device was handed an access to an address it had not asked for.
    DeviceInvalidPort,
    /// An event descriptor could not be created.
    EventFdCreate,
    /// An event descriptor could not be read.
    EventFdRead,
    /// A notification could not be read.
    NotifyRead,
    /// A notification could not be written.
    NotifyWrite,
    /// An action that is no error was asked for its error.
    ActionNotError,
}

impl Error {
    /// The fixed text that `description` gives for this kind of error.
    pub open spec fn spec_description(self) -> Seq<char> {
        match self {
            Error::SystemOpen => "could not open the hypervisor device"@,
            Error::SystemOperation => "hypervisor operation failed"@,
            Error::CapabilityCheck => "could not check a capability"@,
            Error::MissingCapability(_) => "a required capability is missing"@,
            Error::MachineOperation => "machine operation failed"@,
            Error::CoreOperation => "core operation failed"@,
            Error::CoreUninitialized => "the core is not mapped"@,
            Error::IllegalExitReason(_) => "illegal exit reason"@,
            Error::MemoryMap => "could not map memory"@,
            Error::InvalidFirmware(_) => "could not load instance firmware"@,
            Error::DeviceInvalidPort => "device was given a port it did not request"@,
            Error::EventFdCreate => "could not create an event descriptor"@,
            Error::EventFdRead => "could not read an event descriptor"@,
            Error::NotifyRead => "could not read a notification"@,
            Error::NotifyWrite => "could not write a notification"@,
            Error::ActionNotError => "the action is not an error"@,
        }
    }

    /// A short, fixed description of the kind of error.
    pub fn description(&self) -> (text: &'static str)
        ensures
            text@ == self.spec_description(),
    {
        match self {
            Error::SystemOpen => "could not open the hypervisor device",
            Error::SystemOperation => "hypervisor operation failed",
            Error::CapabilityCheck => "could not check a capability",
            Error::MissingCapability(_) => "a required capability is missing",
            Error::MachineOperation => "machine operation failed",
            Error::CoreOperation => "core operation failed",
            Error::CoreUninitialized => "the core is not mapped",
            Error::IllegalExitReason(_) => "illegal exit reason",
            Error::MemoryMap => "could not map memory",
            Error::InvalidFirmware(_) => "could not load instance firmware",
            Error::DeviceInvalidPort => "device was given a port it did not request",
            Error::EventFdCreate => "could not create an event descriptor",
            Error::EventFdRead => "could not read an event descriptor",
            Error::NotifyRead => "could not read a notification",
            Error::NotifyWrite => "could not write a notification",
            Error::ActionNotError => "the action is not an error",
        }
    }
}

} // verus!
