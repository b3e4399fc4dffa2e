//! The PCI configuration mechanism: addresses, the devices that answer
//! configuration cycles, and the host bridge that routes the cycles to them.

pub mod address;
pub mod host;
pub mod invalid;

pub use self::address::Address;
pub use self::host::Host;
pub use self::invalid::Invalid;

use crate::device::Device;
use vstd::prelude::*;

verus! {

/// A device with a PCI configuration space.
///
/// The host bridge hands such a device the configuration cycles that are
/// addressed to it. An answer of `None` means that the device does not handle the
/// cycle; to the guest that looks as if no device were there.
pub trait Pci: Device {
    /// What a device in state `model` answers to a read of `address`.
    spec fn read(model: Self::V, address: Address) -> Option<u32>;

    /// The state that a write of `value` to `address` leaves a device in that was
    /// in state `model`.
    spec fn written(model: Self::V, address: Address, value: u32) -> Self::V;

    /// Whether a device in state `model` handles a write of `value` to `address`.
    spec fn accepts(model: Self::V, address: Address, value: u32) -> bool;

    /// Reads the register that `address` names.
    fn config_read(&self, address: Address) -> (value: Option<u32>)
        ensures
            value == Self::read(self@, address),
    ;

    /// Writes `value` to the register that `address` names.
    fn config_write(&mut self, address: Address, value: u32) -> (handled: Option<()>)
        ensures
            final(self)@ == Self::written(old(self)@, address, value),
            handled.is_some() == Self::accepts(old(self)@, address, value),
    ;
}

} // verus!
