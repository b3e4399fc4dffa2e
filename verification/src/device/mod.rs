//! What an emulated device is to the rest of the machine.

pub mod cmos;
pub mod e9;
pub mod peripheral;
pub mod sconsole;

pub use self::peripheral::{prepare, Peripheral};

use crate::io::{IoAction, IoAddress};
use vstd::prelude::*;

verus! {

/// An emulated device.
///
/// A device names the addresses it wants to hear of and handles the accesses to
/// them. What it is at any moment is its view; what an access does to it and to
/// the data buffer is a function of that view, the access and the buffer.
pub trait Device: View + Sized {
    /// The addresses that a device in state `model` asks for, in the order in
    /// which it names them.
    spec fn requests(model: Self::V) -> Seq<IoAddress>;

    /// The state that the access `io`, with `memory` as its data, leaves a device
    /// in that was in state `model`.
    spec fn next(model: Self::V, io: IoAction, memory: Seq<u8>) -> Self::V;

    /// The data buffer after a device in state `model` has handled the access `io`
    /// that came with `memory`.
    spec fn output(model: Self::V, io: IoAction, memory: Seq<u8>) -> Seq<u8>;

    /// Whether a device in state `model` takes the access `io` for one of its own.
    spec fn claims(model: Self::V, io: IoAction) -> bool;

    /// The addresses that the device wants to be told of.
    fn request(&self) -> (addresses: Vec<IoAddress>)
        ensures
            addresses@ == Self::requests(self@),
    ;

    /// Handles one access. `memory` holds the bytes that move: for an access in
    /// the direction `Out` the guest's, which the device reads; for one in the
    /// direction `In` the device's answer, which it writes. The buffer is as
    /// long as the access says and stays that long.
    ///
    /// Returns `None` for an access that the device does not take for its own.
    fn handle(&mut self, io: IoAction, memory: &mut [u8]) -> (handled: Option<()>)
        requires
            old(memory)@.len() == io.2,
        ensures
            final(self)@ == Self::next(old(self)@, io, old(memory)@),
            final(memory)@ == Self::output(old(self)@, io, old(memory)@),
            final(memory)@.len() == old(memory)@.len(),
            handled.is_some() == Self::claims(old(self)@, io),
    ;
}

} // verus!
