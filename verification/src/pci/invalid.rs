//! The device that stands where no device is.

use crate::device::Device;
use crate::io::{IoAction, IoAddress};
use crate::pci::{Address, Pci};
use vstd::prelude::*;

verus! {

/// A device that handles nothing. It asks for no address, takes no access for
/// its own, and leaves every configuration cycle unanswered.
#[derive(Debug, Copy, Clone, PartialEq, Eq, Structural)]
pub struct Invalid;

impl View for Invalid {
    type V = ();

    open spec fn view(&self) -> () {
        ()
    }
}

impl Device for Invalid {
    open spec fn requests(model: ()) -> Seq<IoAddress> {
        Seq::empty()
    }

    open spec fn next(model: (), io: IoAction, memory: Seq<u8>) -> () {
        ()
    }

    open spec fn output(model: (), io: IoAction, memory: Seq<u8>) -> Seq<u8> {
        memory
    }

    open spec fn claims(model: (), io: IoAction) -> bool {
        false
    }

    fn request(&self) -> (addresses: Vec<IoAddress>) {
        Vec::new()
    }

    fn handle(&mut self, io: IoAction, memory: &mut [u8]) -> (handled: Option<()>) {
        None
    }
}

impl Pci for Invalid {
    open spec fn read(model: (), address: Address) -> Option<u32> {
        None
    }

    open spec fn written(model: (), address: Address, value: u32) -> () {
        ()
    }

    open spec fn accepts(model: (), address: Address, value: u32) -> bool {
        false
    }

    fn config_read(&self, address: Address) -> (value: Option<u32>) {
        None
    }

    fn config_write(&mut self, address: Address, value: u32) -> (handled: Option<()>) {
        None
    }
}

} // verus!
