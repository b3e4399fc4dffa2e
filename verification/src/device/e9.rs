//! The debug port: whatever the guest writes to it is shown to the host's user.

use crate::device::Device;
use crate::io::{IoAction, IoAddress, IoDirection};
use vstd::prelude::*;

verus! {

/// The port that the debug device listens on unless it is given another.
pub const E9_PORT: u64 = 0xe9;

/// The debug port.
///
/// A write to the port is debug output of the guest. The device keeps it until
/// the host takes it away with `take_output` to show it. A read finds no data
/// and gets all bits set.
#[derive(Debug, Clone, PartialEq, Eq)]
pub struct E9 {
    port: Option<u64>,
    output: Vec<u8>,
}

/// What a debug port is at any moment.
pub struct E9View {
    /// The port it was told to listen on, if any.
    pub port: Option<u64>,
    /// What the guest has written and the host has not taken yet.
    pub output: Seq<u8>,
}

impl View for E9 {
    type V = E9View;

    closed spec fn view(&self) -> E9View {
        E9View { port: self.port, output: self.output@ }
    }
}

impl E9 {
    /// A debug port on `port`, or on `E9_PORT` where none is given.
    pub fn new(port: Option<u64>) -> (device: E9)
        ensures
            device@ == (E9View { port, output: Seq::empty() }),
    {
        E9 { port, output: Vec::new() }
    }

    /// Hands out what the guest has written since the last call, and forgets
    /// it.
    pub fn take_output(&mut self) -> (output: Vec<u8>)
        ensures
            output@ == old(self)@.output,
            final(self)@ == (E9View { port: old(self)@.port, output: Seq::empty() }),
    {
        let mut output: Vec<u8> = Vec::new();
        std::mem::swap(&mut self.output, &mut output);
        output
    }
}

impl Device for E9 {
    open spec fn requests(model: E9View) -> Seq<IoAddress> {
        seq![
            IoAddress::Port(
                match model.port {
                    Some(port) => port,
                    None => E9_PORT,
                },
            ),
        ]
    }

    open spec fn next(model: E9View, io: IoAction, memory: Seq<u8>) -> E9View {
        match io.1 {
            IoDirection::Out => E9View { port: model.port, output: model.output + memory },
            IoDirection::In => model,
        }
    }

    open spec fn output(model: E9View, io: IoAction, memory: Seq<u8>) -> Seq<u8> {
        match io.1 {
            IoDirection::Out => memory,
            IoDirection::In => Seq::new(memory.len(), |i: int| 0xffu8),
        }
    }

    open spec fn claims(model: E9View, io: IoAction) -> bool {
        true
    }

    fn request(&self) -> (addresses: Vec<IoAddress>) {
        let port: u64 = match self.port {
            Some(port) => port,
            None => E9_PORT,
        };
        let mut addresses: Vec<IoAddress> = Vec::new();
        addresses.push(IoAddress::Port(port));
        assert(addresses@ =~= Self::requests(self@));
        addresses
    }

    fn handle(&mut self, io: IoAction, memory: &mut [u8]) -> (handled: Option<()>) {
        match io.direction() {
            IoDirection::Out => {
                self.output.extend_from_slice(memory);
                assert(self@.output == old(self)@.output + memory@);
            },
            IoDirection::In => {
                let n: usize = memory.len();
                let mut i: usize = 0;
                while i < n
                    invariant
                        n == memory@.len(),
                        i <= n,
                        forall|k: int| 0 <= k < i ==> memory@[k] == 0xffu8,
                        self@ == old(self)@,
                    decreases n - i,
                {
                    memory[i] = 0xff;
                    i += 1;
                }
                assert(memory@ =~= Seq::new(memory@.len(), |i: int| 0xffu8));
            },
        }
        Some(())
    }
}

} // verus!
