//! Where the guest's I/O goes: addresses, directions and access descriptors.

use crate::sys;
use vstd::prelude::*;

verus! {

/// The address of an access: an I/O port or a place in guest-physical memory.
///
/// Two addresses are equal when they are of the same kind and hold the same
/// number.
#[derive(Debug, Copy, Clone, PartialEq, Eq, Hash, Structural)]
pub enum IoAddress {
    Port(u64),
    Memory(u64),
}

/// Which way the data of an access moves, seen from the guest.
#[derive(Debug, Copy, Clone, PartialEq, Eq, Hash, Structural)]
pub enum IoDirection {
    /// The guest reads; the device fills the buffer.
    In,
    /// The guest writes; the device reads the buffer.
    Out,
}

/// One access: its address, its direction and the number of bytes it moves.
#[derive(Debug, Copy, Clone, PartialEq, Eq, Hash, Structural)]
pub struct IoAction(pub IoAddress, pub IoDirection, pub usize);

impl IoAddress {
    /// The number inside the address, whatever its kind.
    pub open spec fn raw(self) -> u64 {
        match self {
            IoAddress::Port(v) => v,
            IoAddress::Memory(v) => v,
        }
    }

    /// The number inside the address, whatever its kind.
    pub fn raw_address(&self) -> (raw: u64)
        ensures
            raw == self.raw(),
    {
        match self {
            IoAddress::Port(v) => *v,
            IoAddress::Memory(v) => *v,
        }
    }

    /// The flags that register an event on this address with the kernel: the
    /// port flag for a port, none for memory.
    pub fn raw_flags(&self) -> (flags: u32)
        ensures
            flags == if *self is Port {
                sys::KVM_IOEVENTFD_FLAG_PIO
            } else {
                0
            },
    {
        match self {
            IoAddress::Port(_) => sys::KVM_IOEVENTFD_FLAG_PIO,
            IoAddress::Memory(_) => 0,
        }
    }

    /// The registration of the event descriptor `fd` on accesses of `length` bytes
    /// to this address, as the kernel wants it described: no data match, the
    /// address and its flags, and zeros for the rest.
    pub fn ioeventfd(&self, length: u32, fd: i32) -> (raw: sys::structs::IoEventFd)
        ensures
            raw.datamatch == 0,
            raw.addr == self.raw(),
            raw.len == length,
            raw.fd == fd,
            raw.flags == if *self is Port {
                sys::KVM_IOEVENTFD_FLAG_PIO
            } else {
                0
            },
            raw._pad@ == Seq::new(36, |i: int| 0u8),
    {
        let raw = sys::structs::IoEventFd {
            datamatch: 0,
            addr: self.raw_address(),
            len: length,
            fd,
            flags: self.raw_flags(),
            _pad: [0u8;36],
        };
        assert(raw._pad@ =~= Seq::new(36, |i: int| 0u8));
        raw
    }

    /// The address `by` places further on, of the same kind. Behind the last
    /// address the count starts again at zero.
    pub open spec fn moved(self, by: u64) -> IoAddress {
        match self {
            IoAddress::Port(v) => IoAddress::Port(((v + by) % 0x1_0000_0000_0000_0000) as u64),
            IoAddress::Memory(v) => IoAddress::Memory(
                ((v + by) % 0x1_0000_0000_0000_0000) as u64,
            ),
        }
    }

    /// The address `by` places further on, of the same kind.
    pub fn offset(self, by: u64) -> (moved: IoAddress)
        ensures
            moved == self.moved(by),
    {
        match self {
            IoAddress::Port(v) => IoAddress::Port(v.wrapping_add(by)),
            IoAddress::Memory(v) => IoAddress::Memory(v.wrapping_add(by)),
        }
    }

    /// The access that reads one byte from this address.
    pub fn inb(self) -> (io: IoAction)
        ensures
            io == IoAction(self, IoDirection::In, 1),
    {
        IoAction(self, IoDirection::In, 1)
    }

    /// The access that writes one byte to this address.
    pub fn outb(self) -> (io: IoAction)
        ensures
            io == IoAction(self, IoDirection::Out, 1),
    {
        IoAction(self, IoDirection::Out, 1)
    }

    /// The access that reads two bytes from this address.
    pub fn inw(self) -> (io: IoAction)
        ensures
            io == IoAction(self, IoDirection::In, 2),
    {
        IoAction(self, IoDirection::In, 2)
    }

    /// The access that writes two bytes to this address.
    pub fn outw(self) -> (io: IoAction)
        ensures
            io == IoAction(self, IoDirection::Out, 2),
    {
        IoAction(self, IoDirection::Out, 2)
    }

    /// The access that reads four bytes from this address.
    pub fn inl(self) -> (io: IoAction)
        ensures
            io == IoAction(self, IoDirection::In, 4),
    {
        IoAction(self, IoDirection::In, 4)
    }

    /// The access that writes four bytes to this address.
    pub fn outl(self) -> (io: IoAction)
        ensures
            io == IoAction(self, IoDirection::Out, 4),
    {
        IoAction(self, IoDirection::Out, 4)
    }
}

impl IoDirection {
    /// The direction that a port exit names by `raw`: in for
    /// `KVM_EXIT_IO_IN`, out for `KVM_EXIT_IO_OUT`, none for any other number.
    pub open spec fn of_port_exit(raw: u8) -> Option<IoDirection> {
        if raw == sys::run::KVM_EXIT_IO_IN {
            Some(IoDirection::In)
        } else if raw == sys::run::KVM_EXIT_IO_OUT {
            Some(IoDirection::Out)
        } else {
            None
        }
    }

    /// The direction of a port exit.
    pub fn from_port_exit(raw: u8) -> (direction: Option<IoDirection>)
        ensures
            direction == IoDirection::of_port_exit(raw),
    {
        if raw == sys::run::KVM_EXIT_IO_IN {
            Some(IoDirection::In)
        } else if raw == sys::run::KVM_EXIT_IO_OUT {
            Some(IoDirection::Out)
        } else {
            None
        }
    }

    /// The direction of a memory exit: out when the guest writes, that is when
    /// `is_write` is not zero, and in when it reads.
    pub fn from_mmio_exit(is_write: u8) -> (direction: IoDirection)
        ensures
            direction == if is_write != 0 {
                IoDirection::Out
            } else {
                IoDirection::In
            },
    {
        if is_write != 0 {
            IoDirection::Out
        } else {
            IoDirection::In
        }
    }
}

impl IoAction {
    /// The address that is accessed.
    pub fn address(&self) -> (address: IoAddress)
        ensures
            address == self.0,
    {
        self.0
    }

    /// Which way the data moves.
    pub fn direction(&self) -> (direction: IoDirection)
        ensures
            direction == self.1,
    {
        self.1
    }

    /// How many bytes the access moves.
    pub fn size(&self) -> (size: usize)
        ensures
            size == self.2,
    {
        self.2
    }
}

} // verus!
