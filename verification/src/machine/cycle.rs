//! One turn of a virtual CPU's loop: what to do about an exit.
//!
//! The loop itself enters the guest and waits, which is the caller's business.
//! Whenever the guest is left, the caller decodes the exit and hands it over
//! here, together with the bus and the control page, and is told how to go on.

use crate::bus::{served, Bus};
use crate::bytes::{put_bytes, splice};
use crate::device::Device;
use crate::error::Error;
use crate::io::{IoAction, IoAddress, IoDirection};
use crate::machine::action::Action;
use crate::sys::run::{
    ExitIo, ExitMmio, KVM_SYSTEM_EVENT_CRASH, KVM_SYSTEM_EVENT_SHUTDOWN, RUN_MMIO_DATA_OFFSET,
};
use crate::vcpu::run::Exit;
use vstd::prelude::*;

verus! {

/// The access that one repetition of the port instruction behind `exit` makes,
/// if the exit names a direction.
pub open spec fn port_access(exit: ExitIo) -> Option<IoAction> {
    match IoDirection::of_port_exit(exit.direction) {
        Some(direction) => Some(
            IoAction(IoAddress::Port(exit.port as u64), direction, exit.size as usize),
        ),
        None => None,
    }
}

/// Whether the data of all repetitions of the port instruction behind `exit`
/// lies inside a control page of `length` bytes.
pub open spec fn port_data_fits(exit: ExitIo, length: nat) -> bool {
    exit.data_offset + exit.count * exit.size <= length
}

/// The devices and the control page after `count` accesses `io` were served one
/// after another. The data of the first access stands in the page at `at`, that
/// of each further one right behind the data of the one before, and every access
/// leaves its result where its data stood.
pub open spec fn repeated<D: Device>(
    devices: Seq<D::V>,
    order: Seq<usize>,
    io: IoAction,
    page: Seq<u8>,
    at: int,
    count: nat,
) -> (Seq<D::V>, Seq<u8>)
    decreases count,
{
    if count == 0 {
        (devices, page)
    } else {
        let once = served::<D>(devices, order, io, page.subrange(at, at + io.2));
        repeated::<D>(
            once.0,
            order,
            io,
            splice(page, at, once.1),
            at + io.2,
            (count - 1) as nat,
        )
    }
}

/// The access that the memory exit `exit` describes.
pub open spec fn memory_access(exit: ExitMmio) -> IoAction {
    IoAction(
        IoAddress::Memory(exit.phys_addr),
        if exit.is_write != 0 {
            IoDirection::Out
        } else {
            IoDirection::In
        },
        exit.len as usize,
    )
}

/// Whether the memory exit `exit` can be served with a control page of `length`
/// bytes: it moves at most the eight bytes that the exit has room for, and the
/// page reaches behind the place of these bytes.
pub open spec fn memory_data_fits(exit: ExitMmio, length: nat) -> bool {
    exit.len <= 8 && RUN_MMIO_DATA_OFFSET + 8 <= length
}

/// Whether `exit` is a regular end of the virtual CPU: a shutdown, or a system
/// event that reports a shutdown or a crash.
pub open spec fn ends(exit: Exit) -> bool {
    match exit {
        Exit::Shutdown => true,
        Exit::SystemEvent(event) => event.kind == KVM_SYSTEM_EVENT_SHUTDOWN || event.kind
            == KVM_SYSTEM_EVENT_CRASH,
        _ => false,
    }
}

/// Serves all repetitions of a port instruction, in the order of their data in
/// the control page.
///
/// Nothing is served, and the virtual CPU fails with `CoreOperation`, where the
/// exit names no direction or its data does not lie inside the page.
pub fn service_port<D: Device>(bus: &mut Bus<D>, exit: &ExitIo, page: &mut [u8]) -> (action:
    Action)
    ensures
        final(page)@.len() == old(page)@.len(),
        forall|other: IoAddress| #[trigger]
            final(bus).listeners(other) == old(bus).listeners(other),
        match port_access(*exit) {
            Some(io) if port_data_fits(*exit, old(page)@.len()) => {
                &&& action == Action::Continue
                &&& (final(bus).devices(), final(page)@) == repeated::<D>(
                    old(bus).devices(),
                    old(bus).listeners(io.0),
                    io,
                    old(page)@,
                    exit.data_offset as int,
                    exit.count as nat,
                )
            },
            _ => {
                &&& action == Action::Fail(Error::CoreOperation)
                &&& final(bus).devices() == old(bus).devices()
                &&& final(page)@ == old(page)@
            },
        },
{
    let direction = match IoDirection::from_port_exit(exit.direction) {
        Some(direction) => direction,
        None => {
            return Action::Fail(Error::CoreOperation);
        },
    };
    let length: usize = page.len();
    let size: usize = exit.size as usize;
    let count: u32 = exit.count;
    assert(exit.count * exit.size <= 0xffff_ffff * 0xff) by (nonlinear_arith)
        requires
            exit.count <= 0xffff_ffff,
            exit.size <= 0xff,
    ;
    let total: u64 = (count as u64) * (exit.size as u64);
    let fits: bool = match exit.data_offset.checked_add(total) {
        Some(end) => end <= length as u64,
        None => false,
    };
    if !fits {
        return Action::Fail(Error::CoreOperation);
    }
    let address = IoAddress::Port(exit.port as u64);
    let ghost io = IoAction(address, direction, size);
    let ghost order = bus.listeners(address);
    let mut start: usize = exit.data_offset as usize;
    let mut i: u32 = 0;
    while i < count
        invariant
            i <= count,
            count == exit.count,
            size == exit.size,
            length == page@.len(),
            length == old(page)@.len(),
            io == IoAction(address, direction, size),
            start == exit.data_offset + i * size,
            exit.data_offset + count * size <= length,
            forall|other: IoAddress| #[trigger]
                bus.listeners(other) == old(bus).listeners(other),
            order == old(bus).listeners(address),
            repeated::<D>(bus.devices(), order, io, page@, start as int, (count - i) as nat)
                == repeated::<D>(
                old(bus).devices(),
                order,
                io,
                old(page)@,
                exit.data_offset as int,
                count as nat,
            ),
        decreases count - i,
    {
        assert(start + size <= length) by (nonlinear_arith)
            requires
                start == exit.data_offset + i * size,
                exit.data_offset + count * size <= length,
                i < count,
        ;
        assert(exit.data_offset + (i + 1) * size == start + size) by (nonlinear_arith)
            requires
                start == exit.data_offset + i * size,
        ;
        let ghost before = page@;
        let ghost devices = bus.devices();
        let (_, tail) = page.split_at_mut(start);
        let (window, _) = tail.split_at_mut(size);
        assert(window@ =~= before.subrange(start as int, start + size));
        bus.handle(address, direction, size, window);
        proof {
            let once = served::<D>(devices, order, io, before.subrange(start as int, start + size));
            assert(page@.len() == before.len());
            assert forall|k: int| 0 <= k < page@.len() implies page@[k] == splice(
                before,
                start as int,
                once.1,
            )[k] by {
                if k < start {
                    assert(page@[k] == before.subrange(0, start as int)[k]);
                } else if k < start + size {
                    assert(page@[k] == once.1[k - start]);
                } else {
                    assert(page@[k] == before.subrange(start as int, length as int).subrange(
                        size as int,
                        length - start,
                    )[k - start - size]);
                }
            }
            assert(page@ =~= splice(before, start as int, once.1));
        }
        start = start + size;
        i = i + 1;
    }
    Action::Continue
}

/// Serves a memory access: the bytes that move go to the devices that listen on
/// the address, and what they leave goes back into the control page, to where the
/// exit holds its data.
///
/// Nothing is served, and the virtual CPU fails with `CoreOperation`, where the
/// exit moves more bytes than it has room for or the page is too short to hold
/// them.
pub fn service_memory<D: Device>(bus: &mut Bus<D>, exit: &ExitMmio, page: &mut [u8]) -> (action:
    Action)
    ensures
        final(page)@.len() == old(page)@.len(),
        forall|other: IoAddress| #[trigger]
            final(bus).listeners(other) == old(bus).listeners(other),
        if memory_data_fits(*exit, old(page)@.len()) {
            let io = memory_access(*exit);
            let once = served::<D>(
                old(bus).devices(),
                old(bus).listeners(io.0),
                io,
                exit.data@.subrange(0, exit.len as int),
            );
            &&& action == Action::Continue
            &&& final(bus).devices() == once.0
            &&& final(page)@ == splice(old(page)@, RUN_MMIO_DATA_OFFSET as int, once.1)
        } else {
            &&& action == Action::Fail(Error::CoreOperation)
            &&& final(bus).devices() == old(bus).devices()
            &&& final(page)@ == old(page)@
        },
{
    let length: usize = page.len();
    if exit.len > 8 || length < RUN_MMIO_DATA_OFFSET + 8 {
        return Action::Fail(Error::CoreOperation);
    }
    let size: usize = exit.len as usize;
    let address = IoAddress::Memory(exit.phys_addr);
    let direction = IoDirection::from_mmio_exit(exit.is_write);
    let mut data: [u8; 8] = exit.data;
    let (window, _) = data.split_at_mut(size);
    assert(window@ =~= exit.data@.subrange(0, exit.len as int));
    bus.handle(address, direction, size, window);
    put_bytes(page, RUN_MMIO_DATA_OFFSET, window);
    Action::Continue
}

/// Decides what follows an exit, and serves the accesses that the exit asks for.
///
/// A port or memory access is served as `service_port` and `service_memory` say,
/// and the guest is entered again. A shutdown, and a system event that reports a
/// shutdown or a crash, ends the loop in the regular way. Every other exit is
/// fatal to the virtual CPU, which fails with `CoreOperation`; neither the
/// devices nor the page are touched then.
pub fn service<D: Device>(bus: &mut Bus<D>, exit: &Exit, page: &mut [u8]) -> (action: Action)
    ensures
        final(page)@.len() == old(page)@.len(),
        forall|other: IoAddress| #[trigger]
            final(bus).listeners(other) == old(bus).listeners(other),
        match *exit {
            Exit::Io(port) => match port_access(port) {
                Some(io) if port_data_fits(port, old(page)@.len()) => {
                    &&& action == Action::Continue
                    &&& (final(bus).devices(), final(page)@) == repeated::<D>(
                        old(bus).devices(),
                        old(bus).listeners(io.0),
                        io,
                        old(page)@,
                        port.data_offset as int,
                        port.count as nat,
                    )
                },
                _ => {
                    &&& action == Action::Fail(Error::CoreOperation)
                    &&& final(bus).devices() == old(bus).devices()
                    &&& final(page)@ == old(page)@
                },
            },
            Exit::Mmio(memory) => if memory_data_fits(memory, old(page)@.len()) {
                let io = memory_access(memory);
                let once = served::<D>(
                    old(bus).devices(),
                    old(bus).listeners(io.0),
                    io,
                    memory.data@.subrange(0, memory.len as int),
                );
                &&& action == Action::Continue
                &&& final(bus).devices() == once.0
                &&& final(page)@ == splice(old(page)@, RUN_MMIO_DATA_OFFSET as int, once.1)
            } else {
                &&& action == Action::Fail(Error::CoreOperation)
                &&& final(bus).devices() == old(bus).devices()
                &&& final(page)@ == old(page)@
            },
            _ => {
                &&& action == if ends(*exit) {
                    Action::Stop
                } else {
                    Action::Fail(Error::CoreOperation)
                }
                &&& final(bus).devices() == old(bus).devices()
                &&& final(page)@ == old(page)@
            },
        },
{
    match exit {
        Exit::Io(port) => service_port(bus, port, page),
        Exit::Mmio(memory) => service_memory(bus, memory, page),
        Exit::Shutdown => Action::Stop,
        Exit::SystemEvent(event) => {
            if event.kind == KVM_SYSTEM_EVENT_SHUTDOWN || event.kind == KVM_SYSTEM_EVENT_CRASH {
                Action::Stop
            } else {
                Action::Fail(Error::CoreOperation)
            }
        },
        _ => Action::Fail(Error::CoreOperation),
    }
}

} // verus!
