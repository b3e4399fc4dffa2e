//! The devices that this library brings along, as one type.

use crate::bus::Bus;
use crate::device::cmos::{Cmos, CmosView, Time};
use crate::device::e9::{E9View, E9};
use crate::device::sconsole::{SerialConsole, SerialConsoleView};
use crate::device::Device;
use crate::io::{IoAction, IoAddress};
use crate::pci::host::{Host, HostView};
use crate::pci::Pci;
use vstd::prelude::*;

verus! {

/// Any one of the devices of this library. A bus of peripherals can hold them all
/// side by side. `P` is the kind of device that stands behind the PCI host
/// bridge.
pub enum Peripheral<P: Pci> {
    E9(E9),
    Cmos(Cmos),
    SerialConsole(SerialConsole),
    Host(Host<P>),
}

/// What a peripheral is at any moment: what the device inside it is.
pub enum PeripheralView<M> {
    E9(E9View),
    Cmos(CmosView),
    SerialConsole(SerialConsoleView),
    Host(HostView<M>),
}

impl<P: Pci> View for Peripheral<P> {
    type V = PeripheralView<P::V>;

    open spec fn view(&self) -> PeripheralView<P::V> {
        match self {
            Peripheral::E9(device) => PeripheralView::E9(device@),
            Peripheral::Cmos(device) => PeripheralView::Cmos(device@),
            Peripheral::SerialConsole(device) => PeripheralView::SerialConsole(device@),
            Peripheral::Host(device) => PeripheralView::Host(device@),
        }
    }
}

/// A peripheral does in every respect what the device inside it does.
impl<P: Pci> Device for Peripheral<P> {
    open spec fn requests(model: PeripheralView<P::V>) -> Seq<IoAddress> {
        match model {
            PeripheralView::E9(inner) => E9::requests(inner),
            PeripheralView::Cmos(inner) => Cmos::requests(inner),
            PeripheralView::SerialConsole(inner) => SerialConsole::requests(inner),
            PeripheralView::Host(inner) => Host::<P>::requests(inner),
        }
    }

    open spec fn next(
        model: PeripheralView<P::V>,
        io: IoAction,
        memory: Seq<u8>,
    ) -> PeripheralView<P::V> {
        match model {
            PeripheralView::E9(inner) => PeripheralView::E9(E9::next(inner, io, memory)),
            PeripheralView::Cmos(inner) => PeripheralView::Cmos(Cmos::next(inner, io, memory)),
            PeripheralView::SerialConsole(inner) => PeripheralView::SerialConsole(
                SerialConsole::next(inner, io, memory),
            ),
            PeripheralView::Host(inner) => PeripheralView::Host(
                Host::<P>::next(inner, io, memory),
            ),
        }
    }

    open spec fn output(model: PeripheralView<P::V>, io: IoAction, memory: Seq<u8>) -> Seq<u8> {
        match model {
            PeripheralView::E9(inner) => E9::output(inner, io, memory),
            PeripheralView::Cmos(inner) => Cmos::output(inner, io, memory),
            PeripheralView::SerialConsole(inner) => SerialConsole::output(inner, io, memory),
            PeripheralView::Host(inner) => Host::<P>::output(inner, io, memory),
        }
    }

    open spec fn claims(model: PeripheralView<P::V>, io: IoAction) -> bool {
        match model {
            PeripheralView::E9(inner) => E9::claims(inner, io),
            PeripheralView::Cmos(inner) => Cmos::claims(inner, io),
            PeripheralView::SerialConsole(inner) => SerialConsole::claims(inner, io),
            PeripheralView::Host(inner) => Host::<P>::claims(inner, io),
        }
    }

    fn request(&self) -> (addresses: Vec<IoAddress>) {
        match self {
            Peripheral::E9(device) => device.request(),
            Peripheral::Cmos(device) => device.request(),
            Peripheral::SerialConsole(device) => device.request(),
            Peripheral::Host(device) => device.request(),
        }
    }

    fn handle(&mut self, io: IoAction, memory: &mut [u8]) -> (handled: Option<()>) {
        match self {
            Peripheral::E9(device) => device.handle(io, memory),
            Peripheral::Cmos(device) => device.handle(io, memory),
            Peripheral::SerialConsole(device) => device.handle(io, memory),
            Peripheral::Host(device) => device.handle(io, memory),
        }
    }
}

/// The debug devices of a machine: a debug port on its usual port, a second one
/// on port 0x80, and a serial console on the ports of the first serial line.
pub fn default<P: Pci>() -> (devices: Vec<Peripheral<P>>)
    ensures
        devices@.len() == 3,
        devices@[0] is E9 && devices@[0]->E9_0@ == (E9View { port: None, output: Seq::empty() }),
        devices@[1] is E9 && devices@[1]->E9_0@ == (E9View {
            port: Some(0x80),
            output: Seq::empty(),
        }),
        devices@[2] is SerialConsole && devices@[2]->SerialConsole_0@ == SerialConsole::new_view(
            0x3f8,
        ),
{
    let mut devices: Vec<Peripheral<P>> = Vec::new();
    devices.push(Peripheral::E9(E9::new(None)));
    devices.push(Peripheral::E9(E9::new(Some(0x80))));
    devices.push(Peripheral::SerialConsole(SerialConsole::new(0x3f8)));
    devices
}

/// The devices of a machine, in the order of their registration: the debug
/// devices, the CMOS, and the PCI host bridge of bus 0 with `pcis` behind it.
pub fn prepare<P: Pci>(pcis: Vec<P>) -> (devices: Vec<Peripheral<P>>)
    ensures
        devices@.len() == 5,
        devices@[0] is E9 && devices@[0]->E9_0@ == (E9View { port: None, output: Seq::empty() }),
        devices@[1] is E9 && devices@[1]->E9_0@ == (E9View {
            port: Some(0x80),
            output: Seq::empty(),
        }),
        devices@[2] is SerialConsole && devices@[2]->SerialConsole_0@ == SerialConsole::new_view(
            0x3f8,
        ),
        devices@[3] is Cmos && devices@[3]->Cmos_0@ == Cmos::new_view(),
        devices@[4] is Host && devices@[4]->Host_0@ == (HostView {
            bridge: 0,
            latch: 0,
            devices: Seq::new(pcis@.len(), |i: int| pcis@[i]@),
        }),
{
    let mut devices: Vec<Peripheral<P>> = default();
    devices.push(Peripheral::Cmos(Cmos::new()));
    devices.push(Peripheral::Host(Host::new(None, pcis)));
    devices
}

impl<M> PeripheralView<M> {
    /// The peripheral with its clock set to `time`, if it has a clock.
    pub open spec fn at_time(self, time: Time) -> PeripheralView<M> {
        match self {
            PeripheralView::Cmos(inner) => PeripheralView::Cmos(
                CmosView { index: inner.index, ram: inner.ram, time },
            ),
            _ => self,
        }
    }

    /// What the guest has printed through the peripheral and nobody has taken
    /// yet.
    pub open spec fn printed(self) -> Seq<u8> {
        match self {
            PeripheralView::E9(inner) => inner.output,
            PeripheralView::SerialConsole(inner) => inner.output,
            _ => Seq::empty(),
        }
    }

    /// The peripheral after what the guest has printed through it was taken.
    pub open spec fn taken(self) -> PeripheralView<M> {
        match self {
            PeripheralView::E9(inner) => PeripheralView::E9(
                E9View { port: inner.port, output: Seq::empty() },
            ),
            PeripheralView::SerialConsole(inner) => PeripheralView::SerialConsole(
                SerialConsoleView { base: inner.base, serial: inner.serial, output: Seq::empty() },
            ),
            _ => self,
        }
    }
}

/// What the guest has printed through the first `count` of `devices`, in the
/// order of the devices.
pub open spec fn printed_by<M>(devices: Seq<PeripheralView<M>>, count: nat) -> Seq<u8>
    decreases count,
{
    if count == 0 {
        Seq::empty()
    } else {
        printed_by(devices, (count - 1) as nat) + devices[count - 1].printed()
    }
}

/// Sets every clock on the bus to `time`. Nothing else changes.
pub fn wind<P: Pci>(bus: &mut Bus<Peripheral<P>>, time: Time)
    ensures
        final(bus).devices() == Seq::new(
            old(bus).devices().len(),
            |i: int| old(bus).devices()[i].at_time(time),
        ),
        forall|address: IoAddress| #[trigger]
            final(bus).listeners(address) == old(bus).listeners(address),
{
    let n: usize = bus.len();
    let mut i: usize = 0;
    while i < n
        invariant
            n == old(bus).devices().len(),
            bus.devices().len() == n,
            i <= n,
            forall|k: int| 0 <= k < i ==> bus.devices()[k] == old(bus).devices()[k].at_time(time),
            forall|k: int| i <= k < n ==> bus.devices()[k] == old(bus).devices()[k],
            forall|address: IoAddress| #[trigger]
                bus.listeners(address) == old(bus).listeners(address),
        decreases n - i,
    {
        match bus.device_mut(i) {
            Peripheral::Cmos(cmos) => {
                cmos.set_time(time);
            },
            _ => {},
        }
        i += 1;
    }
    assert(bus.devices() =~= Seq::new(
        old(bus).devices().len(),
        |i: int| old(bus).devices()[i].at_time(time),
    ));
}

/// Takes from every device on the bus what the guest has printed through it, and
/// hands it all out in the order of the devices. Nothing else changes.
pub fn drain<P: Pci>(bus: &mut Bus<Peripheral<P>>) -> (printed: Vec<u8>)
    ensures
        printed@ == printed_by(old(bus).devices(), old(bus).devices().len()),
        final(bus).devices() == Seq::new(
            old(bus).devices().len(),
            |i: int| old(bus).devices()[i].taken(),
        ),
        forall|address: IoAddress| #[trigger]
            final(bus).listeners(address) == old(bus).listeners(address),
{
    let mut printed: Vec<u8> = Vec::new();
    let n: usize = bus.len();
    let mut i: usize = 0;
    while i < n
        invariant
            n == old(bus).devices().len(),
            bus.devices().len() == n,
            i <= n,
            printed@ == printed_by(old(bus).devices(), i as nat),
            forall|k: int| 0 <= k < i ==> bus.devices()[k] == old(bus).devices()[k].taken(),
            forall|k: int| i <= k < n ==> bus.devices()[k] == old(bus).devices()[k],
            forall|address: IoAddress| #[trigger]
                bus.listeners(address) == old(bus).listeners(address),
        decreases n - i,
    {
        match bus.device_mut(i) {
            Peripheral::E9(e9) => {
                let mut output = e9.take_output();
                printed.append(&mut output);
            },
            Peripheral::SerialConsole(console) => {
                let mut output = console.take_output();
                printed.append(&mut output);
            },
            _ => {
                assert(printed@ + Seq::<u8>::empty() =~= printed@);
            },
        }
        i += 1;
    }
    assert(bus.devices() =~= Seq::new(
        old(bus).devices().len(),
        |i: int| old(bus).devices()[i].taken(),
    ));
    printed
}

} // verus!
