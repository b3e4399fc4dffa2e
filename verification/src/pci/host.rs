//! The PCI host bridge.
//!
//! The guest reaches configuration space through two 32-bit ports. It writes the
//! address of a register to the address port and then reads or writes the data
//! port. The bridge keeps the last value of the address port in a latch and
//! decodes it only when the data port is accessed.

use crate::bytes::{get_u32, le_u32, put_u32, u32_le};
use crate::device::Device;
use crate::io::{IoAction, IoAddress, IoDirection};
use crate::pci::{Address, Pci};
use vstd::prelude::*;

verus! {

/// The port that takes the address of a configuration cycle. Bit 31 of the value
/// enables the mechanism, bits 16 to 22 choose the bus, bits 11 to 14 the device
/// on that bus, bits 8 and 9 the function of the device and bits 0 to 5 the
/// register.
pub const CONFIG_ADDRESS_PORT: u64 = 0xcf8;

/// The port through which the register that the address port names is read and
/// written.
pub const CONFIG_DATA_PORT: u64 = 0xcfc;

/// The vendor that the host bridge reports: the virtio vendor.
pub const HOST_VENDOR_ID: u16 = 0x1af4;

/// The device number that the host bridge reports.
pub const HOST_DEVICE_ID: u16 = 0x0001;

/// What accesses to the data port find where no device answers: all bits set.
pub const NO_DEVICE: u32 = 0xffff_ffff;

/// The address of the address port.
pub open spec fn config_address() -> IoAddress {
    IoAddress::Port(CONFIG_ADDRESS_PORT)
}

/// The address of the data port.
pub open spec fn config_data() -> IoAddress {
    IoAddress::Port(CONFIG_DATA_PORT)
}

/// The configuration space of the host bridge itself, by register. It is fixed:
/// register 0 holds the device number above the vendor, register 8 the class of
/// a host bridge, register 12 the mark of a device without self test, register
/// 16 a fixed base address, and every other register zero.
pub open spec fn host_config(register: u8) -> u32 {
    if register == 0x00 {
        0x0001_1af4
    } else if register == 0x08 {
        0x0600_0000
    } else if register == 0x0c {
        0x0001_0000
    } else if register == 0x10 {
        0x0000_000c
    } else {
        0
    }
}

/// Whether `address` names the host bridge itself: function 0 of device 0 on bus
/// 0.
pub open spec fn is_host(address: Address) -> bool {
    address.0 == 0 && address.1 == 0 && address.2 == 0
}

/// Reads a register of the host bridge's own configuration space.
pub fn get_config(register: u8) -> (value: u32)
    ensures
        value == host_config(register),
        register == 0 ==> value & 0xffff == HOST_VENDOR_ID && value >> 16 == HOST_DEVICE_ID,
{
    assert(0x0001_1af4u32 & 0xffff == 0x1af4 && 0x0001_1af4u32 >> 16 == 1) by (bit_vector);
    if register == 0x00 {
        // The device number above the vendor.
        0x0001_1af4
    } else if register == 0x08 {
        // Class 6, a bridge; subclass 0, a host bridge.
        0x0600_0000
    } else if register == 0x0c {
        // No built-in self test.
        0x0001_0000
    } else if register == 0x10 {
        0x0000_000c
    } else {
        0
    }
}

/// The PCI host bridge: the address latch and the devices behind the bridge.
///
/// The devices stand on the bridge's own bus, each at the device number that is
/// its position in the list the bridge was made with.
pub struct Host<P: Pci> {
    bridge: u8,
    latch: u32,
    devices: Vec<P>,
}

/// What a host bridge is at any moment.
pub struct HostView<M> {
    /// The number of the bus behind the bridge.
    pub bridge: u8,
    /// The last value written to the address port.
    pub latch: u32,
    /// The devices behind the bridge, by device number.
    pub devices: Seq<M>,
}

impl<M> HostView<M> {
    /// The device number under which `address` finds a device behind the bridge,
    /// if it finds one: the address is on the bridge's bus, and a device stands
    /// at its device number.
    pub open spec fn slot(self, address: Address) -> Option<int> {
        if address.0 == self.bridge && address.1 < self.devices.len() {
            Some(address.1 as int)
        } else {
            None
        }
    }
}

impl<P: Pci> View for Host<P> {
    type V = HostView<P::V>;

    closed spec fn view(&self) -> HostView<P::V> {
        HostView {
            bridge: self.bridge,
            latch: self.latch,
            devices: Seq::new(self.devices@.len(), |i: int| self.devices@[i]@),
        }
    }
}

impl<P: Pci> Host<P> {
    /// A bridge for bus `bridge`, or for bus 0 where none is given, with `pcis`
    /// as the devices behind it. The latch starts at zero.
    pub fn new(bridge: Option<u8>, pcis: Vec<P>) -> (host: Host<P>)
        ensures
            host@.bridge == match bridge {
                Some(bus) => bus,
                None => 0u8,
            },
            host@.latch == 0,
            host@.devices == Seq::new(pcis@.len(), |i: int| pcis@[i]@),
    {
        let bus: u8 = match bridge {
            Some(bus) => bus,
            None => 0,
        };
        Host { bridge: bus, latch: 0, devices: pcis }
    }

    /// The number of the bus behind the bridge.
    pub fn bridge(&self) -> (bus: u8)
        ensures
            bus == self@.bridge,
    {
        self.bridge
    }

    /// The device that stands at `device` on bus `bus`, if there is one.
    pub fn lookup(&self, bus: u8, device: u8) -> (found: Option<&P>)
        ensures
            match self@.slot(Address(bus, device, 0, 0)) {
                Some(i) => found.is_some() && found.unwrap()@ == self@.devices[i],
                None => found.is_none(),
            },
    {
        if bus == self.bridge && (device as usize) < self.devices.len() {
            Some(&self.devices[device as usize])
        } else {
            None
        }
    }
}

/// What a read of `address` finds behind a bridge in state `model`. The bridge
/// answers for itself from its fixed configuration space and passes every other
/// read on to the device that the address finds. Where it finds none there is no
/// answer.
pub open spec fn host_read<P: Pci>(model: HostView<P::V>, address: Address) -> Option<u32> {
    if is_host(address) {
        Some(host_config(address.3))
    } else {
        match model.slot(address) {
            Some(i) => P::read(model.devices[i], address),
            None => None,
        }
    }
}

/// The state that a write of `value` to `address` leaves a bridge in that was in
/// state `model`. A write to the bridge itself changes nothing; every other write
/// goes to the device that the address finds, if any.
pub open spec fn host_written<P: Pci>(
    model: HostView<P::V>,
    address: Address,
    value: u32,
) -> HostView<P::V> {
    if is_host(address) {
        model
    } else {
        match model.slot(address) {
            Some(i) => HostView {
                bridge: model.bridge,
                latch: model.latch,
                devices: model.devices.update(i, P::written(model.devices[i], address, value)),
            },
            None => model,
        }
    }
}

/// Whether a write of `value` to `address` is handled behind a bridge in state
/// `model`. A write to the bridge itself is taken and dropped; every other write
/// is handled if the device that the address finds handles it.
pub open spec fn host_accepts<P: Pci>(model: HostView<P::V>, address: Address, value: u32) -> bool {
    if is_host(address) {
        true
    } else {
        match model.slot(address) {
            Some(i) => P::accepts(model.devices[i], address, value),
            None => false,
        }
    }
}

impl<P: Pci> Pci for Host<P> {
    open spec fn read(model: HostView<P::V>, address: Address) -> Option<u32> {
        host_read::<P>(model, address)
    }

    open spec fn written(model: HostView<P::V>, address: Address, value: u32) -> HostView<P::V> {
        host_written::<P>(model, address, value)
    }

    open spec fn accepts(model: HostView<P::V>, address: Address, value: u32) -> bool {
        host_accepts::<P>(model, address, value)
    }

    fn config_read(&self, address: Address) -> (value: Option<u32>) {
        assert(Self::read(self@, address) == host_read::<P>(self@, address));
        if address.0 == 0 && address.1 == 0 && address.2 == 0 {
            Some(get_config(address.3))
        } else {
            match self.lookup(address.0, address.1) {
                Some(device) => device.config_read(address),
                None => None,
            }
        }
    }

    fn config_write(&mut self, address: Address, value: u32) -> (handled: Option<()>) {
        assert(Self::written(self@, address, value) == host_written::<P>(self@, address, value));
        assert(Self::accepts(self@, address, value) == host_accepts::<P>(self@, address, value));
        if address.0 == 0 && address.1 == 0 && address.2 == 0 {
            Some(())
        } else if address.0 == self.bridge && (address.1 as usize) < self.devices.len() {
            let handled = self.devices[address.1 as usize].config_write(address, value);
            assert(self@.devices =~= old(self)@.devices.update(
                address.1 as int,
                P::written(old(self)@.devices[address.1 as int], address, value),
            ));
            handled
        } else {
            None
        }
    }
}

impl<P: Pci> Device for Host<P> {
    open spec fn requests(model: HostView<P::V>) -> Seq<IoAddress> {
        seq![config_address(), config_data()]
    }

    /// A 32-bit write to the address port sets the latch. A 32-bit write to the
    /// data port is a configuration write to what the latch selects, and nothing
    /// where the latch selects nothing. No other access changes the bridge.
    open spec fn next(model: HostView<P::V>, io: IoAction, memory: Seq<u8>) -> HostView<P::V> {
        if io == IoAction(config_address(), IoDirection::Out, 4) {
            HostView { bridge: model.bridge, latch: le_u32(memory), devices: model.devices }
        } else if io == IoAction(config_data(), IoDirection::Out, 4) {
            match Address::decoded(model.latch) {
                Some(address) => host_written::<P>(model, address, le_u32(memory)),
                None => model,
            }
        } else {
            model
        }
    }

    /// A 32-bit read of the data port fills the buffer with the answer of what
    /// the latch selects, and with all bits set where that gives no answer. With
    /// the mechanism switched off the buffer stays as it is, as it does for every
    /// other access.
    open spec fn output(model: HostView<P::V>, io: IoAction, memory: Seq<u8>) -> Seq<u8> {
        if io == IoAction(config_data(), IoDirection::In, 4) {
            match Address::decoded(model.latch) {
                Some(address) => u32_le(
                    match host_read::<P>(model, address) {
                        Some(value) => value,
                        None => NO_DEVICE,
                    },
                ),
                None => memory,
            }
        } else {
            memory
        }
    }

    open spec fn claims(model: HostView<P::V>, io: IoAction) -> bool {
        ||| io == IoAction(config_address(), IoDirection::Out, 4)
        ||| io == IoAction(config_data(), IoDirection::In, 4)
        ||| io == IoAction(config_data(), IoDirection::Out, 4)
    }

    fn request(&self) -> (addresses: Vec<IoAddress>) {
        let mut addresses: Vec<IoAddress> = Vec::new();
        addresses.push(IoAddress::Port(CONFIG_ADDRESS_PORT));
        addresses.push(IoAddress::Port(CONFIG_DATA_PORT));
        assert(addresses@ =~= Self::requests(self@));
        addresses
    }

    fn handle(&mut self, io: IoAction, memory: &mut [u8]) -> (handled: Option<()>) {
        let address_port = IoAddress::Port(CONFIG_ADDRESS_PORT);
        let data_port = IoAddress::Port(CONFIG_DATA_PORT);
        if io == address_port.outl() {
            assert(memory@.subrange(0, 4) =~= memory@);
            self.latch = get_u32(memory, 0);
            Some(())
        } else if io == data_port.inl() {
            match Address::from(self.latch) {
                Some(address) => {
                    let value: u32 = match self.config_read(address) {
                        Some(value) => value,
                        None => NO_DEVICE,
                    };
                    put_u32(memory, 0, value);
                    assert(memory@ =~= u32_le(value));
                },
                None => {},
            }
            Some(())
        } else if io == data_port.outl() {
            match Address::from(self.latch) {
                Some(address) => {
                    assert(memory@.subrange(0, 4) =~= memory@);
                    let value: u32 = get_u32(memory, 0);
                    let _ = self.config_write(address, value);
                },
                None => {},
            }
            Some(())
        } else {
            None
        }
    }
}

/// Function 0 of device 0 on bus 0 is the host bridge, whatever was written
/// before: with the latch on its register 0, a read of the data port gives the
/// bridge's vendor in the low half of the value and its device number in the
/// high half, before and after any write to the data port.
pub proof fn lemma_host_identity<P: Pci>(model: HostView<P::V>, written: Seq<u8>, buffer: Seq<u8>)
    requires
        Address::decoded(model.latch) == Some(Address(0, 0, 0, 0)),
    ensures
        ({
            let read = IoAction(config_data(), IoDirection::In, 4);
            let write = IoAction(config_data(), IoDirection::Out, 4);
            let after = Host::<P>::next(model, write, written);
            &&& after == model
            &&& Host::<P>::output(model, read, buffer) == Host::<P>::output(after, read, buffer)
            &&& Host::<P>::output(after, read, buffer) == u32_le(0x0001_1af4)
            &&& le_u32(Host::<P>::output(after, read, buffer)) & 0xffff == HOST_VENDOR_ID
            &&& le_u32(Host::<P>::output(after, read, buffer)) >> 16 == HOST_DEVICE_ID
        }),
{
    crate::bytes::lemma_le_round_trip_u32(0x0001_1af4);
    assert(0x0001_1af4u32 & 0xffff == 0x1af4 && 0x0001_1af4u32 >> 16 == 1) by (bit_vector);
}

/// Where no device stands, the guest reads all bits set: after `value` is written
/// to the address port, and `value` selects an address that is not the host
/// bridge's and finds no device behind the bridge, a read of the data port fills
/// the buffer with four bytes 0xFF.
pub proof fn lemma_no_device<P: Pci>(
    model: HostView<P::V>,
    value: u32,
    address: Address,
    buffer: Seq<u8>,
)
    requires
        Address::decoded(value) == Some(address),
        !is_host(address),
        model.slot(address) is None,
    ensures
        ({
            let select = IoAction(config_address(), IoDirection::Out, 4);
            let read = IoAction(config_data(), IoDirection::In, 4);
            let selected = Host::<P>::next(model, select, u32_le(value));
            Host::<P>::output(selected, read, buffer) == seq![0xffu8, 0xffu8, 0xffu8, 0xffu8]
        }),
{
    crate::bytes::lemma_le_round_trip_u32(value);
    assert(u32_le(NO_DEVICE) =~= seq![0xffu8, 0xffu8, 0xffu8, 0xffu8]);
}

} // verus!
