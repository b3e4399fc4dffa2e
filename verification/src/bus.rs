//! The I/O dispatch bus.
//!
//! The bus is built once from the devices of a machine. It asks every device
//! which addresses it wants to hear of and keeps, for each address, the devices
//! that asked for it in the order in which they were registered. An access is
//! then handed to those devices one after another.

use crate::device::Device;
use crate::io::{IoAction, IoAddress, IoDirection};
use crate::pci::host::CONFIG_DATA_PORT;
use std::collections::HashMap;
use vstd::prelude::*;

verus! {

/// `who`, once for every time that `address` stands in `requests`.
pub open spec fn mentions(requests: Seq<IoAddress>, address: IoAddress, who: usize) -> Seq<usize>
    decreases requests.len(),
{
    if requests.len() == 0 {
        Seq::empty()
    } else if requests.last() == address {
        mentions(requests.drop_last(), address, who).push(who)
    } else {
        mentions(requests.drop_last(), address, who)
    }
}

/// The devices that listen on `address`, as numbers in the list of devices whose
/// requests are `requests`: first come first, and a device that asked twice
/// stands twice.
pub open spec fn listeners(requests: Seq<Seq<IoAddress>>, address: IoAddress) -> Seq<usize>
    decreases requests.len(),
{
    if requests.len() == 0 {
        Seq::empty()
    } else {
        listeners(requests.drop_last(), address) + mentions(
            requests.last(),
            address,
            (requests.len() - 1) as usize,
        )
    }
}

/// The devices and the data buffer after the access `io` was handed, with
/// `memory` as its data, to the devices that `order` numbers, one after another.
/// Every device finds the buffer as the one before it left it.
pub open spec fn dispatched<D: Device>(
    devices: Seq<D::V>,
    order: Seq<usize>,
    io: IoAction,
    memory: Seq<u8>,
) -> (Seq<D::V>, Seq<u8>)
    decreases order.len(),
{
    if order.len() == 0 {
        (devices, memory)
    } else {
        let who = order[0] as int;
        dispatched::<D>(
            devices.update(who, D::next(devices[who], io, memory)),
            order.skip(1),
            io,
            D::output(devices[who], io, memory),
        )
    }
}

/// What an access that nobody listens for leaves in the data buffer: a read of
/// the PCI configuration data port finds all bits set, the sign that no device
/// is there; everything else leaves the buffer as it is.
pub open spec fn unclaimed(io: IoAction, memory: Seq<u8>) -> Seq<u8> {
    if io.0 == IoAddress::Port(CONFIG_DATA_PORT) && io.1 == IoDirection::In {
        Seq::new(memory.len(), |i: int| 0xffu8)
    } else {
        memory
    }
}

/// The devices and the data buffer after the bus has served the access `io`.
pub open spec fn served<D: Device>(
    devices: Seq<D::V>,
    order: Seq<usize>,
    io: IoAction,
    memory: Seq<u8>,
) -> (Seq<D::V>, Seq<u8>) {
    if order.len() == 0 {
        (devices, unclaimed(io, memory))
    } else {
        dispatched::<D>(devices, order, io, memory)
    }
}

/// What a table holds under `key`: nothing where the key is missing.
pub open spec fn entry(table: Map<u64, Vec<usize>>, key: u64) -> Seq<usize> {
    if table.contains_key(key) {
        table[key]@
    } else {
        Seq::empty()
    }
}

/// Whether every number that `table` holds is less than `count`.
pub open spec fn below(table: Map<u64, Vec<usize>>, count: nat) -> bool {
    forall|key: u64, k: int|
        table.contains_key(key) && 0 <= k < table[key]@.len() ==> (#[trigger] table[key]@[k])
            < count
}

/// The I/O dispatch bus: the devices of a machine and, for each address, the
/// devices that listen on it.
pub struct Bus<D: Device> {
    devices: Vec<D>,
    ports: HashMap<u64, Vec<usize>>,
    memory: HashMap<u64, Vec<usize>>,
}

impl<D: Device> Bus<D> {
    /// Every listener is a device of the bus.
    #[verifier::type_invariant]
    spec fn wf(self) -> bool {
        &&& below(self.ports@, self.devices@.len())
        &&& below(self.memory@, self.devices@.len())
    }

    /// The devices on the bus, each as what it is at this moment, in the order
    /// in which they were registered.
    pub closed spec fn devices(&self) -> Seq<D::V> {
        Seq::new(self.devices@.len(), |i: int| self.devices@[i]@)
    }

    /// The devices that listen on `address`, by their place in `devices`, in the
    /// order in which the access is handed to them.
    pub closed spec fn listeners(&self, address: IoAddress) -> Seq<usize> {
        match address {
            IoAddress::Port(port) => entry(self.ports@, port),
            IoAddress::Memory(place) => entry(self.memory@, place),
        }
    }

    /// Builds the bus from the devices of a machine.
    ///
    /// Every device is asked once for the addresses it wants. The devices keep
    /// their order, and on every address the listeners are those that the
    /// devices' requests give.
    pub fn new(devices: Vec<D>) -> (bus: Bus<D>)
        ensures
            bus.devices() == Seq::new(devices@.len(), |i: int| devices@[i]@),
            forall|address: IoAddress| #[trigger]
                bus.listeners(address) == listeners(
                    Seq::new(devices@.len(), |i: int| D::requests(devices@[i]@)),
                    address,
                ),
    {
        let ghost asked = Seq::new(devices@.len(), |i: int| D::requests(devices@[i]@));
        let mut ports: HashMap<u64, Vec<usize>> = HashMap::new();
        let mut memory: HashMap<u64, Vec<usize>> = HashMap::new();
        let n: usize = devices.len();
        let mut i: usize = 0;
        while i < n
            invariant
                n == devices@.len(),
                i <= n,
                asked == Seq::new(devices@.len(), |i: int| D::requests(devices@[i]@)),
                forall|key: u64| #[trigger]
                    entry(ports@, key) == listeners(asked.take(i as int), IoAddress::Port(key)),
                forall|key: u64| #[trigger]
                    entry(memory@, key) == listeners(asked.take(i as int), IoAddress::Memory(key)),
                below(ports@, n as nat),
                below(memory@, n as nat),
            decreases n - i,
        {
            let requests = devices[i].request();
            let m: usize = requests.len();
            let mut j: usize = 0;
            while j < m
                invariant
                    n == devices@.len(),
                    i < n,
                    m == requests@.len(),
                    j <= m,
                    forall|key: u64| #[trigger]
                        entry(ports@, key) == listeners(asked.take(i as int), IoAddress::Port(key))
                            + mentions(requests@.take(j as int), IoAddress::Port(key), i),
                    forall|key: u64| #[trigger]
                        entry(memory@, key) == listeners(
                            asked.take(i as int),
                            IoAddress::Memory(key),
                        ) + mentions(requests@.take(j as int), IoAddress::Memory(key), i),
                    below(ports@, n as nat),
                    below(memory@, n as nat),
                decreases m - j,
            {
                proof {
                    assert(requests@.take(j + 1).drop_last() =~= requests@.take(j as int));
                    assert(requests@.take(j + 1).last() == requests@[j as int]);
                }
                match requests[j] {
                    IoAddress::Port(port) => record(&mut ports, port, i, Ghost(n as nat)),
                    IoAddress::Memory(place) => record(&mut memory, place, i, Ghost(n as nat)),
                }
                j += 1;
            }
            proof {
                assert(requests@.take(m as int) =~= requests@);
                assert(asked.take(i + 1).drop_last() =~= asked.take(i as int));
                assert(asked.take(i + 1).last() == requests@);
            }
            i += 1;
        }
        proof {
            assert(asked.take(n as int) =~= asked);
        }
        let bus = Bus { devices, ports, memory };
        assert forall|address: IoAddress| #[trigger]
            bus.listeners(address) == listeners(asked, address) by {
            match address {
                IoAddress::Port(key) => {
                    assert(entry(bus.ports@, key) == listeners(asked, IoAddress::Port(key)));
                },
                IoAddress::Memory(key) => {
                    assert(entry(bus.memory@, key) == listeners(asked, IoAddress::Memory(key)));
                },
            }
        }
        bus
    }

    /// How many devices are on the bus.
    pub fn len(&self) -> (count: usize)
        ensures
            count == self.devices().len(),
    {
        self.devices.len()
    }

    /// The device at place `index`, to look at.
    pub fn device(&self, index: usize) -> (device: Option<&D>)
        ensures
            match device {
                Some(found) => index < self.devices().len() && found@ == self.devices()[
                    index as int
                ],
                None => index >= self.devices().len(),
            },
    {
        if index < self.devices.len() {
            Some(&self.devices[index])
        } else {
            None
        }
    }

    /// The device at place `index`, to work on. The bus is afterwards what it was
    /// before, but for what was done to this device.
    pub fn device_mut(&mut self, index: usize) -> (device: &mut D)
        requires
            index < old(self).devices().len(),
        ensures
            device@ == old(self).devices()[index as int],
            final(self).devices() == old(self).devices().update(index as int, final(device)@),
            forall|other: IoAddress| #[trigger]
                final(self).listeners(other) == old(self).listeners(other),
    {
        proof {
            use_type_invariant(&*self);
        }
        &mut self.devices[index]
    }

    /// Hands one access to the devices that listen on its address, one after
    /// another in the order of their registration and all with the same buffer:
    /// a device finds in it what the device before it left, and what the last one
    /// leaves is the result.
    ///
    /// An access that no device listens for is no error. It changes nothing,
    /// except that a read of the PCI configuration data port then finds all
    /// bits set. The listeners themselves never change.
    pub fn handle(
        &mut self,
        address: IoAddress,
        direction: IoDirection,
        size: usize,
        buffer: &mut [u8],
    )
        requires
            old(buffer)@.len() == size,
        ensures
            (final(self).devices(), final(buffer)@) == served::<D>(
                old(self).devices(),
                old(self).listeners(address),
                IoAction(address, direction, size),
                old(buffer)@,
            ),
            final(buffer)@.len() == size,
            forall|other: IoAddress| #[trigger]
                final(self).listeners(other) == old(self).listeners(other),
    {
        proof {
            use_type_invariant(&*self);
        }
        let io = IoAction(address, direction, size);
        let found: Option<&Vec<usize>> = match address {
            IoAddress::Port(port) => self.ports.get(&port),
            IoAddress::Memory(place) => self.memory.get(&place),
        };
        match found {
            Some(order) => {
                let n: usize = order.len();
                if n == 0 {
                    fill_unclaimed(io, buffer);
                } else {
                    assert(order@.skip(0) =~= order@);
                    let mut k: usize = 0;
                    while k < n
                        invariant
                            n == order@.len(),
                            k <= n,
                            buffer@.len() == size,
                            io == IoAction(address, direction, size),
                            self.ports == old(self).ports,
                            self.memory == old(self).memory,
                            self.devices@.len() == old(self).devices@.len(),
                            below(self.ports@, self.devices@.len()),
                            below(self.memory@, self.devices@.len()),
                            forall|q: int| 0 <= q < n ==> order@[q] < self.devices@.len(),
                            dispatched::<D>(self.devices(), order@.skip(k as int), io, buffer@)
                                == dispatched::<D>(
                                old(self).devices(),
                                order@,
                                io,
                                old(buffer)@,
                            ),
                        decreases n - k,
                    {
                        let who: usize = order[k];
                        let ghost before = self.devices();
                        let ghost data = buffer@;
                        let _ = self.devices[who].handle(io, buffer);
                        proof {
                            assert(order@.skip(k as int)[0] == who);
                            assert(order@.skip(k as int).skip(1) =~= order@.skip(k + 1));
                            assert(self.devices() =~= before.update(
                                who as int,
                                D::next(before[who as int], io, data),
                            ));
                        }
                        k += 1;
                    }
                    assert(order@.skip(n as int).len() == 0);
                }
            },
            None => {
                fill_unclaimed(io, buffer);
            },
        }
    }
}

/// Adds `who` to what `table` holds under `key`.
fn record(table: &mut HashMap<u64, Vec<usize>>, key: u64, who: usize, Ghost(count): Ghost<nat>)
    requires
        below(old(table)@, count),
        who < count,
    ensures
        below(final(table)@, count),
        entry(final(table)@, key) == entry(old(table)@, key).push(who),
        forall|other: u64| other != key ==> #[trigger] entry(final(table)@, other) == entry(
            old(table)@,
            other,
        ),
{
    let mut list: Vec<usize> = match table.remove(&key) {
        Some(list) => list,
        None => Vec::new(),
    };
    assert(list@ == entry(old(table)@, key));
    list.push(who);
    table.insert(key, list);
}

/// Leaves in `buffer` what an access that nobody listens for finds there.
fn fill_unclaimed(io: IoAction, buffer: &mut [u8])
    ensures
        final(buffer)@ == unclaimed(io, old(buffer)@),
{
    if io.0 == IoAddress::Port(CONFIG_DATA_PORT) && io.1 == IoDirection::In {
        let n: usize = buffer.len();
        let mut i: usize = 0;
        while i < n
            invariant
                n == buffer@.len(),
                i <= n,
                forall|k: int| 0 <= k < i ==> buffer@[k] == 0xffu8,
            decreases n - i,
        {
            buffer[i] = 0xff;
            i += 1;
        }
        assert(buffer@ =~= Seq::new(n as nat, |i: int| 0xffu8));
    }
}

/// A device that did not ask for an address is not mentioned for it.
pub proof fn lemma_mentions_none(requests: Seq<IoAddress>, address: IoAddress, who: usize)
    requires
        !requests.contains(address),
    ensures
        mentions(requests, address, who) == Seq::<usize>::empty(),
    decreases requests.len(),
{
    if requests.len() > 0 {
        assert(requests.last() == requests[requests.len() - 1]);
        assert forall|a: IoAddress| requests.drop_last().contains(a) implies requests.contains(
            a,
        ) by {
            let k = choose|k: int| 0 <= k < requests.drop_last().len() && requests.drop_last()[k] == a;
            assert(requests[k] == a);
        }
        lemma_mentions_none(requests.drop_last(), address, who);
    }
}

/// A device that asked for an address once, at place `at` of its requests, is
/// mentioned for it once.
pub proof fn lemma_mentions_once(
    requests: Seq<IoAddress>,
    address: IoAddress,
    who: usize,
    at: int,
)
    requires
        0 <= at < requests.len(),
        requests[at] == address,
        forall|k: int| 0 <= k < requests.len() && k != at ==> requests[k] != address,
    ensures
        mentions(requests, address, who) == seq![who],
    decreases requests.len(),
{
    let rest = requests.drop_last();
    if at == requests.len() - 1 {
        assert(!rest.contains(address)) by {
            if rest.contains(address) {
                let k = choose|k: int| 0 <= k < rest.len() && rest[k] == address;
                assert(requests[k] == address);
            }
        }
        lemma_mentions_none(rest, address, who);
        assert(mentions(requests, address, who) =~= seq![who]);
    } else {
        lemma_mentions_once(rest, address, who, at);
    }
}

/// An address that no device asked for has no listeners.
pub proof fn lemma_listeners_none(requests: Seq<Seq<IoAddress>>, address: IoAddress)
    requires
        forall|k: int| 0 <= k < requests.len() ==> !(#[trigger] requests[k]).contains(address),
    ensures
        listeners(requests, address) == Seq::<usize>::empty(),
    decreases requests.len(),
{
    if requests.len() > 0 {
        lemma_mentions_none(requests.last(), address, (requests.len() - 1) as usize);
        assert forall|k: int| 0 <= k < requests.drop_last().len() implies !(
        #[trigger] requests.drop_last()[k]).contains(address) by {
            assert(requests.drop_last()[k] == requests[k]);
        }
        lemma_listeners_none(requests.drop_last(), address);
    }
}

/// An address that one device asked for, once, and no other device at all, has
/// that device as its only listener.
pub proof fn lemma_listeners_one(
    requests: Seq<Seq<IoAddress>>,
    address: IoAddress,
    who: usize,
    at: int,
)
    requires
        who < requests.len(),
        0 <= at < requests[who as int].len(),
        requests[who as int][at] == address,
        forall|k: int|
            0 <= k < requests[who as int].len() && k != at ==> requests[who as int][k] != address,
        forall|d: int|
            0 <= d < requests.len() && d != who ==> !(#[trigger] requests[d]).contains(address),
    ensures
        listeners(requests, address) == seq![who],
    decreases requests.len(),
{
    let rest = requests.drop_last();
    let last = (requests.len() - 1) as usize;
    if who == requests.len() - 1 {
        lemma_mentions_once(requests.last(), address, who, at);
        assert forall|k: int| 0 <= k < rest.len() implies !(#[trigger] rest[k]).contains(
            address,
        ) by {
            assert(rest[k] == requests[k]);
        }
        lemma_listeners_none(rest, address);
        assert(listeners(requests, address) =~= seq![who]);
    } else {
        lemma_mentions_none(requests.last(), address, last);
        assert(rest[who as int] == requests[who as int]);
        assert forall|d: int| 0 <= d < rest.len() && d != who implies !(#[trigger] rest[d]).contains(
            address,
        ) by {
            assert(rest[d] == requests[d]);
        }
        lemma_listeners_one(rest, address, who, at);
        assert(listeners(requests, address) =~= seq![who]);
    }
}

/// An access to an address that exactly one device asked for reaches that device
/// and no other: the device handles it, the buffer is what the device leaves,
/// and every other device stays as it was.
pub proof fn lemma_served_by_one<D: Device>(
    devices: Seq<D::V>,
    requests: Seq<Seq<IoAddress>>,
    io: IoAction,
    memory: Seq<u8>,
    who: usize,
    at: int,
)
    requires
        devices.len() == requests.len(),
        who < requests.len(),
        0 <= at < requests[who as int].len(),
        requests[who as int][at] == io.0,
        forall|k: int|
            0 <= k < requests[who as int].len() && k != at ==> requests[who as int][k] != io.0,
        forall|d: int|
            0 <= d < requests.len() && d != who ==> !(#[trigger] requests[d]).contains(io.0),
    ensures
        served::<D>(devices, listeners(requests, io.0), io, memory) == (
            devices.update(who as int, D::next(devices[who as int], io, memory)),
            D::output(devices[who as int], io, memory),
        ),
{
    lemma_listeners_one(requests, io.0, who, at);
    let order = seq![who];
    assert(order.skip(1).len() == 0);
    reveal_with_fuel(dispatched, 2);
}

/// An access to an address that no device asked for reaches no device. The
/// devices stay as they were; the buffer holds all bits set after a read of the
/// PCI configuration data port and is untouched otherwise.
pub proof fn lemma_served_by_none<D: Device>(
    devices: Seq<D::V>,
    requests: Seq<Seq<IoAddress>>,
    io: IoAction,
    memory: Seq<u8>,
)
    requires
        forall|k: int| 0 <= k < requests.len() ==> !(#[trigger] requests[k]).contains(io.0),
    ensures
        served::<D>(devices, listeners(requests, io.0), io, memory) == (
            devices,
            if io.0 == IoAddress::Port(CONFIG_DATA_PORT) && io.1 == IoDirection::In {
                Seq::new(memory.len(), |i: int| 0xffu8)
            } else {
                memory
            },
        ),
{
    lemma_listeners_none(requests, io.0);
}

} // verus!
