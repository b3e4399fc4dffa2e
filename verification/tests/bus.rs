use vmm_core::bus::Bus;
use vmm_core::device::cmos::Time;
use vmm_core::device::e9::E9;
use vmm_core::device::peripheral::{drain, wind};
use vmm_core::device::{prepare, Device, Peripheral};
use vmm_core::io::{IoAddress, IoDirection};
use vmm_core::pci::{Host, Invalid};

fn outputs(bus: &mut Bus<E9>) -> Vec<Vec<u8>> {
    let mut all = vec![];
    for index in 0..bus.len() {
        all.push(bus.device_mut(index).take_output());
    }
    all
}

#[test]
fn access_reaches_exactly_the_device_that_asked() {
    let mut bus = Bus::new(vec![E9::new(Some(0x10)), E9::new(Some(0x20)), E9::new(None)]);
    let mut buffer = [b'a', b'b'];
    bus.handle(IoAddress::Port(0x20), IoDirection::Out, 2, &mut buffer);
    assert_eq!(buffer, [b'a', b'b']);
    assert_eq!(outputs(&mut bus), vec![vec![], vec![b'a', b'b'], vec![]]);
    let mut byte = [b'z'];
    bus.handle(IoAddress::Port(0xe9), IoDirection::Out, 1, &mut byte);
    assert_eq!(outputs(&mut bus), vec![vec![], vec![], vec![b'z']]);
}

#[test]
fn every_listener_is_handed_the_access_in_order() {
    let mut bus = Bus::new(vec![E9::new(Some(0x10)), E9::new(Some(0x20)), E9::new(Some(0x10))]);
    let mut buffer = [1u8, 2, 3];
    bus.handle(IoAddress::Port(0x10), IoDirection::Out, 3, &mut buffer);
    assert_eq!(outputs(&mut bus), vec![vec![1, 2, 3], vec![], vec![1, 2, 3]]);
    let mut answer = [0u8; 2];
    bus.handle(IoAddress::Port(0x10), IoDirection::In, 2, &mut answer);
    assert_eq!(answer, [0xff, 0xff]);
    assert_eq!(outputs(&mut bus), vec![vec![], vec![], vec![]]);
}

#[test]
fn unrequested_address_is_left_alone() {
    let mut bus = Bus::new(vec![E9::new(Some(0x10))]);
    let mut buffer = [7u8, 8];
    bus.handle(IoAddress::Port(0x11), IoDirection::Out, 2, &mut buffer);
    bus.handle(IoAddress::Port(0x11), IoDirection::In, 2, &mut buffer);
    bus.handle(IoAddress::Memory(0x10), IoDirection::In, 2, &mut buffer);
    bus.handle(IoAddress::Memory(0x10), IoDirection::Out, 2, &mut buffer);
    assert_eq!(buffer, [7, 8]);
    assert_eq!(outputs(&mut bus), vec![vec![]]);
}

#[test]
fn unrequested_configuration_data_reads_all_ones() {
    let mut bus = Bus::new(vec![E9::new(None)]);
    let mut buffer = [0u8; 4];
    bus.handle(IoAddress::Port(0xcfc), IoDirection::In, 4, &mut buffer);
    assert_eq!(buffer, [0xff; 4]);
    let mut written = [1u8, 2, 3, 4];
    bus.handle(IoAddress::Port(0xcfc), IoDirection::Out, 4, &mut written);
    assert_eq!(written, [1, 2, 3, 4]);
    let mut memory = [1u8, 2, 3, 4];
    bus.handle(IoAddress::Memory(0xcfc), IoDirection::In, 4, &mut memory);
    assert_eq!(memory, [1, 2, 3, 4]);
    let mut address = [1u8, 2, 3, 4];
    bus.handle(IoAddress::Port(0xcf8), IoDirection::In, 4, &mut address);
    assert_eq!(address, [1, 2, 3, 4]);
}

#[test]
fn empty_bus_serves_nothing() {
    let mut bus: Bus<E9> = Bus::new(vec![]);
    assert_eq!(bus.len(), 0);
    assert!(bus.device(0).is_none());
    let mut buffer = [5u8];
    bus.handle(IoAddress::Port(0xe9), IoDirection::Out, 1, &mut buffer);
    assert_eq!(buffer, [5]);
}

#[test]
fn devices_keep_their_order_on_the_bus() {
    let bus = Bus::new(vec![E9::new(Some(1)), E9::new(Some(2))]);
    assert_eq!(bus.len(), 2);
    assert_eq!(bus.device(0).unwrap().request(), vec![IoAddress::Port(1)]);
    assert_eq!(bus.device(1).unwrap().request(), vec![IoAddress::Port(2)]);
    assert!(bus.device(2).is_none());
}

#[test]
fn machine_devices_share_one_bus() {
    let devices: Vec<Peripheral<Invalid>> = prepare(vec![]);
    assert_eq!(devices.len(), 5);
    let mut bus = Bus::new(devices);

    // The debug port.
    let mut text = [b'o', b'k'];
    bus.handle(IoAddress::Port(0xe9), IoDirection::Out, 2, &mut text);
    match bus.device_mut(0) {
        Peripheral::E9(e9) => assert_eq!(e9.take_output(), vec![b'o', b'k']),
        _ => panic!("the first device is the debug port"),
    }

    // The serial console.
    let mut byte = [b'!'];
    bus.handle(IoAddress::Port(0x3f8), IoDirection::Out, 1, &mut byte);
    match bus.device_mut(2) {
        Peripheral::SerialConsole(console) => assert_eq!(console.take_output(), vec![b'!']),
        _ => panic!("the third device is the serial console"),
    }

    // The host bridge.
    let mut select = 0x8000_0000u32.to_le_bytes();
    bus.handle(IoAddress::Port(0xcf8), IoDirection::Out, 4, &mut select);
    let mut answer = [0u8; 4];
    bus.handle(IoAddress::Port(0xcfc), IoDirection::In, 4, &mut answer);
    assert_eq!(answer, [0xf4, 0x1a, 0x01, 0x00]);
    let mut select = 0x8000_0800u32.to_le_bytes();
    bus.handle(IoAddress::Port(0xcf8), IoDirection::Out, 4, &mut select);
    bus.handle(IoAddress::Port(0xcfc), IoDirection::In, 4, &mut answer);
    assert_eq!(answer, [0xff; 4]);

    // Nobody listens on port 0x60.
    let mut keyboard = [0x42u8];
    bus.handle(IoAddress::Port(0x60), IoDirection::In, 1, &mut keyboard);
    assert_eq!(keyboard, [0x42]);
}

fn configuration_data(devices: Vec<Peripheral<Invalid>>) -> [u8; 4] {
    let mut bus = Bus::new(devices);
    let mut select = 0x8000_0000u32.to_le_bytes();
    bus.handle(IoAddress::Port(0xcf8), IoDirection::Out, 4, &mut select);
    let mut answer = [0u8; 4];
    bus.handle(IoAddress::Port(0xcfc), IoDirection::In, 4, &mut answer);
    answer
}

#[test]
fn later_listener_has_the_last_word() {
    // A debug port that listens on the configuration data port answers every
    // read with all ones; the host bridge answers with its identity.
    let bridge_first = vec![
        Peripheral::Host(Host::new(None, vec![])),
        Peripheral::E9(E9::new(Some(0xcfc))),
    ];
    assert_eq!(configuration_data(bridge_first), [0xff; 4]);
    let bridge_last = vec![
        Peripheral::E9(E9::new(Some(0xcfc))),
        Peripheral::Host(Host::new(None, vec![])),
    ];
    assert_eq!(configuration_data(bridge_last), [0xf4, 0x1a, 0x01, 0x00]);
}

#[test]
fn printed_output_is_drained_in_device_order() {
    let devices: Vec<Peripheral<Invalid>> = prepare(vec![]);
    let mut bus = Bus::new(devices);
    let mut text = [b'3'];
    bus.handle(IoAddress::Port(0x3f8), IoDirection::Out, 1, &mut text);
    let mut text = [b'2', b'2'];
    bus.handle(IoAddress::Port(0x80), IoDirection::Out, 2, &mut text);
    let mut text = [b'1'];
    bus.handle(IoAddress::Port(0xe9), IoDirection::Out, 1, &mut text);
    assert_eq!(drain(&mut bus), b"1223".to_vec());
    assert_eq!(drain(&mut bus), vec![]);
}

#[test]
fn clocks_on_the_bus_are_wound() {
    let devices: Vec<Peripheral<Invalid>> = prepare(vec![]);
    let mut bus = Bus::new(devices);
    wind(&mut bus, Time { sec: 42, min: 0, hour: 0, wday: 0, mday: 1, year: 70 });
    let mut index = [0u8];
    bus.handle(IoAddress::Port(0x70), IoDirection::Out, 1, &mut index);
    let mut seconds = [0u8];
    bus.handle(IoAddress::Port(0x71), IoDirection::In, 1, &mut seconds);
    assert_eq!(seconds, [0x42]);
    // The other devices are as they were.
    let mut select = 0x8000_0000u32.to_le_bytes();
    bus.handle(IoAddress::Port(0xcf8), IoDirection::Out, 4, &mut select);
    let mut answer = [0u8; 4];
    bus.handle(IoAddress::Port(0xcfc), IoDirection::In, 4, &mut answer);
    assert_eq!(answer, [0xf4, 0x1a, 0x01, 0x00]);
}
