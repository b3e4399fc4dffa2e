use vmm_core::device::cmos::{encode, Cmos, Time};
use vmm_core::device::e9::E9;
use vmm_core::device::sconsole::{Serial, SerialConsole};
use vmm_core::device::{Device, Peripheral};
use vmm_core::io::{IoAction, IoAddress, IoDirection};
use vmm_core::pci::Invalid;

#[test]
fn values_are_encoded_as_binary_coded_decimals() {
    assert_eq!(encode(0), 0x00);
    assert_eq!(encode(9), 0x09);
    assert_eq!(encode(10), 0x10);
    assert_eq!(encode(59), 0x59);
    assert_eq!(encode(99), 0x99);
    // Beyond two digits the tens wrap around in their four bits.
    assert_eq!(encode(100), 0xa0);
    assert_eq!(encode(159), 0xf9);
    assert_eq!(encode(160), 0x00);
    assert_eq!(encode(u32::MAX), 0x95);
}

fn read_register(cmos: &mut Cmos, register: u8) -> u8 {
    let mut index = [register];
    assert_eq!(cmos.handle(IoAddress::Port(0x70).outb(), &mut index), Some(()));
    let mut data = [0xeeu8];
    assert_eq!(cmos.handle(IoAddress::Port(0x71).inb(), &mut data), Some(()));
    data[0]
}

fn write_register(cmos: &mut Cmos, register: u8, value: u8) {
    let mut index = [register];
    assert_eq!(cmos.handle(IoAddress::Port(0x70).outb(), &mut index), Some(()));
    let mut data = [value];
    assert_eq!(cmos.handle(IoAddress::Port(0x71).outb(), &mut data), Some(()));
}

#[test]
fn clock_registers_show_the_time() {
    let mut cmos = Cmos::new();
    cmos.set_time(Time { sec: 58, min: 7, hour: 23, wday: 6, mday: 31, year: 126 });
    assert_eq!(read_register(&mut cmos, 0x00), 0x58);
    assert_eq!(read_register(&mut cmos, 0x02), 0x07);
    assert_eq!(read_register(&mut cmos, 0x04), 0x23);
    assert_eq!(read_register(&mut cmos, 0x06), 0x07);
    assert_eq!(read_register(&mut cmos, 0x07), 0x31);
    assert_eq!(read_register(&mut cmos, 0x08), 0x26);
    assert_eq!(read_register(&mut cmos, 0x32), 0x20);
}

#[test]
fn clock_registers_cannot_be_overwritten() {
    let mut cmos = Cmos::new();
    cmos.set_time(Time { sec: 1, min: 2, hour: 3, wday: 4, mday: 5, year: 99 });
    write_register(&mut cmos, 0x00, 0x77);
    assert_eq!(read_register(&mut cmos, 0x00), 0x01);
    assert_eq!(read_register(&mut cmos, 0x08), 0x99);
    assert_eq!(read_register(&mut cmos, 0x32), 0x19);
}

#[test]
fn other_registers_are_memory() {
    let mut cmos = Cmos::new();
    assert_eq!(read_register(&mut cmos, 0x10), 0);
    write_register(&mut cmos, 0x10, 0xab);
    write_register(&mut cmos, 0x7f, 0xcd);
    assert_eq!(read_register(&mut cmos, 0x10), 0xab);
    assert_eq!(read_register(&mut cmos, 0x7f), 0xcd);
    assert_eq!(read_register(&mut cmos, 0x11), 0);
    // The top bit of the index is not part of the register's number.
    assert_eq!(read_register(&mut cmos, 0x90), 0xab);
}

#[test]
fn status_registers_ignore_writes() {
    let mut cmos = Cmos::new();
    write_register(&mut cmos, 0x0c, 0xff);
    write_register(&mut cmos, 0x0d, 0xff);
    assert_eq!(read_register(&mut cmos, 0x0c), 0);
    assert_eq!(read_register(&mut cmos, 0x0d), 0);
    write_register(&mut cmos, 0x0b, 0x02);
    assert_eq!(read_register(&mut cmos, 0x0b), 0x02);
}

#[test]
fn cmos_takes_only_its_three_accesses() {
    let mut cmos = Cmos::new();
    assert_eq!(cmos.request(), vec![IoAddress::Port(0x70), IoAddress::Port(0x71)]);
    let mut one = [0x12u8];
    assert_eq!(cmos.handle(IoAddress::Port(0x70).inb(), &mut one), None);
    assert_eq!(cmos.handle(IoAddress::Port(0x72).inb(), &mut one), None);
    assert_eq!(cmos.handle(IoAddress::Memory(0x71).inb(), &mut one), None);
    let mut two = [0x12u8, 0x34];
    assert_eq!(cmos.handle(IoAddress::Port(0x71).inw(), &mut two), None);
    assert_eq!(one, [0x12]);
    assert_eq!(two, [0x12, 0x34]);
}

#[test]
fn debug_port_collects_what_is_written() {
    let mut e9 = E9::new(None);
    assert_eq!(e9.request(), vec![IoAddress::Port(0xe9)]);
    let mut hello = [b'h', b'i'];
    assert_eq!(e9.handle(IoAddress::Port(0xe9).outw(), &mut hello), Some(()));
    let mut more = [b'!'];
    assert_eq!(e9.handle(IoAddress::Port(0xe9).outb(), &mut more), Some(()));
    assert_eq!(hello, [b'h', b'i']);
    assert_eq!(e9.take_output(), vec![b'h', b'i', b'!']);
    assert_eq!(e9.take_output(), vec![]);
}

#[test]
fn debug_port_reads_all_ones() {
    let mut e9 = E9::new(Some(0x80));
    assert_eq!(e9.request(), vec![IoAddress::Port(0x80)]);
    let mut buffer = [0u8, 1, 2, 3];
    assert_eq!(e9.handle(IoAddress::Port(0x80).inl(), &mut buffer), Some(()));
    assert_eq!(buffer, [0xff; 4]);
    let mut empty: [u8; 0] = [];
    assert_eq!(
        e9.handle(IoAction(IoAddress::Port(0x80), IoDirection::In, 0), &mut empty),
        Some(())
    );
    assert_eq!(e9.take_output(), vec![]);
}

fn port(base: u64, offset: u64) -> IoAddress {
    IoAddress::Port(base + offset)
}

#[test]
fn serial_console_asks_for_eight_ports() {
    let console = SerialConsole::new(0x3f8);
    assert_eq!(
        console.request(),
        (0x3f8..0x400).map(IoAddress::Port).collect::<Vec<_>>()
    );
    let last = SerialConsole::new(u64::MAX - 1);
    let asked = last.request();
    assert_eq!(asked[0], IoAddress::Port(u64::MAX - 1));
    assert_eq!(asked[1], IoAddress::Port(u64::MAX));
    assert_eq!(asked[2], IoAddress::Port(0));
    assert_eq!(asked[7], IoAddress::Port(5));
}

#[test]
fn serial_console_sends_what_is_written() {
    let mut console = SerialConsole::new(0x3f8);
    for byte in [b'o', b'k', b'\n'] {
        let mut data = [byte];
        assert_eq!(console.handle(port(0x3f8, 0).outb(), &mut data), Some(()));
    }
    assert_eq!(console.take_output(), vec![b'o', b'k', b'\n']);
    assert_eq!(console.take_output(), vec![]);
}

#[test]
fn serial_console_shows_line_control_and_status() {
    let mut console = SerialConsole::new(0x3f8);
    let mut data = [0u8];
    assert_eq!(console.handle(port(0x3f8, 3).inb(), &mut data), Some(()));
    assert_eq!(data, [0b0000_0011]);
    assert_eq!(console.handle(port(0x3f8, 5).inb(), &mut data), Some(()));
    assert_eq!(data, [0b0110_0000]);
    let mut control = [0b0001_1011u8];
    assert_eq!(console.handle(port(0x3f8, 3).outb(), &mut control), Some(()));
    assert_eq!(console.handle(port(0x3f8, 3).inb(), &mut data), Some(()));
    assert_eq!(data, [0b0001_1011]);
}

#[test]
fn serial_console_divisor_hides_behind_the_latch() {
    let mut console = SerialConsole::new(0x2f8);
    let mut data = [0x55u8];
    // With the latch closed the first ports are no divisor.
    assert_eq!(console.handle(port(0x2f8, 0).inb(), &mut data), None);
    assert_eq!(console.handle(port(0x2f8, 1).inb(), &mut data), None);
    assert_eq!(console.handle(port(0x2f8, 1).outb(), &mut data), None);
    assert_eq!(data, [0x55]);
    // Open the latch.
    let mut control = [0x83u8];
    assert_eq!(console.handle(port(0x2f8, 3).outb(), &mut control), Some(()));
    assert_eq!(console.handle(port(0x2f8, 0).inb(), &mut data), Some(()));
    assert_eq!(data, [1]);
    let mut low = [0x0cu8];
    assert_eq!(console.handle(port(0x2f8, 0).outb(), &mut low), Some(()));
    let mut high = [0x30u8];
    assert_eq!(console.handle(port(0x2f8, 1).outb(), &mut high), Some(()));
    assert_eq!(console.handle(port(0x2f8, 0).inb(), &mut data), Some(()));
    assert_eq!(data, [0x0c]);
    assert_eq!(console.handle(port(0x2f8, 1).inb(), &mut data), Some(()));
    assert_eq!(data, [0x0c]);
    // Nothing was sent meanwhile.
    assert_eq!(console.take_output(), vec![]);
}

#[test]
fn serial_console_leaves_the_other_ports_alone() {
    let mut console = SerialConsole::new(0x3f8);
    let mut data = [0x11u8];
    for offset in [2u64, 4, 6, 7] {
        assert_eq!(console.handle(port(0x3f8, offset).inb(), &mut data), None);
        assert_eq!(console.handle(port(0x3f8, offset).outb(), &mut data), None);
    }
    assert_eq!(console.handle(port(0x3f8, 5).outb(), &mut data), None);
    let mut two = [0x11u8, 0x22];
    assert_eq!(console.handle(port(0x3f8, 0).outw(), &mut two), None);
    assert_eq!(data, [0x11]);
}

#[test]
fn divisor_latch_is_the_top_bit_of_line_control() {
    let open = Serial { status: 0, divisor: (0, 1), control: 0x80, interrupts: 0 };
    let closed = Serial { status: 0xff, divisor: (0, 1), control: 0x7f, interrupts: 0xff };
    assert!(open.dlab());
    assert!(!closed.dlab());
}

#[test]
fn default_devices_are_two_debug_ports_and_a_console() {
    let devices: Vec<Peripheral<Invalid>> = vmm_core::device::peripheral::default();
    let asked: Vec<Vec<IoAddress>> = devices.iter().map(|device| device.request()).collect();
    assert_eq!(asked.len(), 3);
    assert_eq!(asked[0], vec![IoAddress::Port(0xe9)]);
    assert_eq!(asked[1], vec![IoAddress::Port(0x80)]);
    assert_eq!(asked[2], (0x3f8..0x400).map(IoAddress::Port).collect::<Vec<_>>());
}
