use vmm_core::bus::Bus;
use vmm_core::device::e9::E9;
use vmm_core::error::Error;
use vmm_core::machine::cycle::{service, service_memory, service_port};
use vmm_core::machine::Action;
use vmm_core::sys::run::{
    ExitEoi, ExitException, ExitIo, ExitMmio, ExitSystemEvent, Run as RawRun,
};
use vmm_core::vcpu::{chain_then, enter, leave, Exit, Run};

fn io(direction: u8, size: u8, port: u16, count: u32, data_offset: u64) -> ExitIo {
    ExitIo { direction, size, port, count, data_offset }
}

#[test]
fn repeated_port_writes_are_served_in_order() {
    let mut bus = Bus::new(vec![E9::new(None)]);
    let mut page = vec![0u8; 0x40];
    page[0x20..0x26].copy_from_slice(b"abcdef");
    let before = page.clone();
    assert_eq!(service_port(&mut bus, &io(1, 2, 0xe9, 3, 0x20), &mut page), Action::Continue);
    assert_eq!(page, before);
    assert_eq!(bus.device_mut(0).take_output(), b"abcdef".to_vec());
}

#[test]
fn repeated_port_reads_fill_the_page() {
    let mut bus = Bus::new(vec![E9::new(Some(0x80))]);
    let mut page = vec![0x11u8; 0x20];
    assert_eq!(service_port(&mut bus, &io(0, 4, 0x80, 2, 0x10), &mut page), Action::Continue);
    assert_eq!(page[..0x10], [0x11; 0x10]);
    assert_eq!(page[0x10..0x18], [0xff; 8]);
    assert_eq!(page[0x18..], [0x11; 8]);
}

#[test]
fn port_access_without_listener_changes_nothing() {
    let mut bus = Bus::new(vec![E9::new(None)]);
    let mut page = vec![0x22u8; 0x20];
    assert_eq!(service_port(&mut bus, &io(0, 1, 0x60, 4, 0), &mut page), Action::Continue);
    assert_eq!(page, vec![0x22u8; 0x20]);
    // The data port of the PCI configuration mechanism reads all ones.
    assert_eq!(service_port(&mut bus, &io(0, 4, 0xcfc, 1, 4), &mut page), Action::Continue);
    assert_eq!(page[..4], [0x22; 4]);
    assert_eq!(page[4..8], [0xff; 4]);
    assert_eq!(page[8..], [0x22; 0x18]);
}

#[test]
fn port_access_outside_the_page_is_fatal() {
    let mut bus = Bus::new(vec![E9::new(None)]);
    let mut page = vec![0x33u8; 0x10];
    for exit in [
        io(1, 1, 0xe9, 1, 0x10),
        io(1, 4, 0xe9, 4, 1),
        io(1, 1, 0xe9, 2, u64::MAX),
        io(1, 255, 0xe9, u32::MAX, 0),
    ] {
        assert_eq!(
            service_port(&mut bus, &exit, &mut page),
            Action::Fail(Error::CoreOperation)
        );
    }
    assert_eq!(page, vec![0x33u8; 0x10]);
    assert_eq!(bus.device_mut(0).take_output(), vec![]);
    // The last byte of the page can still be reached.
    assert_eq!(service_port(&mut bus, &io(1, 1, 0xe9, 1, 0xf), &mut page), Action::Continue);
    assert_eq!(bus.device_mut(0).take_output(), vec![0x33]);
}

#[test]
fn port_access_without_direction_is_fatal() {
    let mut bus = Bus::new(vec![E9::new(None)]);
    let mut page = vec![0x44u8; 0x10];
    assert_eq!(
        service_port(&mut bus, &io(2, 1, 0xe9, 1, 0), &mut page),
        Action::Fail(Error::CoreOperation)
    );
    assert_eq!(bus.device_mut(0).take_output(), vec![]);
}

#[test]
fn empty_port_access_is_served() {
    let mut bus = Bus::new(vec![E9::new(None)]);
    let mut page = vec![0x55u8; 0x10];
    assert_eq!(service_port(&mut bus, &io(1, 1, 0xe9, 0, 0x10), &mut page), Action::Continue);
    assert_eq!(service_port(&mut bus, &io(1, 0, 0xe9, 5, 0x10), &mut page), Action::Continue);
    assert_eq!(bus.device_mut(0).take_output(), vec![]);
}

#[test]
fn memory_access_goes_back_into_the_page() {
    let mut bus: Bus<E9> = Bus::new(vec![]);
    let mut page = vec![0x66u8; 0x50];
    let exit = ExitMmio { phys_addr: 0xfee0_0000, data: [1, 2, 3, 4, 5, 6, 7, 8], len: 4, is_write: 0 };
    assert_eq!(service_memory(&mut bus, &exit, &mut page), Action::Continue);
    assert_eq!(page[..56], [0x66; 56]);
    assert_eq!(page[56..60], [1, 2, 3, 4]);
    assert_eq!(page[60..], [0x66; 20]);
}

#[test]
fn memory_access_that_does_not_fit_is_fatal() {
    let mut bus: Bus<E9> = Bus::new(vec![]);
    let mut page = vec![0x77u8; 0x50];
    let long = ExitMmio { phys_addr: 0, data: [0; 8], len: 9, is_write: 1 };
    assert_eq!(service_memory(&mut bus, &long, &mut page), Action::Fail(Error::CoreOperation));
    let mut short = vec![0x77u8; 63];
    let exit = ExitMmio { phys_addr: 0, data: [0; 8], len: 1, is_write: 1 };
    assert_eq!(service_memory(&mut bus, &exit, &mut short), Action::Fail(Error::CoreOperation));
    assert_eq!(page, vec![0x77u8; 0x50]);
    assert_eq!(short, vec![0x77u8; 63]);
}

#[test]
fn shutdown_and_crash_end_the_loop() {
    let mut bus = Bus::new(vec![E9::new(None)]);
    let mut page = vec![0u8; 0x10];
    assert_eq!(service(&mut bus, &Exit::Shutdown, &mut page), Action::Stop);
    for kind in [1u32, 3] {
        let event = Exit::SystemEvent(ExitSystemEvent { kind, flags: 0 });
        assert_eq!(service(&mut bus, &event, &mut page), Action::Stop);
    }
}

#[test]
fn other_exits_are_fatal() {
    let mut bus = Bus::new(vec![E9::new(None)]);
    let mut page = vec![0u8; 0x10];
    let reset = Exit::SystemEvent(ExitSystemEvent { kind: 2, flags: 0 });
    assert_eq!(service(&mut bus, &reset, &mut page), Action::Fail(Error::CoreOperation));
    let exception = Exit::Exception(ExitException { exception: 6, error_code: 0 });
    assert_eq!(service(&mut bus, &exception, &mut page), Action::Fail(Error::CoreOperation));
    let eoi = Exit::Eoi(ExitEoi { vector: 1 });
    assert_eq!(service(&mut bus, &eoi, &mut page), Action::Fail(Error::CoreOperation));
    assert_eq!(page, vec![0u8; 0x10]);
}

#[test]
fn accesses_are_served_through_the_exit() {
    let mut bus = Bus::new(vec![E9::new(None)]);
    let mut page = vec![b'x'; 0x50];
    let port = Exit::Io(io(1, 1, 0xe9, 2, 0x40));
    assert_eq!(service(&mut bus, &port, &mut page), Action::Continue);
    assert_eq!(bus.device_mut(0).take_output(), vec![b'x', b'x']);
    let memory = Exit::Mmio(ExitMmio { phys_addr: 1, data: [9; 8], len: 8, is_write: 1 });
    assert_eq!(service(&mut bus, &memory, &mut page), Action::Continue);
    assert_eq!(page[56..64], [9; 8]);
}

#[test]
fn actions_follow_results() {
    assert_eq!(Action::from(Ok(())), Action::Continue);
    assert_eq!(Action::from(Err(Error::MemoryMap)), Action::Fail(Error::MemoryMap));
    assert_eq!(Action::Fail(Error::CoreUninitialized).into(), Error::CoreUninitialized);
    assert_eq!(Action::Continue.into(), Error::ActionNotError);
    assert_eq!(Action::Stop.into(), Error::ActionNotError);
}

fn sample() -> Run {
    Run {
        request_interrupt_window: 1,
        immediate_exit: 1,
        ready_for_interrupt_injection: 0,
        if_flag: 0,
        flags: 0,
        cr8: 2,
        apic_base: 0xfee0_0000,
        psw_mask: 0,
        psw_addr: 0,
        exit: Exit::Io(ExitIo { direction: 1, size: 1, port: 0xe9, count: 1, data_offset: 0x1000 }),
        kvm_valid_regs: 0,
        kvm_dirty_regs: 0,
    }
}

#[test]
fn entering_writes_the_control_page() {
    let mut page = vec![0u8; 0x2000];
    assert_eq!(enter(Some(&mut page[..]), sample()), Ok(()));
    assert_eq!(RawRun::load(&page), sample().into());
    assert_eq!(leave(&page, Some(0)), Ok(sample()));
}

#[test]
fn entering_without_a_control_page_fails() {
    assert_eq!(enter(None, sample()), Err(Error::CoreUninitialized));
    let mut short = vec![0xaau8; 319];
    assert_eq!(enter(Some(&mut short[..]), sample()), Err(Error::CoreUninitialized));
    assert_eq!(short, vec![0xaau8; 319]);
    let mut exact = vec![0u8; 320];
    assert_eq!(enter(Some(&mut exact[..]), sample()), Ok(()));
}

#[test]
fn leaving_reads_the_control_page() {
    let mut page = vec![0u8; 0x1000];
    page[8] = 8;
    let run = leave(&page, Some(0)).unwrap();
    assert_eq!(run.exit, Exit::Shutdown);
    page[8] = 24;
    page[48] = 3;
    page[56] = 0x10;
    page[16] = 0xf;
    let run = leave(&page, Some(0)).unwrap();
    assert_eq!(run.exit, Exit::SystemEvent(ExitSystemEvent { kind: 3, flags: 0x10 }));
    assert_eq!(run.cr8, 0xf);
}

#[test]
fn leaving_fails_with_the_call_the_page_or_the_reason() {
    let mut page = vec![0u8; 0x1000];
    page[8] = 5;
    assert_eq!(leave(&page, None), Err(Error::CoreOperation));
    assert_eq!(leave(&page[..100], Some(0)), Err(Error::CoreUninitialized));
    assert_eq!(leave(&page, Some(0)), Err(Error::IllegalExitReason(5)));
    page[9] = 1;
    assert_eq!(leave(&page, Some(0)), Err(Error::IllegalExitReason(0x105)));
}

#[test]
fn core_operations_fail_below_zero() {
    assert_eq!(chain_then(Some(0)), Ok(0));
    assert_eq!(chain_then(Some(0x3000)), Ok(0x3000));
    assert_eq!(chain_then(Some(-1)), Err(Error::CoreOperation));
    assert_eq!(chain_then(None), Err(Error::CoreOperation));
}
