use vmm_core::error::Error;
use vmm_core::sys::run::{
    Exit as RawExit, ExitDcr, ExitEoi, ExitEpr, ExitException, ExitFailEntry, ExitHypercall,
    ExitInternal, ExitIo, ExitMmio, ExitOsi, ExitPaprHcall, ExitS390Sieic, ExitS390Stsi,
    ExitS390Tsch, ExitS390Ucontrol, ExitSystemEvent, ExitTprAccess, ExitUnknown, Run as RawRun,
};
use vmm_core::vcpu::{Exit, Run};

fn all_exits() -> Vec<Exit> {
    let mut words16 = [0u64; 16];
    let mut words32 = [0u64; 32];
    for i in 0..16 {
        words16[i] = 0x0101_0101_0101_0101 * (i as u64 + 1);
    }
    for i in 0..32 {
        words32[i] = u64::MAX - i as u64;
    }
    vec![
        Exit::Unknown(ExitUnknown { hardware_exit_reason: 0x1122_3344_5566_7788 }),
        Exit::FailEntry(ExitFailEntry { hardware_entry_failure_reason: u64::MAX }),
        Exit::Exception(ExitException { exception: 14, error_code: 0xffff_0002 }),
        Exit::Io(ExitIo { direction: 1, size: 4, port: 0xcf8, count: 3, data_offset: 0x1000 }),
        Exit::Mmio(ExitMmio {
            phys_addr: 0xfee0_0000,
            data: [1, 2, 3, 4, 5, 6, 7, 8],
            len: 8,
            is_write: 1,
        }),
        Exit::Hypercall(ExitHypercall {
            nr: 7,
            args: [1, 2, 3, 4, 5, u64::MAX],
            ret: 0x8000_0000_0000_0000,
            longmode: 1,
        }),
        Exit::Shutdown,
        Exit::TprAccess(ExitTprAccess { rip: 0xffff_8000_0000_1000, is_write: 1 }),
        Exit::S390Sieic(ExitS390Sieic { icptcode: 0x7f, ipa: 0xb2fe, ipb: 0x1234_5678 }),
        Exit::S390ResetFlags(0x1f),
        Exit::S390Ucontrol(ExitS390Ucontrol { trans_exc_code: 0xdead_beef_0000_0001 }),
        Exit::Dcr(ExitDcr { dcrn: 9, data: 0xcafe_f00d, is_write: 1 }),
        Exit::Internal(ExitInternal { suberror: 2, ndata: 16, data: words16 }),
        Exit::Osi(ExitOsi { gprs: words32 }),
        Exit::PaprHcall(ExitPaprHcall { nr: 0x1f4, ret: 5, args: [9, 8, 7, 6, 5, 4, 3, 2, 1] }),
        Exit::S390Tsch(ExitS390Tsch {
            subchannel_id: 1,
            subchannel_nr: 0xffff,
            io_int_parm: 0x0102_0304,
            io_int_word: 0x0506_0708,
            ipb: 0x090a_0b0c,
            dequeued: 1,
        }),
        Exit::Epr(ExitEpr { epr: 0x8000_0000 }),
        Exit::SystemEvent(ExitSystemEvent { kind: 3, flags: 0x0102_0304_0506_0708 }),
        Exit::S390Stsi(ExitS390Stsi {
            addr: 0x2000,
            ar: 1,
            reserved: 2,
            fc: 3,
            sel1: 4,
            sel2: 0x0506,
        }),
        Exit::Eoi(ExitEoi { vector: 0x30 }),
    ]
}

#[test]
fn every_exit_survives_encoding_and_decoding() {
    for exit in all_exits() {
        let raw = exit.into();
        assert_eq!(Exit::from(raw), Ok(exit));
    }
}

#[test]
fn exits_carry_the_kernels_reason_numbers() {
    let reasons: Vec<u32> = all_exits().into_iter().map(|exit| exit.into().0).collect();
    assert_eq!(
        reasons,
        vec![0, 9, 1, 2, 6, 3, 8, 12, 13, 14, 20, 15, 17, 18, 19, 22, 23, 24, 25, 26]
    );
}

#[test]
fn unknown_exit_reasons_are_refused() {
    for reason in [4u32, 5, 7, 10, 11, 16, 21, 27, 28, 1000, u32::MAX] {
        assert_eq!(
            Exit::from((reason, RawExit { raw: [0xab; 256] })),
            Err(Error::IllegalExitReason(reason))
        );
    }
}

#[test]
fn port_exit_fields_stand_at_their_places() {
    let exit = Exit::Io(ExitIo {
        direction: 1,
        size: 2,
        port: 0x03f8,
        count: 0x0a0b_0c0d,
        data_offset: 0x1122_3344_5566_7788,
    });
    let (reason, area) = exit.into();
    assert_eq!(reason, 2);
    assert_eq!(
        area.raw[..16],
        [1, 2, 0xf8, 0x03, 0x0d, 0x0c, 0x0b, 0x0a, 0x88, 0x77, 0x66, 0x55, 0x44, 0x33, 0x22, 0x11]
    );
    assert!(area.raw[16..].iter().all(|byte| *byte == 0));
}

#[test]
fn memory_exit_is_decoded_from_its_bytes() {
    let mut raw = [0u8; 256];
    raw[0] = 0x00;
    raw[1] = 0x10;
    raw[2] = 0xe0;
    raw[3] = 0xfe;
    raw[8] = 0xaa;
    raw[9] = 0xbb;
    raw[16] = 2;
    raw[20] = 1;
    raw[21] = 0x55;
    assert_eq!(
        Exit::from((6, RawExit { raw })),
        Ok(Exit::Mmio(ExitMmio {
            phys_addr: 0xfee0_1000,
            data: [0xaa, 0xbb, 0, 0, 0, 0, 0, 0],
            len: 2,
            is_write: 1,
        }))
    );
}

#[test]
fn shutdown_has_an_empty_payload() {
    let (reason, area) = Exit::Shutdown.into();
    assert_eq!(reason, 8);
    assert_eq!(area.raw, [0u8; 256]);
    assert_eq!(Exit::from((8, RawExit { raw: [0xff; 256] })), Ok(Exit::Shutdown));
}

#[test]
fn system_event_skips_the_padding_behind_its_kind() {
    let exit = ExitSystemEvent { kind: 0x0102_0304, flags: 0x1112_1314_1516_1718 };
    let area = exit.encode();
    assert_eq!(
        area.raw[..16],
        [4, 3, 2, 1, 0, 0, 0, 0, 0x18, 0x17, 0x16, 0x15, 0x14, 0x13, 0x12, 0x11]
    );
    assert_eq!(ExitSystemEvent::decode(&area), exit);
}

#[test]
fn reset_flags_open_the_payload() {
    let area = RawExit::from_reset_flags(0x1f);
    assert_eq!(area.raw[0], 0x1f);
    assert!(area.raw[1..].iter().all(|byte| *byte == 0));
    assert_eq!(area.reset_flags(), 0x1f);
    assert_eq!(RawExit::zeroed().raw, [0u8; 256]);
}

fn sample_run(exit: Exit) -> Run {
    Run {
        request_interrupt_window: 1,
        immediate_exit: 0,
        ready_for_interrupt_injection: 1,
        if_flag: 1,
        flags: 0x8001,
        cr8: 0xf,
        apic_base: 0xfee0_0900,
        psw_mask: 3,
        psw_addr: 4,
        exit,
        kvm_valid_regs: 5,
        kvm_dirty_regs: 6,
    }
}

#[test]
fn run_survives_encoding_and_decoding() {
    for exit in all_exits() {
        let run = sample_run(exit);
        let page = run.into();
        assert_eq!(page.exit_reason, exit.into().0);
        assert_eq!(page.flags, 0x8001);
        assert_eq!(Run::from(page), Ok(run));
    }
}

#[test]
fn run_with_unknown_reason_is_refused() {
    let mut page = sample_run(Exit::Shutdown).into();
    page.exit_reason = 5;
    assert_eq!(Run::from(page), Err(Error::IllegalExitReason(5)));
}

#[test]
fn control_page_head_is_stored_and_loaded() {
    let head = sample_run(Exit::Io(ExitIo {
        direction: 0,
        size: 1,
        port: 0x71,
        count: 1,
        data_offset: 0x1000,
    }))
    .into();
    let mut page = vec![0xeeu8; 0x2000];
    head.store(&mut page);
    assert_eq!(page[0], 1);
    assert_eq!(page[1], 0);
    assert_eq!(page[2..8], [0xee; 6]);
    assert_eq!(page[8..12], [2, 0, 0, 0]);
    assert_eq!(page[12], 1);
    assert_eq!(page[13], 1);
    assert_eq!(page[14..16], [0x01, 0x80]);
    assert_eq!(page[16..24], [0xf, 0, 0, 0, 0, 0, 0, 0]);
    assert_eq!(page[24..32], [0x00, 0x09, 0xe0, 0xfe, 0, 0, 0, 0]);
    assert_eq!(page[48..52], [0, 1, 0x71, 0]);
    assert_eq!(page[304], 5);
    assert_eq!(page[312], 6);
    assert!(page[320..].iter().all(|byte| *byte == 0xee));
    let loaded = RawRun::load(&page);
    assert_eq!(loaded, head);
}
