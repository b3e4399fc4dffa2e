//! The register sets of an x86-64 virtual CPU.

use vstd::prelude::*;

verus! {

/// The general-purpose registers (`kvm_regs`).
#[derive(Debug, Copy, Clone, PartialEq, Eq)]
pub struct Regs {
    pub rax: u64,
    pub rbx: u64,
    pub rcx: u64,
    pub rdx: u64,
    pub rsi: u64,
    pub rdi: u64,
    pub rsp: u64,
    pub rbp: u64,
    pub r8: u64,
    pub r9: u64,
    pub r10: u64,
    pub r11: u64,
    pub r12: u64,
    pub r13: u64,
    pub r14: u64,
    pub r15: u64,
    pub rip: u64,
    pub rflags: u64,
}

/// A segment register (`kvm_segment`).
#[derive(Debug, Copy, Clone, PartialEq, Eq)]
pub struct Segment {
    pub base: u64,
    pub limit: u32,
    pub selector: u16,
    /// The kernel calls this field `type`.
    pub kind: u8,
    pub present: u8,
    pub dp1: u8,
    pub dp: u8,
    pub s: u8,
    pub l: u8,
    pub g: u8,
    pub avl: u8,
    pub unusable: u8,
    pub padding: u8,
}

/// A descriptor-table register (`kvm_dtable`).
#[derive(Debug, Copy, Clone, PartialEq, Eq)]
pub struct Dtable {
    pub base: u64,
    pub limit: u16,
    pub padding: [u16; 3],
}

/// The segment and control registers (`kvm_sregs`).
#[derive(Debug, Copy, Clone, PartialEq, Eq)]
pub struct Sregs {
    pub cs: Segment,
    pub ds: Segment,
    pub es: Segment,
    pub fs: Segment,
    pub gs: Segment,
    pub ss: Segment,
    pub tr: Segment,
    pub ldt: Segment,
    pub gdt: Dtable,
    pub idt: Dtable,
    pub cr0: u64,
    pub cr2: u64,
    pub cr3: u64,
    pub cr4: u64,
    pub cr8: u64,
    pub efer: u64,
    pub apic_base: u64,
    /// One bit for each of the 256 interrupts; at most one is set, that of an
    /// external interrupt which the APIC has acknowledged and which is not
    /// injected yet.
    pub interrupt_bitmap: [u64; 4],
}

/// One model-specific register (`kvm_msr_entry`).
#[derive(Debug, Copy, Clone, PartialEq, Eq)]
pub struct MsrEntry {
    pub index: u32,
    pub reserved: u32,
    pub data: u64,
}

/// A set of model-specific registers (`kvm_msrs`).
#[derive(Debug, Clone, PartialEq, Eq)]
pub struct Msrs {
    pub nmsrs: u32,
    pub pad: u32,
    pub entries: Vec<MsrEntry>,
}

} // verus!
