//! The kernel hypervisor interface: its numbers and the values it exchanges.
//!
//! Everything here belongs to one fixed version of that interface, the one that
//! reports API version 12.

pub mod run;
pub mod structs;
pub mod x86;

use vstd::prelude::*;

verus! {

/// The one API version this library works with.
pub const KVM_API_VERSION: i32 = 12;

pub const KVM_CAP_IRQCHIP: i32 = 0;

pub const KVM_CAP_USER_MEMORY: i32 = 3;

pub const KVM_CAP_MP_STATE: i32 = 14;

pub const KVM_CAP_IOEVENTFD: i32 = 36;

pub const KVM_CAP_ADJUST_CLOCK: i32 = 39;

pub const KVM_CAP_ENABLE_CAP: i32 = 54;

pub const KVM_CAP_ENABLE_CAP_VM: i32 = 98;

pub const KVM_MP_STATE_RUNNABLE: u32 = 0;

pub const KVM_MP_STATE_UNINITIALIZED: u32 = 1;

pub const KVM_MP_STATE_INIT_RECEIVED: u32 = 2;

pub const KVM_MP_STATE_HALTED: u32 = 3;

pub const KVM_MP_STATE_SIPI_RECEIVED: u32 = 4;

pub const KVM_MP_STATE_STOPPED: u32 = 5;

pub const KVM_MP_STATE_CHECK_STOP: u32 = 6;

pub const KVM_MP_STATE_OPERATING: u32 = 7;

pub const KVM_MP_STATE_LOAD: u32 = 8;

/// Marks an event registration as one on a port rather than on memory.
pub const KVM_IOEVENTFD_FLAG_PIO: u32 = 2;

/// Marks an event registration as one to be taken back.
pub const KVM_IOEVENTFD_FLAG_DEASSIGN: u32 = 4;

} // verus!
