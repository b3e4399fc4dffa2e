//! The core of a userspace virtual-machine monitor: capability gating, the typed
//! decoding of guest exits, the I/O dispatch bus with its PCI host bridge, and the
//! guest-physical memory layout.

pub mod bus;
pub mod bytes;
pub mod capability;
pub mod configuration;
pub mod device;
pub mod error;
pub mod io;
pub mod machine;
pub mod pci;
pub mod sys;
pub mod system;
pub mod vcpu;
pub mod virtio;
