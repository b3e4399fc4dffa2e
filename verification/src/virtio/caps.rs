//! The capabilities by which a virtio device describes itself in its PCI
//! configuration space.

use vstd::prelude::*;

verus! {

/// The head of every virtio capability (`virtio_pci_cap`).
#[derive(Debug, Copy, Clone, PartialEq, Eq, Hash)]
pub struct Capability {
    /// The generic PCI field that marks a vendor-specific capability.
    pub cap_vndr: u8,
    /// The generic PCI field that links to the next capability.
    pub cap_next: u8,
    /// The length of the capability.
    pub cap_len: u8,
    /// Which structure the capability describes.
    pub cfg_type: u8,
    /// The base address register in which the structure lies.
    pub bar: u8,
    pub _pad: [u8; 3],
    /// The offset of the structure within the register's range.
    pub offset: u32,
    /// The length of the structure in bytes.
    pub length: u32,
}

/// The common configuration of a virtio device (`virtio_pci_common_cfg`).
#[derive(Debug, Copy, Clone, PartialEq, Eq, Hash)]
pub struct Common {
    /// Selects which 32 feature bits `device_feature` shows: 0 for bits 0 to 31,
    /// 1 for bits 32 to 63, and so on. The driver reads and writes it.
    pub device_feature_select: u32,
    /// The feature bits that the device offers, as selected. The driver only
    /// reads it.
    pub device_feature: u32,
    /// Selects which 32 feature bits `driver_feature` shows. The driver reads and
    /// writes it.
    pub driver_feature_select: u32,
    /// The feature bits that the driver accepts, as selected. The driver reads and
    /// writes it.
    pub driver_feature: u32,
    /// The configuration vector for MSI-X. The driver reads and writes it.
    pub msix_config: u16,
    /// The largest number of queues that the device supports. The driver only
    /// reads it.
    pub num_queues: u16,
    /// The device status; writing 0 resets the device. The driver reads and
    /// writes it.
    pub device_status: u8,
    /// Changes whenever the configuration changes noticeably. The driver only
    /// reads it.
    pub config_generation: u8,
    /// Selects the queue that the following fields are about. The driver reads
    /// and writes it.
    pub queue_select: u16,
    /// The size of the queue: zero or a power of two. After a reset it is the
    /// largest size that is supported; the driver may make it smaller. Zero
    /// means that the queue is not there.
    pub queue_size: u16,
    /// The queue's vector for MSI-X. The driver reads and writes it.
    pub queue_msix_vector: u16,
    /// 1 lets the device work on the queue, 0 keeps it from that. The driver
    /// reads and writes it.
    pub queue_enable: u16,
    /// Where in the notification structure the queue lies, as a number and not as
    /// an offset in bytes. The driver only reads it.
    pub queue_notify_off: u16,
    /// The physical address of the descriptor table. The driver reads and writes
    /// it.
    pub queue_desc: u64,
    /// The physical address of the available ring. The driver reads and writes
    /// it.
    pub queue_avail: u64,
    /// The physical address of the used ring. The driver reads and writes it.
    pub queue_used: u64,
}

/// The notification capability of a virtio device (`virtio_pci_notify_cap`).
#[derive(Debug, Copy, Clone, PartialEq, Eq, Hash)]
pub struct Notify {
    pub cap: Capability,
    /// The factor by which a queue's `queue_notify_off` is multiplied to get the
    /// offset of its notification address.
    pub notify_off_multiplier: u32,
}

} // verus!
