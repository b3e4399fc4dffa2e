//! Structures of the virtio transport over PCI.

pub mod caps;
