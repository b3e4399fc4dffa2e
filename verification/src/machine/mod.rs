//! A whole machine: its configuration, the layout of its memory, and the loop
//! that serves its virtual CPUs.

pub mod action;
pub mod cycle;
pub mod memory;
pub mod operation;
pub mod regions;

pub use self::action::Action;
pub use self::memory::{firmware_region, layout, Region};
pub use self::operation::Operation;
pub use self::regions::MemoryMap;
