//! Boot hand-off records for x86-family machines.
//!
//! The [`table`] module holds the `BootInfo` table that a boot loader fills in
//! and a kernel reads during early initialisation. The [`i686`] module builds
//! the Global Descriptor Table that the processor needs before the kernel's
//! segmentation model is in force.

pub mod i686;
pub mod table;

pub use table::{
    BootInfo, CPUInfo, ComponentInfo, Config, Console, CriticalComponents, EarlyLogBuffer,
    Framebuffer, MemoryInfo, MemoryMapEntry, Serial, EARLY_LOG_CAPACITY, MEMORY_MAP_CAPACITY,
};
