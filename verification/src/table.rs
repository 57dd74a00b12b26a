//! The `BootInfo` table and its sub-records.
//!
//! Every record is a plain value with public fields. Each has a default state
//! in which all numbers are zero and all flags are false, and a predicate
//! `is_zeroed` that says so field by field.

use vstd::prelude::*;

verus! {

/// Number of character slots in the early log buffer.
pub const EARLY_LOG_CAPACITY: usize = 6144;

/// Number of slots in the physical memory map.
pub const MEMORY_MAP_CAPACITY: usize = 100;

/// Staging area for log output written before a real console exists.
#[derive(Clone, Copy)]
pub struct EarlyLogBuffer {
    /// Number of bytes in use.
    pub size: usize,
    /// Position of the next write.
    pub index: u16,
    /// Position up to which the buffer has been flushed to a real sink.
    pub last_flush_index: u16,
    pub buffer: [char; EARLY_LOG_CAPACITY],
}

impl EarlyLogBuffer {
    /// Both cursors are positions inside the buffer.
    pub open spec fn wf(&self) -> bool {
        &&& self.index < EARLY_LOG_CAPACITY
        &&& self.last_flush_index < EARLY_LOG_CAPACITY
    }

    /// Nothing has been written: the counters are zero and every slot holds
    /// the null character.
    pub open spec fn is_zeroed(&self) -> bool {
        &&& self.size == 0
        &&& self.index == 0
        &&& self.last_flush_index == 0
        &&& forall|i: int| 0 <= i < EARLY_LOG_CAPACITY ==> self.buffer[i] == '\0'
    }
}

impl Default for EarlyLogBuffer {
    fn default() -> (log: Self)
        ensures
            log.is_zeroed(),
            log.wf(),
    {
        EarlyLogBuffer { size: 0, index: 0, last_flush_index: 0, buffer: ['\0'; EARLY_LOG_CAPACITY] }
    }
}

/// Linear framebuffer, valid only while `enabled` is set.
#[derive(Clone, Copy)]
pub struct Framebuffer {
    pub enabled: bool,
    pub addr: usize,
    pub width: u32,
    pub height: u32,
    pub pitch: u32,
    pub depth: u32,
    pub size: u64,
}

impl Framebuffer {
    pub open spec fn is_zeroed(&self) -> bool {
        &&& !self.enabled
        &&& self.addr == 0
        &&& self.width == 0
        &&& self.height == 0
        &&& self.pitch == 0
        &&& self.depth == 0
        &&& self.size == 0
    }
}

impl Default for Framebuffer {
    fn default() -> (framebuffer: Self)
        ensures
            framebuffer.is_zeroed(),
    {
        Framebuffer { enabled: false, addr: 0, width: 0, height: 0, pitch: 0, depth: 0, size: 0 }
    }
}

/// Cursor state of the fallback text console.
#[derive(Clone, Copy)]
pub struct Console {
    pub cursor_pos: u32,
    pub line: u32,
    pub max_chars: u32,
    pub max_line: u32,
}

impl Console {
    pub open spec fn is_zeroed(&self) -> bool {
        &&& self.cursor_pos == 0
        &&& self.line == 0
        &&& self.max_chars == 0
        &&& self.max_line == 0
    }
}

impl Default for Console {
    fn default() -> (console: Self)
        ensures
            console.is_zeroed(),
    {
        Console { cursor_pos: 0, line: 0, max_chars: 0, max_line: 0 }
    }
}

/// Fallback serial console.
#[derive(Clone, Copy)]
pub struct Serial {
    pub enabled: bool,
    pub port: u16,
}

impl Serial {
    pub open spec fn is_zeroed(&self) -> bool {
        &&& !self.enabled
        &&& self.port == 0
    }
}

impl Default for Serial {
    fn default() -> (serial: Self)
        ensures
            serial.is_zeroed(),
    {
        Serial { enabled: false, port: 0 }
    }
}

/// Status of one critical subsystem. The meaning of `state` belongs to the
/// subsystem.
#[derive(Clone, Copy)]
pub struct ComponentInfo {
    pub present: bool,
    pub address: usize,
    pub size: usize,
    pub state: u8,
}

impl ComponentInfo {
    pub open spec fn is_zeroed(&self) -> bool {
        &&& !self.present
        &&& self.address == 0
        &&& self.size == 0
        &&& self.state == 0
    }
}

impl Default for ComponentInfo {
    fn default() -> (component: Self)
        ensures
            component.is_zeroed(),
    {
        ComponentInfo { present: false, address: 0, size: 0, state: 0 }
    }
}

/// The status records of the eight critical subsystems.
#[derive(Clone, Copy)]
pub struct CriticalComponents {
    pub vfs: ComponentInfo,
    pub mm: ComponentInfo,
    pub pm: ComponentInfo,
    pub sched: ComponentInfo,
    pub disk_driver: ComponentInfo,
    pub fb: ComponentInfo,
    pub disk_dev: ComponentInfo,
    pub tty_dev: ComponentInfo,
}

impl CriticalComponents {
    pub open spec fn is_zeroed(&self) -> bool {
        &&& self.vfs.is_zeroed()
        &&& self.mm.is_zeroed()
        &&& self.pm.is_zeroed()
        &&& self.sched.is_zeroed()
        &&& self.disk_driver.is_zeroed()
        &&& self.fb.is_zeroed()
        &&& self.disk_dev.is_zeroed()
        &&& self.tty_dev.is_zeroed()
    }

    /// No subsystem has reported itself yet.
    pub open spec fn none_present(&self) -> bool {
        &&& !self.vfs.present
        &&& !self.mm.present
        &&& !self.pm.present
        &&& !self.sched.present
        &&& !self.disk_driver.present
        &&& !self.fb.present
        &&& !self.disk_dev.present
        &&& !self.tty_dev.present
    }
}

impl Default for CriticalComponents {
    fn default() -> (components: Self)
        ensures
            components.is_zeroed(),
            components.none_present(),
    {
        CriticalComponents {
            vfs: ComponentInfo::default(),
            mm: ComponentInfo::default(),
            pm: ComponentInfo::default(),
            sched: ComponentInfo::default(),
            disk_driver: ComponentInfo::default(),
            fb: ComponentInfo::default(),
            disk_dev: ComponentInfo::default(),
            tty_dev: ComponentInfo::default(),
        }
    }
}

/// One range of physical memory and its classification.
#[derive(Clone, Copy)]
pub struct MemoryMapEntry {
    pub base_address: usize,
    pub length: usize,
    pub type_: u8,
}

impl MemoryMapEntry {
    pub open spec fn is_zeroed(&self) -> bool {
        &&& self.base_address == 0
        &&& self.length == 0
        &&& self.type_ == 0
    }
}

impl Default for MemoryMapEntry {
    fn default() -> (entry: Self)
        ensures
            entry.is_zeroed(),
    {
        MemoryMapEntry { base_address: 0, length: 0, type_: 0 }
    }
}

/// Physical memory as the loader found it.
#[derive(Clone, Copy)]
pub struct MemoryInfo {
    pub total_physical_memory: usize,
    pub available_memory: usize,
    pub memory_map: [MemoryMapEntry; MEMORY_MAP_CAPACITY],
    /// Number of slots of `memory_map` that are populated.
    pub memory_map_entries: u16,
}

impl View for MemoryInfo {
    type V = Seq<MemoryMapEntry>;

    /// The populated entries: the slots below `memory_map_entries`. The slots
    /// above are not part of the map.
    open spec fn view(&self) -> Seq<MemoryMapEntry> {
        self.memory_map@.take(self.memory_map_entries as int)
    }
}

impl MemoryInfo {
    /// The count of populated slots does not exceed the capacity.
    pub open spec fn wf(&self) -> bool {
        self.memory_map_entries <= MEMORY_MAP_CAPACITY
    }

    /// No memory is reported and every slot of the map is zero.
    pub open spec fn is_zeroed(&self) -> bool {
        &&& self.total_physical_memory == 0
        &&& self.available_memory == 0
        &&& self.memory_map_entries == 0
        &&& forall|i: int|
            0 <= i < MEMORY_MAP_CAPACITY ==> (#[trigger] self.memory_map[i]).is_zeroed()
    }
}

impl Default for MemoryInfo {
    fn default() -> (memory: Self)
        ensures
            memory.is_zeroed(),
            memory.wf(),
            memory@ == Seq::<MemoryMapEntry>::empty(),
    {
        MemoryInfo {
            total_physical_memory: 0,
            available_memory: 0,
            memory_map: [MemoryMapEntry::default(); MEMORY_MAP_CAPACITY],
            memory_map_entries: 0,
        }
    }
}

/// The processor as found at boot.
#[derive(Clone, Copy)]
pub struct CPUInfo {
    pub clock_speed: u8,
    pub logical_cpus: u8,
}

impl CPUInfo {
    pub open spec fn is_zeroed(&self) -> bool {
        &&& self.clock_speed == 0
        &&& self.logical_cpus == 0
    }
}

impl Default for CPUInfo {
    fn default() -> (cpu: Self)
        ensures
            cpu.is_zeroed(),
    {
        CPUInfo { clock_speed: 0, logical_cpus: 0 }
    }
}

/// Flags that steer the boot.
#[derive(Clone, Copy)]
pub struct Config {
    /// Suppress graphical and console output.
    pub headless: bool,
}

impl Config {
    pub open spec fn is_zeroed(&self) -> bool {
        !self.headless
    }
}

impl Default for Config {
    fn default() -> (config: Self)
        ensures
            config.is_zeroed(),
    {
        Config { headless: false }
    }
}

/// The table that the loader hands to the kernel.
#[derive(Clone, Copy)]
pub struct BootInfo {
    pub early_log_buffer: EarlyLogBuffer,
    pub framebuffer: Framebuffer,
    pub console: Console,
    pub serial: Serial,
    pub critical_components: CriticalComponents,
    pub memory_info: MemoryInfo,
    pub cpu_info: CPUInfo,
    pub config: Config,
}

impl BootInfo {
    /// The cursors of the early log lie inside its buffer and the memory map
    /// reports no more entries than it has slots.
    pub open spec fn wf(&self) -> bool {
        &&& self.early_log_buffer.wf()
        &&& self.memory_info.wf()
    }

    /// Every sub-record is in its zero state.
    pub open spec fn is_zeroed(&self) -> bool {
        &&& self.early_log_buffer.is_zeroed()
        &&& self.framebuffer.is_zeroed()
        &&& self.console.is_zeroed()
        &&& self.serial.is_zeroed()
        &&& self.critical_components.is_zeroed()
        &&& self.memory_info.is_zeroed()
        &&& self.cpu_info.is_zeroed()
        &&& self.config.is_zeroed()
    }
}

impl Default for BootInfo {
    /// The table before the loader has filled anything in.
    fn default() -> (info: Self)
        ensures
            info.is_zeroed(),
            info.wf(),
            info.critical_components.none_present(),
            info.memory_info.memory_map_entries == 0,
            info.early_log_buffer.size == 0,
            info.early_log_buffer.index == 0,
            info.early_log_buffer.last_flush_index == 0,
            forall|i: int| 0 <= i < EARLY_LOG_CAPACITY ==> info.early_log_buffer.buffer[i] == '\0',
            !info.framebuffer.enabled,
            !info.serial.enabled,
            !info.config.headless,
    {
        BootInfo {
            early_log_buffer: EarlyLogBuffer::default(),
            framebuffer: Framebuffer::default(),
            console: Console::default(),
            serial: Serial::default(),
            critical_components: CriticalComponents::default(),
            memory_info: MemoryInfo::default(),
            cpu_info: CPUInfo::default(),
            config: Config::default(),
        }
    }
}

} // verus!
