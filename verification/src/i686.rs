//! Segment descriptors and the Global Descriptor Table of 32-bit x86.

use vstd::prelude::*;

verus! {

/// Flag bits that every descriptor built here carries in the high nibble of
/// its granularity byte: page granularity and 32-bit operand size.
pub const FORCED_FLAGS: u8 = 0xC0;

/// Number of descriptors in the table.
pub const GDT_ENTRY_COUNT: usize = 5;

/// Size in bytes of one descriptor.
pub const GDT_ENTRY_SIZE: usize = 8;

/// Size in bytes of the whole table.
pub const GDT_SIZE: usize = GDT_ENTRY_COUNT * GDT_ENTRY_SIZE;

/// Mask of the twenty bits of a segment limit that a descriptor can hold.
pub const LIMIT_MASK: u32 = 0xF_FFFF;

/// What a descriptor means once its split fields are put back together.
pub struct SegmentDescriptor {
    /// Linear address at which the segment starts.
    pub base: nat,
    /// Segment limit, twenty bits wide.
    pub limit: nat,
    /// The access-rights byte.
    pub access: nat,
    /// The four flag bits: granularity, operand size, long mode, available.
    pub flags: nat,
}

/// One descriptor as the processor reads it: eight bytes, split as the
/// segmentation hardware prescribes.
pub struct GDTEntry {
    /// Bits 0..16 of the segment limit.
    pub limit_low: u16,
    /// Bits 0..16 of the segment base.
    pub base_low: u16,
    /// Bits 16..24 of the segment base.
    pub base_middle: u8,
    /// The access-rights byte.
    pub access: u8,
    /// Low nibble: bits 16..20 of the segment limit. High nibble: the flags.
    pub granularity: u8,
    /// Bits 24..32 of the segment base.
    pub base_high: u8,
}

impl View for GDTEntry {
    type V = SegmentDescriptor;

    /// Reassembles the fields as the processor does when it loads the
    /// descriptor.
    open spec fn view(&self) -> SegmentDescriptor {
        SegmentDescriptor {
            base: (self.base_low as u32 | (self.base_middle as u32) << 16 | (self.base_high as u32)
                << 24) as nat,
            limit: (self.limit_low as u32 | ((self.granularity & 0x0F) as u32) << 16) as nat,
            access: self.access as nat,
            flags: (self.granularity >> 4) as nat,
        }
    }
}

impl GDTEntry {
    /// The descriptor that the processor's layout assigns to a segment with
    /// the given base, limit, access byte and flags.
    ///
    /// Only the high nibble of `granularity` is taken from the caller; the low
    /// nibble of the stored byte belongs to the limit.
    pub open spec fn encode(base: u32, limit: u32, access: u8, granularity: u8) -> GDTEntry {
        GDTEntry {
            limit_low: (limit & 0xFFFF) as u16,
            base_low: (base & 0xFFFF) as u16,
            base_middle: ((base >> 16) & 0xFF) as u8,
            access,
            granularity: (((limit >> 16) & 0x0F) as u8) | (granularity & 0xF0) | FORCED_FLAGS,
            base_high: ((base >> 24) & 0xFF) as u8,
        }
    }

    /// The eight bytes of the descriptor in the order in which the processor
    /// reads them from memory, the two-byte fields low byte first.
    pub open spec fn bytes(&self) -> Seq<u8> {
        seq![
            (self.limit_low & 0xFF) as u8,
            (self.limit_low >> 8) as u8,
            (self.base_low & 0xFF) as u8,
            (self.base_low >> 8) as u8,
            self.base_middle,
            self.access,
            self.granularity,
            self.base_high,
        ]
    }

    /// Builds the descriptor for a segment. Read back, the descriptor gives
    /// the base and the access byte unchanged, the low twenty bits of the
    /// limit, and the caller's flags together with the two forced ones.
    pub fn new(base: u32, limit: u32, access: u8, granularity: u8) -> (entry: Self)
        ensures
            entry == Self::encode(base, limit, access, granularity),
            entry@.base == base,
            entry@.limit == limit & LIMIT_MASK,
            limit <= LIMIT_MASK ==> entry@.limit == limit,
            entry@.access == access,
            entry@.flags == ((granularity >> 4) | 0x0C),
    {
        proof {
            Self::lemma_encode_wide_limit(base, limit, access, granularity);
            if limit <= LIMIT_MASK {
                Self::lemma_encode_round_trip(base, limit, access, granularity);
            }
        }
        assert(limit & 0xFFFF <= 0xFFFF) by (bit_vector);
        assert(base & 0xFFFF <= 0xFFFF) by (bit_vector);
        assert((base >> 16) & 0xFF <= 0xFF) by (bit_vector);
        assert((base >> 24) & 0xFF <= 0xFF) by (bit_vector);
        assert((limit >> 16) & 0x0F <= 0x0F) by (bit_vector);
        let limit_high: u8 = ((limit >> 16) & 0x0F) as u8;
        GDTEntry {
            limit_low: (limit & 0xFFFF) as u16,
            base_low: (base & 0xFFFF) as u16,
            base_middle: ((base >> 16) & 0xFF) as u8,
            access,
            granularity: limit_high | (granularity & 0xF0) | FORCED_FLAGS,
            base_high: ((base >> 24) & 0xFF) as u8,
        }
    }

    /// The segment base, reassembled from its three parts.
    pub fn base(&self) -> (base: u32)
        ensures
            base == self@.base,
    {
        (self.base_low as u32) | (self.base_middle as u32) << 16 | (self.base_high as u32) << 24
    }

    /// The segment limit, reassembled from its two parts.
    pub fn limit(&self) -> (limit: u32)
        ensures
            limit == self@.limit,
            limit <= LIMIT_MASK,
    {
        let low = self.limit_low;
        let gran = self.granularity;
        assert((low as u32 | ((gran & 0x0F) as u32) << 16) <= 0xF_FFFF) by (bit_vector);
        (self.limit_low as u32) | ((self.granularity & 0x0F) as u32) << 16
    }

    /// The four flag bits held in the high nibble of the granularity byte.
    pub fn flags(&self) -> (flags: u8)
        ensures
            flags == self@.flags,
            flags <= 0x0F,
    {
        let gran = self.granularity;
        assert(gran >> 4 <= 0x0F) by (bit_vector);
        self.granularity >> 4
    }

    /// The descriptor as the bytes that go into the table in memory.
    pub fn to_bytes(&self) -> (image: [u8; GDT_ENTRY_SIZE])
        ensures
            image@ == self.bytes(),
    {
        let limit_low = self.limit_low;
        let base_low = self.base_low;
        assert(limit_low & 0xFF <= 0xFF && limit_low >> 8 <= 0xFF) by (bit_vector);
        assert(base_low & 0xFF <= 0xFF && base_low >> 8 <= 0xFF) by (bit_vector);
        [
            (limit_low & 0xFF) as u8,
            (limit_low >> 8) as u8,
            (base_low & 0xFF) as u8,
            (base_low >> 8) as u8,
            self.base_middle,
            self.access,
            self.granularity,
            self.base_high,
        ]
    }

    /// Encoding a segment and reading the descriptor back gives the same base
    /// and access byte, the same limit when the limit fits in twenty bits, and
    /// the caller's flags together with the two forced ones.
    pub proof fn lemma_encode_round_trip(base: u32, limit: u32, access: u8, granularity: u8)
        requires
            limit <= LIMIT_MASK,
        ensures
            Self::encode(base, limit, access, granularity)@.base == base,
            Self::encode(base, limit, access, granularity)@.limit == limit,
            Self::encode(base, limit, access, granularity)@.access == access,
            Self::encode(base, limit, access, granularity)@.flags == ((granularity >> 4) | 0x0C),
            granularity & FORCED_FLAGS == FORCED_FLAGS ==> Self::encode(
                base,
                limit,
                access,
                granularity,
            )@.flags == granularity >> 4,
    {
        Self::lemma_encode_wide_limit(base, limit, access, granularity);
        assert(limit & 0xF_FFFF == limit) by (bit_vector)
            requires
                limit <= 0xF_FFFF,
        ;
        assert(granularity & 0xC0 == 0xC0 ==> (granularity >> 4) | 0x0C == granularity >> 4)
            by (bit_vector);
    }

    /// For any limit, the descriptor keeps the low twenty bits of it; base,
    /// access byte and flags come back as for a limit that fits.
    pub proof fn lemma_encode_wide_limit(base: u32, limit: u32, access: u8, granularity: u8)
        ensures
            Self::encode(base, limit, access, granularity)@.base == base,
            Self::encode(base, limit, access, granularity)@.limit == limit & LIMIT_MASK,
            Self::encode(base, limit, access, granularity)@.access == access,
            Self::encode(base, limit, access, granularity)@.flags == ((granularity >> 4) | 0x0C),
    {
        assert(((base & 0xFFFF) as u16) as u32 | ((((base >> 16) & 0xFF) as u8) as u32) << 16 | ((((
        base >> 24) & 0xFF) as u8) as u32) << 24 == base) by (bit_vector);
        assert(((limit & 0xFFFF) as u16) as u32 | ((((((limit >> 16) & 0x0F) as u8) | (granularity
            & 0xF0) | 0xC0) & 0x0F) as u32) << 16 == limit & 0xF_FFFF) by (bit_vector);
        assert(((((limit >> 16) & 0x0F) as u8) | (granularity & 0xF0) | 0xC0) >> 4 == (granularity
            >> 4) | 0x0C) by (bit_vector);
    }

    /// The bytes of an encoded segment, taken straight from its base and limit:
    /// limit bits 0..16, base bits 0..24, the access byte, the flags over
    /// limit bits 16..20, base bits 24..32.
    pub proof fn lemma_encode_bytes(base: u32, limit: u32, access: u8, granularity: u8)
        ensures
            Self::encode(base, limit, access, granularity).bytes() == seq![
                (limit & 0xFF) as u8,
                ((limit >> 8) & 0xFF) as u8,
                (base & 0xFF) as u8,
                ((base >> 8) & 0xFF) as u8,
                ((base >> 16) & 0xFF) as u8,
                access,
                (((limit >> 16) & 0x0F) as u8) | (granularity & 0xF0) | FORCED_FLAGS,
                ((base >> 24) & 0xFF) as u8,
            ],
    {
        assert((((limit & 0xFFFF) as u16) & 0xFF) as u8 == (limit & 0xFF) as u8 && (((limit
            & 0xFFFF) as u16) >> 8) as u8 == ((limit >> 8) & 0xFF) as u8) by (bit_vector);
        assert((((base & 0xFFFF) as u16) & 0xFF) as u8 == (base & 0xFF) as u8 && (((base
            & 0xFFFF) as u16) >> 8) as u8 == ((base >> 8) & 0xFF) as u8) by (bit_vector);
    }

    /// A segment whose limit has all bits set is stored with all sixteen low
    /// limit bits set and with the low nibble of the granularity byte full.
    pub proof fn lemma_full_limit(base: u32, access: u8, granularity: u8)
        ensures
            Self::encode(base, 0xFFFF_FFFF, access, granularity).limit_low == 0xFFFF,
            Self::encode(base, 0xFFFF_FFFF, access, granularity).granularity & 0x0F == 0x0F,
            Self::encode(base, 0xFFFF_FFFF, access, granularity)@.limit == LIMIT_MASK,
    {
        Self::lemma_encode_wide_limit(base, 0xFFFF_FFFF, access, granularity);
        assert((0xFFFF_FFFFu32 & 0xFFFF) as u16 == 0xFFFF) by (bit_vector);
        assert(((((0xFFFF_FFFFu32 >> 16) & 0x0F) as u8) | (granularity & 0xF0) | 0xC0) & 0x0F
            == 0x0F) by (bit_vector);
        assert(0xFFFF_FFFFu32 & 0xF_FFFF == 0xF_FFFF) by (bit_vector);
    }
}

/// Names one of the five descriptors of the table, in table order.
#[derive(Clone, Copy, PartialEq, Eq, Structural)]
pub enum Segment {
    /// The null descriptor that selector 0 must name.
    Null,
    /// Supervisor code.
    SysCode,
    /// Supervisor data.
    SysData,
    /// User code.
    UserCode,
    /// User data.
    UserData,
}

impl Segment {
    /// Position of the descriptor in the table.
    pub open spec fn index(self) -> nat {
        match self {
            Segment::Null => 0,
            Segment::SysCode => 1,
            Segment::SysData => 2,
            Segment::UserCode => 3,
            Segment::UserData => 4,
        }
    }

    /// Byte offset of the descriptor from the start of the table.
    pub open spec fn offset(self) -> int {
        self.index() * GDT_ENTRY_SIZE
    }
}

/// The table of five descriptors: null, supervisor code and data, user code
/// and data.
pub struct GlobalDescriptorTable {
    pub null: GDTEntry,
    pub sys_code: GDTEntry,
    pub sys_data: GDTEntry,
    pub user_code: GDTEntry,
    pub user_data: GDTEntry,
}

impl View for GlobalDescriptorTable {
    type V = Seq<GDTEntry>;

    /// The descriptors in the order in which they lie in memory.
    open spec fn view(&self) -> Seq<GDTEntry> {
        seq![self.null, self.sys_code, self.sys_data, self.user_code, self.user_data]
    }
}

impl GlobalDescriptorTable {
    /// The descriptor that a name stands for.
    pub open spec fn entry(&self, segment: Segment) -> GDTEntry {
        match segment {
            Segment::Null => self.null,
            Segment::SysCode => self.sys_code,
            Segment::SysData => self.sys_data,
            Segment::UserCode => self.user_code,
            Segment::UserData => self.user_data,
        }
    }

    /// Whether the table holds the five descriptors of the fixed policy: a
    /// null descriptor, flat 4 GiB supervisor code and data, and empty user
    /// code and data.
    pub open spec fn is_flat_policy(&self) -> bool {
        &&& self.null == GDTEntry::encode(0, 0, 0x00, 0x00)
        &&& self.sys_code == GDTEntry::encode(0, 0xFFFF_FFFF, 0x9A, 0xCF)
        &&& self.sys_data == GDTEntry::encode(0, 0xFFFF_FFFF, 0x92, 0xCF)
        &&& self.user_code == GDTEntry::encode(0, 0, 0x9A, 0xCF)
        &&& self.user_data == GDTEntry::encode(0, 0, 0x92, 0xCF)
    }

    /// The table as it lies in memory: the bytes of the five descriptors one
    /// after the other.
    pub open spec fn bytes(&self) -> Seq<u8> {
        self.null.bytes() + self.sys_code.bytes() + self.sys_data.bytes() + self.user_code.bytes()
            + self.user_data.bytes()
    }

    /// The fields of the five descriptors of the fixed policy, written out.
    /// The supervisor segments span the whole address space; the user segments
    /// are empty; the null descriptor carries nothing but the forced flags.
    pub proof fn lemma_flat_policy_fields(&self)
        requires
            self.is_flat_policy(),
        ensures
            self.null == (GDTEntry {
                limit_low: 0,
                base_low: 0,
                base_middle: 0,
                access: 0x00,
                granularity: 0xC0,
                base_high: 0,
            }),
            self.sys_code == (GDTEntry {
                limit_low: 0xFFFF,
                base_low: 0,
                base_middle: 0,
                access: 0x9A,
                granularity: 0xCF,
                base_high: 0,
            }),
            self.sys_data == (GDTEntry {
                limit_low: 0xFFFF,
                base_low: 0,
                base_middle: 0,
                access: 0x92,
                granularity: 0xCF,
                base_high: 0,
            }),
            self.user_code == (GDTEntry {
                limit_low: 0,
                base_low: 0,
                base_middle: 0,
                access: 0x9A,
                granularity: 0xC0,
                base_high: 0,
            }),
            self.user_data == (GDTEntry {
                limit_low: 0,
                base_low: 0,
                base_middle: 0,
                access: 0x92,
                granularity: 0xC0,
                base_high: 0,
            }),
    {
        assert((0u32 & 0xFFFF) as u16 == 0 && ((0u32 >> 16) & 0xFF) as u8 == 0 && ((0u32 >> 24)
            & 0xFF) as u8 == 0 && (0xFFFF_FFFFu32 & 0xFFFF) as u16 == 0xFFFF) by (bit_vector);
        assert((((0u32 >> 16) & 0x0F) as u8) | (0x00u8 & 0xF0) | 0xC0 == 0xC0 && (((0u32 >> 16)
            & 0x0F) as u8) | (0xCFu8 & 0xF0) | 0xC0 == 0xC0 && (((0xFFFF_FFFFu32 >> 16)
            & 0x0F) as u8) | (0xCFu8 & 0xF0) | 0xC0 == 0xCF) by (bit_vector);
    }

    /// Byte offset of a descriptor from the start of the table, which is its
    /// selector with the privilege bits clear.
    pub fn get_selector_offset(&self, selector: Segment) -> (offset: u16)
        ensures
            offset == selector.offset(),
            offset == match selector {
                Segment::Null => 0u16,
                Segment::SysCode => 8u16,
                Segment::SysData => 16u16,
                Segment::UserCode => 24u16,
                Segment::UserData => 32u16,
            },
            offset + GDT_ENTRY_SIZE <= GDT_SIZE,
    {
        let index: usize = match selector {
            Segment::Null => 0,
            Segment::SysCode => 1,
            Segment::SysData => 2,
            Segment::UserCode => 3,
            Segment::UserData => 4,
        };
        (index * GDT_ENTRY_SIZE) as u16
    }

    /// The table as the bytes that the processor reads once it is loaded.
    pub fn to_bytes(&self) -> (image: [u8; GDT_SIZE])
        ensures
            image@ == self.bytes(),
    {
        let mut image = [0u8; GDT_SIZE];
        write_entry(&mut image, self.get_selector_offset(Segment::Null), &self.null);
        write_entry(&mut image, self.get_selector_offset(Segment::SysCode), &self.sys_code);
        write_entry(&mut image, self.get_selector_offset(Segment::SysData), &self.sys_data);
        write_entry(&mut image, self.get_selector_offset(Segment::UserCode), &self.user_code);
        write_entry(&mut image, self.get_selector_offset(Segment::UserData), &self.user_data);
        proof {
            self.lemma_image_layout(Segment::Null);
            self.lemma_image_layout(Segment::SysCode);
            self.lemma_image_layout(Segment::SysData);
            self.lemma_image_layout(Segment::UserCode);
            self.lemma_image_layout(Segment::UserData);
            assert(image@ =~= self.bytes());
        }
        image
    }

    /// The offset of a name leads to the descriptor it stands for. Counted in
    /// descriptors, it is the position of that descriptor in the table;
    /// counted in bytes, it is where the eight bytes of that descriptor start
    /// in the image of the table, which is forty bytes long.
    pub proof fn lemma_image_layout(&self, segment: Segment)
        ensures
            self@.len() == GDT_ENTRY_COUNT,
            self@[segment.offset() / (GDT_ENTRY_SIZE as int)] == self.entry(segment),
            self.bytes().len() == GDT_SIZE,
            0 <= segment.offset() <= GDT_SIZE - GDT_ENTRY_SIZE,
            self.bytes().subrange(segment.offset(), segment.offset() + GDT_ENTRY_SIZE)
                == self.entry(segment).bytes(),
    {
    }
}

/// Copies the bytes of one descriptor into the image of the table.
fn write_entry(image: &mut [u8; GDT_SIZE], offset: u16, entry: &GDTEntry)
    requires
        offset + GDT_ENTRY_SIZE <= GDT_SIZE,
    ensures
        final(image)@.subrange(offset as int, offset + GDT_ENTRY_SIZE) == entry.bytes(),
        forall|i: int|
            0 <= i < GDT_SIZE && !(offset <= i < offset + GDT_ENTRY_SIZE) ==> final(image)@[i]
                == old(image)@[i],
{
    let bytes = entry.to_bytes();
    let start = offset as usize;
    let mut k: usize = 0;
    while k < GDT_ENTRY_SIZE
        invariant
            k <= GDT_ENTRY_SIZE,
            start == offset,
            start + GDT_ENTRY_SIZE <= GDT_SIZE,
            bytes@ == entry.bytes(),
            forall|i: int| 0 <= i < k ==> image@[start + i] == bytes@[i],
            forall|i: int|
                0 <= i < GDT_SIZE && !(start <= i < start + GDT_ENTRY_SIZE) ==> image@[i] == old(
                    image,
                )@[i],
        decreases GDT_ENTRY_SIZE - k,
    {
        image[start + k] = bytes[k];
        k += 1;
    }
    assert(image@.subrange(offset as int, offset + GDT_ENTRY_SIZE) =~= entry.bytes());
}

impl Default for GlobalDescriptorTable {
    /// The table of the fixed policy.
    fn default() -> (table: Self)
        ensures
            table.is_flat_policy(),
    {
        Self {
            null: GDTEntry::new(0, 0, 0, 0),
            sys_code: GDTEntry::new(0, 0xffffffff, 0x9A, 0xCF),
            sys_data: GDTEntry::new(0, 0xffffffff, 0x92, 0xCF),
            user_code: GDTEntry::new(0, 0, 0x9A, 0xCF),
            user_data: GDTEntry::new(0, 0, 0x92, 0xCF),
        }
    }
}

/// The record that the processor's table-load instruction takes: the offset of
/// the table's last byte and the address of its first.
pub struct GDTPointer {
    pub limit: u16,
    pub base: usize,
}

impl GDTPointer {
    /// Whether the limit is the offset of the last byte of a table of five
    /// descriptors.
    pub open spec fn wf(&self) -> bool {
        self.limit == GDT_SIZE - 1
    }

    /// The limit of a well-formed pointer is the offset of the last byte of
    /// the table: the size of the table less one.
    pub proof fn lemma_limit_is_last_byte(&self, table: &GlobalDescriptorTable)
        requires
            self.wf(),
        ensures
            self.limit == table.bytes().len() - 1,
            self.limit == GDT_ENTRY_COUNT * GDT_ENTRY_SIZE - 1,
            self.limit == 39,
    {
    }

    /// The pointer to a table that lies at `base`.
    pub fn new(base: usize) -> (pointer: Self)
        ensures
            pointer.limit == GDT_ENTRY_COUNT * GDT_ENTRY_SIZE - 1,
            pointer.limit == 39,
            pointer.base == base,
            pointer.wf(),
    {
        GDTPointer { limit: (GDT_SIZE - 1) as u16, base }
    }
}

impl Default for GDTPointer {
    /// The pointer to a table at address zero.
    fn default() -> (pointer: Self)
        ensures
            pointer.limit == 39,
            pointer.base == 0,
            pointer.wf(),
    {
        GDTPointer::new(0)
    }
}

/// What early boot code needs on 32-bit x86: the descriptor table and the
/// pointer that loads it.
pub struct ArchBootInfo {
    pub global_descriptor_table: GlobalDescriptorTable,
    pub gdt_pointer: GDTPointer,
}

impl Default for ArchBootInfo {
    /// The table of the fixed policy, with a pointer whose base is still zero.
    fn default() -> (info: Self)
        ensures
            info.global_descriptor_table.is_flat_policy(),
            info.gdt_pointer.wf(),
            info.gdt_pointer.limit == 39,
            info.gdt_pointer.base == 0,
    {
        ArchBootInfo {
            global_descriptor_table: GlobalDescriptorTable::default(),
            gdt_pointer: GDTPointer::default(),
        }
    }
}

} // verus!
