use bootinfo::i686::{
    ArchBootInfo, GDTEntry, GDTPointer, GlobalDescriptorTable, Segment, FORCED_FLAGS,
    GDT_ENTRY_COUNT, GDT_ENTRY_SIZE, GDT_SIZE, LIMIT_MASK,
};

fn fields(entry: &GDTEntry) -> (u16, u16, u8, u8, u8, u8) {
    (
        entry.limit_low,
        entry.base_low,
        entry.base_middle,
        entry.access,
        entry.granularity,
        entry.base_high,
    )
}

#[test]
fn entry_splits_base_and_limit() {
    let entry = GDTEntry::new(0x1234_5678, 0x000A_BCDE, 0x9A, 0x40);
    assert_eq!(entry.limit_low, 0xBCDE);
    assert_eq!(entry.base_low, 0x5678);
    assert_eq!(entry.base_middle, 0x34);
    assert_eq!(entry.access, 0x9A);
    assert_eq!(entry.granularity, 0xCA);
    assert_eq!(entry.base_high, 0x12);
}

#[test]
fn entry_round_trip() {
    let entry = GDTEntry::new(0x1234_5678, 0x000A_BCDE, 0x9A, 0xC0);
    assert_eq!(entry.base(), 0x1234_5678);
    assert_eq!(entry.limit(), 0x000A_BCDE);
    assert_eq!(entry.access, 0x9A);
    assert_eq!(entry.flags(), 0x0C);
}

#[test]
fn entry_round_trip_over_many_values() {
    let bases = [0u32, 1, 0xFFFF, 0x1_0000, 0x00FF_FFFF, 0x0100_0000, 0x8000_0001, 0xFFFF_FFFF];
    let limits = [0u32, 1, 0xFFFF, 0x1_0000, 0x7_1234, 0xF_FFFF];
    let accesses = [0u8, 0x92, 0x9A, 0xFA, 0xFF];
    let granularities = [0u8, 0x10, 0x4F, 0x80, 0xC0, 0xCF, 0xF0, 0xFF];
    for &base in bases.iter() {
        for &limit in limits.iter() {
            for &access in accesses.iter() {
                for &granularity in granularities.iter() {
                    let entry = GDTEntry::new(base, limit, access, granularity);
                    assert_eq!(entry.base(), base);
                    assert_eq!(entry.limit(), limit);
                    assert_eq!(entry.access, access);
                    assert_eq!(entry.flags(), (granularity >> 4) | 0x0C);
                }
            }
        }
    }
}

#[test]
fn entry_forces_granularity_flags() {
    assert_eq!(FORCED_FLAGS, 0xC0);
    assert_eq!(GDTEntry::new(0, 0, 0, 0x00).granularity, 0xC0);
    assert_eq!(GDTEntry::new(0, 0, 0, 0x10).granularity, 0xD0);
    assert_eq!(GDTEntry::new(0, 0, 0, 0x30).flags(), 0x0F);
    assert_eq!(GDTEntry::new(0, 0, 0, 0xC0).flags(), 0x0C);
}

#[test]
fn entry_low_nibble_belongs_to_limit() {
    assert_eq!(GDTEntry::new(0, 0, 0x9A, 0x0F).granularity, 0xC0);
    assert_eq!(GDTEntry::new(0, 0x0005_0000, 0x9A, 0x0F).granularity, 0xC5);
    assert_eq!(GDTEntry::new(0, 0x0005_0000, 0x9A, 0xCF).limit(), 0x0005_0000);
}

#[test]
fn entry_keeps_low_twenty_bits_of_wide_limit() {
    assert_eq!(LIMIT_MASK, 0x000F_FFFF);
    let over = GDTEntry::new(0, 0x0010_0000, 0x92, 0xC0);
    assert_eq!(over.limit_low, 0);
    assert_eq!(over.granularity, 0xC0);
    assert_eq!(over.limit(), 0);
    let mixed = GDTEntry::new(0, 0xABC1_2345, 0x92, 0xC0);
    assert_eq!(mixed.limit(), 0x0001_2345);
    let full = GDTEntry::new(0, 0xFFFF_FFFF, 0x92, 0xC0);
    assert_eq!(full.limit(), 0x000F_FFFF);
}

#[test]
fn full_limit_fills_limit_low_and_low_nibble() {
    for &access in [0x9Au8, 0x92].iter() {
        for &granularity in [0x00u8, 0x40, 0xCF, 0xF0].iter() {
            let entry = GDTEntry::new(0xDEAD_BEEF, 0xFFFF_FFFF, access, granularity);
            assert_eq!(entry.limit_low, 0xFFFF);
            assert_eq!(entry.granularity & 0x0F, 0x0F);
        }
    }
}

#[test]
fn decoders_read_hand_built_entry() {
    let entry = GDTEntry {
        limit_low: 0x4321,
        base_low: 0xBEEF,
        base_middle: 0xAD,
        access: 0xF2,
        granularity: 0x8B,
        base_high: 0xDE,
    };
    assert_eq!(entry.base(), 0xDEAD_BEEF);
    assert_eq!(entry.limit(), 0x000B_4321);
    assert_eq!(entry.flags(), 0x08);
}

#[test]
fn default_table_follows_fixed_policy() {
    let table = GlobalDescriptorTable::default();
    assert_eq!(fields(&table.null), (0, 0, 0, 0x00, 0xC0, 0));
    assert_eq!(fields(&table.sys_code), (0xFFFF, 0, 0, 0x9A, 0xCF, 0));
    assert_eq!(fields(&table.sys_data), (0xFFFF, 0, 0, 0x92, 0xCF, 0));
    assert_eq!(fields(&table.user_code), (0, 0, 0, 0x9A, 0xC0, 0));
    assert_eq!(fields(&table.user_data), (0, 0, 0, 0x92, 0xC0, 0));
}

#[test]
fn default_table_supervisor_segments_are_flat() {
    let table = GlobalDescriptorTable::default();
    for entry in [&table.sys_code, &table.sys_data] {
        assert_eq!(entry.base(), 0);
        assert_eq!(entry.limit(), 0x000F_FFFF);
        assert_eq!(entry.flags(), 0x0C);
        assert_eq!(entry.limit_low, 0xFFFF);
        assert_eq!(entry.granularity & 0x0F, 0x0F);
    }
}

#[test]
fn default_table_user_segments_are_empty() {
    let table = GlobalDescriptorTable::default();
    for entry in [&table.user_code, &table.user_data] {
        assert_eq!(entry.base(), 0);
        assert_eq!(entry.limit(), 0);
        assert_eq!(entry.flags(), 0x0C);
    }
}

#[test]
fn default_table_matches_entries_built_one_by_one() {
    let table = GlobalDescriptorTable::default();
    assert_eq!(fields(&table.null), fields(&GDTEntry::new(0, 0, 0x00, 0x00)));
    assert_eq!(fields(&table.sys_code), fields(&GDTEntry::new(0, 0xFFFF_FFFF, 0x9A, 0xCF)));
    assert_eq!(fields(&table.sys_data), fields(&GDTEntry::new(0, 0xFFFF_FFFF, 0x92, 0xCF)));
    assert_eq!(fields(&table.user_code), fields(&GDTEntry::new(0, 0, 0x9A, 0xCF)));
    assert_eq!(fields(&table.user_data), fields(&GDTEntry::new(0, 0, 0x92, 0xCF)));
}

#[test]
fn selector_offset_of_sys_data_is_16() {
    let table = GlobalDescriptorTable::default();
    assert_eq!(table.get_selector_offset(Segment::SysData), 16);
}

#[test]
fn selector_offsets_in_table_order() {
    let table = GlobalDescriptorTable::default();
    let order = [
        Segment::Null,
        Segment::SysCode,
        Segment::SysData,
        Segment::UserCode,
        Segment::UserData,
    ];
    let offsets: Vec<u16> = order.iter().map(|&s| table.get_selector_offset(s)).collect();
    assert_eq!(offsets, vec![0, 8, 16, 24, 32]);
}

#[test]
fn selector_offsets_do_not_depend_on_contents() {
    let table = GlobalDescriptorTable {
        null: GDTEntry::new(1, 2, 3, 4),
        sys_code: GDTEntry::new(5, 6, 7, 8),
        sys_data: GDTEntry::new(9, 10, 11, 12),
        user_code: GDTEntry::new(13, 14, 15, 16),
        user_data: GDTEntry::new(17, 18, 19, 20),
    };
    assert_eq!(table.get_selector_offset(Segment::Null), 0);
    assert_eq!(table.get_selector_offset(Segment::UserData), 32);
}

#[test]
fn selector_offsets_stay_inside_table() {
    let table = GlobalDescriptorTable::default();
    let pointer = GDTPointer::new(0);
    for segment in [
        Segment::Null,
        Segment::SysCode,
        Segment::SysData,
        Segment::UserCode,
        Segment::UserData,
    ] {
        let offset = table.get_selector_offset(segment);
        assert_eq!(offset as usize % GDT_ENTRY_SIZE, 0);
        assert!(offset + 7 <= pointer.limit);
    }
}

#[test]
fn pointer_limit_is_39() {
    assert_eq!(GDT_ENTRY_COUNT, 5);
    assert_eq!(GDT_ENTRY_SIZE, 8);
    for &base in [0usize, 1, 0x1000, 0x0010_0000, usize::MAX].iter() {
        let pointer = GDTPointer::new(base);
        assert_eq!(pointer.limit, 39);
        assert_eq!(pointer.limit as usize, GDT_ENTRY_COUNT * GDT_ENTRY_SIZE - 1);
        assert_eq!(pointer.limit as usize, GDT_SIZE - 1);
        assert_eq!(pointer.base, base);
    }
}

#[test]
fn default_pointer_has_table_limit_and_zero_base() {
    let pointer = GDTPointer::default();
    assert_eq!(pointer.limit, 39);
    assert_eq!(pointer.base, 0);
}

#[test]
fn default_arch_boot_info() {
    let info = ArchBootInfo::default();
    assert_eq!(fields(&info.global_descriptor_table.sys_code), (0xFFFF, 0, 0, 0x9A, 0xCF, 0));
    assert_eq!(fields(&info.global_descriptor_table.user_data), (0, 0, 0, 0x92, 0xC0, 0));
    assert_eq!(info.gdt_pointer.limit, 39);
    assert_eq!(info.gdt_pointer.base, 0);
}

#[test]
fn entry_bytes_in_memory_order() {
    let entry = GDTEntry::new(0x1234_5678, 0x000A_BCDE, 0x9A, 0x40);
    assert_eq!(entry.to_bytes(), [0xDE, 0xBC, 0x78, 0x56, 0x34, 0x9A, 0xCA, 0x12]);
    assert_eq!(u64::from_le_bytes(entry.to_bytes()), 0x12CA_9A34_5678_BCDE);
}

#[test]
fn entry_bytes_follow_fields() {
    let entry = GDTEntry {
        limit_low: 0x0102,
        base_low: 0x0304,
        base_middle: 0x05,
        access: 0x06,
        granularity: 0x07,
        base_high: 0x08,
    };
    assert_eq!(entry.to_bytes(), [0x02, 0x01, 0x04, 0x03, 0x05, 0x06, 0x07, 0x08]);
}

#[test]
fn default_table_image() {
    let image = GlobalDescriptorTable::default().to_bytes();
    assert_eq!(image.len(), 40);
    assert_eq!(GDT_SIZE, 40);
    let expected: [u8; 40] = [
        0x00, 0x00, 0x00, 0x00, 0x00, 0x00, 0xC0, 0x00, //
        0xFF, 0xFF, 0x00, 0x00, 0x00, 0x9A, 0xCF, 0x00, //
        0xFF, 0xFF, 0x00, 0x00, 0x00, 0x92, 0xCF, 0x00, //
        0x00, 0x00, 0x00, 0x00, 0x00, 0x9A, 0xC0, 0x00, //
        0x00, 0x00, 0x00, 0x00, 0x00, 0x92, 0xC0, 0x00,
    ];
    assert_eq!(image, expected);
}

#[test]
fn table_image_holds_each_entry_at_its_offset() {
    let table = GlobalDescriptorTable {
        null: GDTEntry::new(0x0101_0101, 0x1_1111, 0x11, 0x10),
        sys_code: GDTEntry::new(0x0202_0202, 0x2_2222, 0x22, 0x20),
        sys_data: GDTEntry::new(0x0303_0303, 0x3_3333, 0x33, 0x30),
        user_code: GDTEntry::new(0x0404_0404, 0x4_4444, 0x44, 0x40),
        user_data: GDTEntry::new(0x0505_0505, 0x5_5555, 0x55, 0x50),
    };
    let image = table.to_bytes();
    let named = [
        (Segment::Null, &table.null),
        (Segment::SysCode, &table.sys_code),
        (Segment::SysData, &table.sys_data),
        (Segment::UserCode, &table.user_code),
        (Segment::UserData, &table.user_data),
    ];
    for (segment, entry) in named {
        let offset = table.get_selector_offset(segment) as usize;
        assert_eq!(image[offset..offset + GDT_ENTRY_SIZE], entry.to_bytes());
    }
    let pointer = GDTPointer::new(0x1000);
    assert_eq!(pointer.limit as usize, image.len() - 1);
}
