use wark::memory::{
    ceiling_pages, checked_ceiling_pages, declared_mb, LimitError, LimitingTunables, MemoryType,
    TableType, PAGES_PER_MB,
};

#[test]
fn a_megabyte_is_sixteen_pages() {
    assert_eq!(PAGES_PER_MB, 16);
    assert_eq!(ceiling_pages(0), 0);
    assert_eq!(ceiling_pages(1), 16);
    assert_eq!(ceiling_pages(4), 64);
    assert_eq!(ceiling_pages(512), 8192);
    assert_eq!(ceiling_pages(u32::MAX / 16), 0xffff_fff0);
}

#[test]
fn declared_megabytes_round_up() {
    assert_eq!(declared_mb(0), 0);
    assert_eq!(declared_mb(1), 1);
    assert_eq!(declared_mb(16), 1);
    assert_eq!(declared_mb(17), 2);
    assert_eq!(declared_mb(100), 7);
    assert_eq!(declared_mb(65536), 4096);
    assert_eq!(declared_mb(u32::MAX - 15), 0x0fff_ffff);
}

#[test]
fn the_maximum_is_capped_at_the_ceiling() {
    let tunables = LimitingTunables::new(64);
    assert_eq!(tunables.limit(), 64);
    let requested = MemoryType { minimum: 3, maximum: Some(1000), shared: false };
    assert_eq!(
        tunables.adjust_memory(&requested),
        MemoryType { minimum: 3, maximum: Some(64), shared: false }
    );
}

#[test]
fn a_maximum_under_the_ceiling_is_kept() {
    let tunables = LimitingTunables::new(64);
    let requested = MemoryType { minimum: 3, maximum: Some(12), shared: true };
    assert_eq!(
        tunables.adjust_memory(&requested),
        MemoryType { minimum: 3, maximum: Some(12), shared: true }
    );
    let requested = MemoryType { minimum: 3, maximum: Some(64), shared: true };
    assert_eq!(tunables.adjust_memory(&requested).maximum, Some(64));
}

#[test]
fn the_ceiling_stands_in_for_a_missing_maximum() {
    let tunables = LimitingTunables::new(64);
    let requested = MemoryType { minimum: 0, maximum: None, shared: false };
    assert_eq!(
        tunables.adjust_memory(&requested),
        MemoryType { minimum: 0, maximum: Some(64), shared: false }
    );
}

#[test]
fn adjusting_leaves_a_minimum_above_the_ceiling_alone() {
    let tunables = LimitingTunables::new(64);
    let requested = MemoryType { minimum: 100, maximum: None, shared: false };
    assert_eq!(tunables.adjust_memory(&requested).minimum, 100);
}

#[test]
fn a_memory_of_a_hundred_pages_is_refused_under_four_megabytes() {
    let tunables = LimitingTunables::new(ceiling_pages(4));
    let declared = MemoryType { minimum: 100, maximum: None, shared: false };
    assert_eq!(
        tunables.validate_memory(&declared),
        Err(LimitError::MemoryMinimumExceedsLimit { minimum: 100, limit: 64 })
    );
}

#[test]
fn a_memory_at_the_ceiling_is_accepted() {
    let tunables = LimitingTunables::new(64);
    for minimum in [0, 1, 63, 64] {
        let declared = MemoryType { minimum, maximum: Some(70000), shared: false };
        assert_eq!(tunables.validate_memory(&declared), Ok(()));
    }
    let declared = MemoryType { minimum: 65, maximum: Some(65), shared: false };
    assert!(tunables.validate_memory(&declared).is_err());
}

#[test]
fn a_table_is_held_to_the_ceiling_by_its_minimum() {
    let tunables = LimitingTunables::new(64);
    assert_eq!(tunables.validate_table(&TableType { minimum: 64, maximum: None }), Ok(()));
    assert_eq!(
        tunables.validate_table(&TableType { minimum: 65, maximum: Some(70) }),
        Err(LimitError::TableMinimumExceedsLimit { minimum: 65, limit: 64 })
    );
}

#[test]
fn what_is_accepted_declares_no_more_megabytes_than_the_ceiling() {
    for megabytes in [1u32, 2, 4, 7, 512] {
        let tunables = LimitingTunables::new(ceiling_pages(megabytes));
        for minimum in 0..=(megabytes * 16 + 20) {
            let declared = MemoryType { minimum, maximum: None, shared: false };
            if tunables.validate_memory(&declared).is_ok() {
                assert!(declared_mb(minimum) <= megabytes);
            } else {
                assert!(minimum > megabytes * 16);
            }
        }
    }
}

#[test]
fn a_ceiling_beyond_32_bits_of_pages_is_no_ceiling() {
    assert_eq!(checked_ceiling_pages(4), Some(64));
    assert_eq!(checked_ceiling_pages(0x0fff_ffff), Some(0xffff_fff0));
    assert_eq!(checked_ceiling_pages(0x1000_0000), None);
    assert_eq!(checked_ceiling_pages(u32::MAX), None);
}
