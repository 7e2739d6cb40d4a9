use pallet_domains::unbuffered_io::{
    covers_whole_sectors, next_chunk_len, scratch_sectors, sector_range, SectorRange,
    DISK_SECTOR_SIZE, MAX_READ_SIZE,
};

#[test]
fn sector_ranges_hold_the_bytes() {
    assert_eq!(DISK_SECTOR_SIZE, 4096);
    assert_eq!(MAX_READ_SIZE % DISK_SECTOR_SIZE, 0);
    for sector in [512usize, 4096] {
        for (offset, size) in [
            (0usize, 512usize),
            (0, 4096),
            (0, 500),
            (0, 4000),
            (5, 50),
            (12, 500),
            (96, 4000),
            (4000, 96),
            (10000, 5),
            (0, MAX_READ_SIZE),
            (0, MAX_READ_SIZE * 2),
            (5, MAX_READ_SIZE - 5),
            (5, MAX_READ_SIZE * 2 - 5),
            (5, MAX_READ_SIZE),
            (5, MAX_READ_SIZE * 2),
            (MAX_READ_SIZE, MAX_READ_SIZE),
            (MAX_READ_SIZE, MAX_READ_SIZE * 2),
            (MAX_READ_SIZE + 5, MAX_READ_SIZE - 5),
            (MAX_READ_SIZE + 5, MAX_READ_SIZE * 2 - 5),
            (MAX_READ_SIZE + 5, MAX_READ_SIZE),
            (MAX_READ_SIZE + 5, MAX_READ_SIZE * 2),
        ] {
            let range = sector_range(offset as u64, size, sector);
            assert_eq!(range.aligned_offset as usize % sector, 0);
            assert_eq!(range.len % sector, 0);
            assert_eq!(range.aligned_offset as usize + range.padding, offset);
            assert!(range.padding + size <= range.len);
            assert!(range.len < range.padding + size + sector);
            // The chunks of the access cover it, and none needs more than one read.
            let mut at = offset as u64;
            let mut remaining = size;
            let mut chunks = 0;
            while remaining > 0 {
                let chunk = next_chunk_len(at, remaining, sector);
                assert!(chunk > 0 && chunk <= remaining);
                let sectors = sector_range(at, chunk, sector);
                assert!(sectors.len <= MAX_READ_SIZE);
                assert!(scratch_sectors(at, chunk) * DISK_SECTOR_SIZE >= chunk + at as usize % DISK_SECTOR_SIZE);
                at += chunk as u64;
                remaining -= chunk;
                chunks += 1;
            }
            assert!(chunks <= 3);
        }
    }
}

#[test]
fn sector_range_of_given_accesses() {
    assert_eq!(sector_range(5, 50, 512), SectorRange { aligned_offset: 0, padding: 5, len: 512 });
    assert_eq!(sector_range(4000, 96, 4096), SectorRange { aligned_offset: 0, padding: 4000, len: 4096 });
    assert_eq!(sector_range(4000, 97, 4096), SectorRange { aligned_offset: 0, padding: 4000, len: 8192 });
    assert_eq!(sector_range(10000, 5, 512), SectorRange { aligned_offset: 9728, padding: 272, len: 512 });
    assert_eq!(sector_range(1024, 0, 512), SectorRange { aligned_offset: 1024, padding: 0, len: 0 });
    assert_eq!(next_chunk_len(5, MAX_READ_SIZE * 2, 512), MAX_READ_SIZE - 5);
    assert_eq!(next_chunk_len(5 + (MAX_READ_SIZE - 5) as u64, MAX_READ_SIZE + 5, 512), MAX_READ_SIZE);
    assert_eq!(next_chunk_len(7, 100, 4096), 100);
    assert_eq!(next_chunk_len(7, 0, 4096), 0);
    assert_eq!(scratch_sectors(0, 4096), 1);
    assert_eq!(scratch_sectors(1, 4096), 2);
    assert_eq!(scratch_sectors(4095, 2), 2);
    assert!(covers_whole_sectors(512, 1024, 512));
    assert!(!covers_whole_sectors(512, 1000, 512));
    assert!(!covers_whole_sectors(500, 1024, 512));
}
