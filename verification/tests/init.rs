use faces_pfm::memmap::{MemmapEntry, MEMMAP_USABLE};
use faces_pfm::{PageFlags, PageFrame, PageFrameManager};

const RESERVED_TYPE: u64 = 1;

fn entry(base: u64, length: u64, type_: u64) -> MemmapEntry {
    MemmapEntry { base, length, type_ }
}

fn required(num_frames: usize) -> usize {
    let raw = num_frames * std::mem::size_of::<PageFrame>();
    raw.next_multiple_of(4096)
}

fn reserved(pfm: &PageFrameManager, pfn: usize) -> bool {
    pfm.check_flags(pfn, PageFlags::RESERVED())
}

#[test]
fn total_memory_sums_every_entry() {
    let map = [
        entry(0, 0x1000, MEMMAP_USABLE),
        entry(0x1000, 0x2000, RESERVED_TYPE),
        entry(0x10000, 0x3000, 7),
    ];
    assert_eq!(PageFrameManager::detect_total_physical_memory(&map), 0x6000);
    assert_eq!(PageFrameManager::detect_total_physical_memory(&[]), 0);
}

#[test]
fn better_place_is_longest_usable_region() {
    let map = [
        entry(0x1000, 0x9000, RESERVED_TYPE),
        entry(0x20000, 0x3000, MEMMAP_USABLE),
        entry(0x40000, 0x8000, MEMMAP_USABLE),
        entry(0x80000, 0x8000, MEMMAP_USABLE),
    ];
    assert!(PageFrameManager::has_place_for(&map, 100));
    let r = PageFrameManager::find_better_place(&map, 100);
    assert_eq!(r, (0x40000, required(100)));
    assert_eq!(required(100), 4096);
}

#[test]
fn better_place_needs_enough_room() {
    let map = [entry(0x1000, 0x1000, MEMMAP_USABLE), entry(0x9000, 0x9000, RESERVED_TYPE)];
    // 1000 records take more than one page.
    assert!(required(1000) > 0x1000);
    assert!(!PageFrameManager::has_place_for(&map, 1000));
    assert!(PageFrameManager::has_place_for(&map, 1));
    assert_eq!(PageFrameManager::find_better_place(&map, 1), (0x1000, 4096));
}

#[test]
fn better_place_with_no_frames_needs_nonempty_region() {
    let map = [entry(0x1000, 0, MEMMAP_USABLE)];
    assert!(!PageFrameManager::has_place_for(&map, 0));
    let map = [entry(0x1000, 0, MEMMAP_USABLE), entry(0x3000, 0x10, MEMMAP_USABLE)];
    assert!(PageFrameManager::has_place_for(&map, 0));
    assert_eq!(PageFrameManager::find_better_place(&map, 0), (0x3000, 0));
}

#[test]
fn init_reserves_unusable_frames() {
    let map = [
        entry(0, 0x4000, MEMMAP_USABLE),
        entry(0x4000, 0x2000, RESERVED_TYPE),
        entry(0x6000, 0xa000, MEMMAP_USABLE),
    ];
    let mut pfm = PageFrameManager::new();
    let placement = pfm.init(&map);
    assert_eq!(placement, (0x6000, 4096));
    assert_eq!(pfm.frame_count(), 16);
    for pfn in 0..16 {
        assert_eq!(reserved(&pfm, pfn), (4..=6).contains(&pfn), "frame {}", pfn);
        let f = pfm.get(pfn);
        assert_eq!(f.order, 0);
        assert_eq!(f.rc, 0);
    }
}

#[test]
fn init_reserves_metadata_frames() {
    let map = [entry(0, 0xa000, MEMMAP_USABLE), entry(0xa000, 0x6000, RESERVED_TYPE)];
    let mut pfm = PageFrameManager::new();
    assert_eq!(pfm.init(&map), (0, 4096));
    assert_eq!(pfm.frame_count(), 16);
    for pfn in 0..16 {
        assert_eq!(reserved(&pfm, pfn), pfn == 0 || pfn >= 10, "frame {}", pfn);
        assert_eq!(pfm.get(pfn).flags.bits() & !PageFlags::RESERVED().bits(), 0);
    }
}

#[test]
fn init_rounds_usable_ends_up() {
    let map = [
        entry(0, 0x1800, MEMMAP_USABLE),
        entry(0x1800, 0x2800, RESERVED_TYPE),
        entry(0x4000, 0x5000, MEMMAP_USABLE),
    ];
    let mut pfm = PageFrameManager::new();
    assert_eq!(pfm.init(&map), (0x4000, 4096));
    assert_eq!(pfm.frame_count(), 9);
    let expected = [false, false, true, true, true, false, false, false, false];
    for pfn in 0..9 {
        assert_eq!(reserved(&pfm, pfn), expected[pfn], "frame {}", pfn);
    }
}

#[test]
fn no_place_without_usable_room() {
    let map = [entry(0, 0x4000, RESERVED_TYPE)];
    let frames = PageFrameManager::detect_total_physical_memory(&map) >> 12;
    assert_eq!(frames, 4);
    assert!(!PageFrameManager::has_place_for(&map, frames));
    let map = [entry(0, 0x4000, RESERVED_TYPE), entry(0x4000, 0x1000, MEMMAP_USABLE)];
    assert!(PageFrameManager::has_place_for(&map, 5));
}

#[test]
fn init_reserves_array_in_high_region() {
    let map = [entry(0, 0x100000, RESERVED_TYPE), entry(0x100000, 0x100000, MEMMAP_USABLE)];
    let mut pfm = PageFrameManager::new();
    let size = required(512);
    assert_eq!(pfm.init(&map), (0x100000, size));
    assert_eq!(pfm.frame_count(), 512);
    let array_end = (0x100000 + size + 4095) / 4096;
    assert!(array_end > 256);
    for pfn in 0..512 {
        let expected = pfn < 256 || (256..array_end).contains(&pfn);
        assert_eq!(reserved(&pfm, pfn), expected, "frame {}", pfn);
    }
}

#[test]
fn init_reserves_array_frame_after_reserved_range() {
    let map = [entry(0, 0x2000, RESERVED_TYPE), entry(0x2000, 0x2000, MEMMAP_USABLE)];
    let mut pfm = PageFrameManager::new();
    assert_eq!(pfm.init(&map), (0x2000, 4096));
    assert_eq!(pfm.frame_count(), 4);
    assert!(reserved(&pfm, 0));
    assert!(reserved(&pfm, 1));
    assert!(reserved(&pfm, 2));
    assert!(!reserved(&pfm, 3));
}
