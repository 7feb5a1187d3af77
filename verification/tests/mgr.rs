use faces_pfm::{PageFlags, PageFrameManager};

#[test]
fn test_flag_operations() {
    let mut pfm = PageFrameManager::with_frame_count(10);
    let pfn = 5;

    // Initially no flags should be set.
    assert!(!pfm.check_flags(pfn, PageFlags::LOCKED()));
    assert!(!pfm.check_flags(pfn, PageFlags::DIRTY()));

    // Set LOCKED flag.
    pfm.set_flags(pfn, PageFlags::LOCKED());
    assert!(pfm.check_flags(pfn, PageFlags::LOCKED()));
    assert!(!pfm.check_flags(pfn, PageFlags::DIRTY()));

    // Set DIRTY flag (should keep LOCKED).
    pfm.set_flags(pfn, PageFlags::DIRTY());
    assert!(pfm.check_flags(pfn, PageFlags::LOCKED()));
    assert!(pfm.check_flags(pfn, PageFlags::DIRTY()));

    // Clear LOCKED flag.
    pfm.clear_flags(pfn, PageFlags::LOCKED());
    assert!(!pfm.check_flags(pfn, PageFlags::LOCKED()));
    assert!(pfm.check_flags(pfn, PageFlags::DIRTY()));

    // Clear DIRTY flag.
    pfm.clear_flags(pfn, PageFlags::DIRTY());
    assert!(!pfm.check_flags(pfn, PageFlags::LOCKED()));
    assert!(!pfm.check_flags(pfn, PageFlags::DIRTY()));
}

#[test]
fn test_get_frame_mut() {
    let mut pfm = PageFrameManager::with_frame_count(3);
    let pfn = 1;

    // Obtain mutable access and modify the frame directly.
    {
        let guard = pfm.get(pfn);
        guard.flags = PageFlags::SWAPCACHE();
        guard.order = 42;
        guard.rc = 100;
    }

    // Verify changes via flag checks.
    assert!(pfm.check_flags(pfn, PageFlags::SWAPCACHE()));
    // Also verify using get and reading back.
    let guard = pfm.get(pfn);
    assert_eq!(guard.order, 42);
    assert_eq!(guard.rc, 100);
}

#[test]
fn test_min_max_present() {
    let pfm = PageFrameManager::new();
    // present currently always returns true
    assert!(pfm.present(0));
    assert!(pfm.present(12345));
}

#[test]
fn test_frame_macro() {
    let mut pfm = PageFrameManager::with_frame_count(5);

    let pfn = 2;
    // Direct access to the frame record.
    {
        let guard = pfm.get(pfn);
        guard.flags = PageFlags::COMPOUND();
    }
    assert!(pfm.check_flags(pfn, PageFlags::COMPOUND()));
}

#[test]
fn min_and_max_frame_numbers() {
    let pfm = PageFrameManager::new();
    assert_eq!(pfm.min(), 0);
    assert_eq!(pfm.max(), usize::MAX);
    assert_eq!(pfm.frame_count(), 0);
}

#[test]
fn set_flag_is_seen_and_other_frames_untouched() {
    let mut pfm = PageFrameManager::with_frame_count(4);
    pfm.set_flags(2, PageFlags::LRU() | PageFlags::FILE());
    assert!(pfm.check_flags(2, PageFlags::LRU()));
    assert!(pfm.check_flags(2, PageFlags::FILE()));
    assert!(!pfm.check_flags(2, PageFlags::LOCKED()));
    assert_eq!(pfm.get(2).flags.bits(), 0x208);
    for other in [0usize, 1, 3] {
        assert_eq!(pfm.get(other).flags.bits(), 0);
    }
    assert_eq!(pfm.frame_count(), 4);
}

#[test]
fn set_is_idempotent() {
    let mut pfm = PageFrameManager::with_frame_count(1);
    pfm.set_flags(0, PageFlags::DIRTY());
    pfm.set_flags(0, PageFlags::DIRTY());
    assert_eq!(pfm.get(0).flags.bits(), 0x2);
}

#[test]
fn clear_undoes_set() {
    let mut pfm = PageFrameManager::with_frame_count(2);
    pfm.set_flags(1, PageFlags::UPTODATE());
    pfm.set_flags(1, PageFlags::WRITEBACK());
    pfm.clear_flags(1, PageFlags::WRITEBACK());
    assert_eq!(pfm.get(1).flags.bits(), 0x4);
    assert!(pfm.check_flags(1, PageFlags::UPTODATE()));
    assert!(!pfm.check_flags(1, PageFlags::WRITEBACK()));
}

#[test]
fn clear_drops_undeclared_bits() {
    let mut pfm = PageFrameManager::with_frame_count(1);
    pfm.get(0).flags = PageFlags::from_bits_retain(0x8001);
    pfm.clear_flags(0, PageFlags::DIRTY());
    assert_eq!(pfm.get(0).flags.bits(), 0x0001);
}

#[test]
fn check_of_empty_flags_is_false() {
    let mut pfm = PageFrameManager::with_frame_count(1);
    pfm.set_flags(0, PageFlags::all());
    assert!(!pfm.check_flags(0, PageFlags::empty()));
}

#[test]
fn check_is_true_when_any_bit_matches() {
    let mut pfm = PageFrameManager::with_frame_count(1);
    pfm.set_flags(0, PageFlags::PAGETABLE());
    assert!(pfm.check_flags(0, PageFlags::PAGETABLE() | PageFlags::SMALL()));
}

#[test]
fn get_writes_are_read_back() {
    let mut pfm = PageFrameManager::with_frame_count(2);
    {
        let f = pfm.get(0);
        f.next = 7;
        f.prev = 9;
        f.size_class = 3;
        f.freelist_va = 0xdead_b000;
    }
    let f = pfm.get(0);
    assert_eq!(f.next, 7);
    assert_eq!(f.prev, 9);
    assert_eq!(f.size_class, 3);
    assert_eq!(f.freelist_va, 0xdead_b000);
    assert_eq!(pfm.get(1).next, 0);
}
