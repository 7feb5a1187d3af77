use faces_pfm::PageFlags;
use faces_pfm::flags::ALL_BITS;

#[test]
fn declared_flag_bits() {
    let all = [
        PageFlags::LOCKED(),
        PageFlags::DIRTY(),
        PageFlags::UPTODATE(),
        PageFlags::LRU(),
        PageFlags::SMALL(),
        PageFlags::COMPOUND(),
        PageFlags::SWAPCACHE(),
        PageFlags::WRITEBACK(),
        PageFlags::PAGETABLE(),
        PageFlags::FILE(),
        PageFlags::RESERVED(),
    ];
    for (i, f) in all.iter().enumerate() {
        assert_eq!(f.bits(), 1u16 << i);
    }
    assert_eq!(PageFlags::all().bits(), ALL_BITS);
    assert_eq!(ALL_BITS, 0x7ff);
    assert!(PageFlags::empty().is_empty());
}

#[test]
fn from_usize_keeps_low_sixteen_bits() {
    assert_eq!(PageFlags::from(0x0402usize).bits(), 0x0402);
    assert_eq!(PageFlags::from(0x1_8405usize).bits(), 0x8405);
    assert_eq!(PageFlags::from(0usize), PageFlags::empty());
}

#[test]
fn not_is_complement_over_declared_flags() {
    assert_eq!((!PageFlags::LOCKED()).bits(), 0x7fe);
    assert_eq!((!PageFlags::from_bits_retain(0x8000)).bits(), 0x7ff);
    assert_eq!(PageFlags::RESERVED().complement().bits(), 0x3ff);
}

#[test]
fn or_and_operators() {
    let f = PageFlags::LOCKED() | PageFlags::DIRTY();
    assert_eq!(f.bits(), 0x3);
    assert_eq!((f & PageFlags::DIRTY()).bits(), 0x2);
    assert!(f.contains(PageFlags::LOCKED()));
    assert!(!f.contains(PageFlags::LOCKED() | PageFlags::LRU()));
    assert!(f.intersects(PageFlags::LOCKED() | PageFlags::LRU()));
    assert!(!f.intersects(PageFlags::LRU()));
}

#[test]
fn insert_and_remove() {
    let mut f = PageFlags::empty();
    f.insert(PageFlags::FILE());
    f.insert(PageFlags::SMALL());
    assert_eq!(f.bits(), 0x210);
    f.remove(PageFlags::FILE());
    assert_eq!(f.bits(), 0x10);
    assert_eq!(PageFlags::from_bits_truncate(0xffff).bits(), 0x7ff);
}

#[test]
fn from_bits_accepts_only_declared_bits() {
    assert_eq!(PageFlags::from_bits(0x401), Some(PageFlags::from_bits_retain(0x401)));
    assert_eq!(PageFlags::from_bits(0x801), None);
    assert!(PageFlags::all().is_all());
    assert!(PageFlags::from_bits_retain(0xffff).is_all());
    assert!(!PageFlags::LOCKED().is_all());
}

#[test]
fn set_algebra() {
    let a = PageFlags::LOCKED() | PageFlags::DIRTY();
    let b = PageFlags::DIRTY() | PageFlags::LRU();
    assert_eq!(a.union(b).bits(), 0xb);
    assert_eq!(a.intersection(b).bits(), 0x2);
    assert_eq!(a.difference(b).bits(), 0x1);
    assert_eq!((a - b).bits(), 0x1);
    assert_eq!(a.symmetric_difference(b).bits(), 0x9);
    assert_eq!((a ^ b).bits(), 0x9);
    // `-` does not truncate its right side; `& !` does.
    let high = PageFlags::from_bits_retain(0x8001);
    assert_eq!((high - PageFlags::from_bits_retain(0x8000)).bits(), 0x1);
    assert_eq!((high & !PageFlags::from_bits_retain(0x8000)).bits(), 0x1);
    assert_eq!(PageFlags::default(), PageFlags::empty());
}

#[test]
fn toggle_and_set() {
    let mut f = PageFlags::LOCKED();
    f.toggle(PageFlags::LOCKED() | PageFlags::FILE());
    assert_eq!(f.bits(), 0x200);
    f.set(PageFlags::DIRTY(), true);
    assert_eq!(f.bits(), 0x202);
    f.set(PageFlags::FILE(), false);
    assert_eq!(f.bits(), 0x2);
}
