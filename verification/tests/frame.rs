use faces_pfm::{PageFlags, PageFrame};

fn is_zeroed(f: &PageFrame) -> bool {
    f.flags.bits() == 0
        && f.order == 0
        && f.next == 0
        && f.prev == 0
        && f.size_class == 0
        && f.rc == 0
        && f.freelist_va == 0
}

#[test]
fn new_and_default_are_zeroed() {
    assert!(is_zeroed(&PageFrame::new()));
    assert!(is_zeroed(&PageFrame::default()));
}

#[test]
fn reset_zeroes_every_field() {
    let mut f = PageFrame::new();
    f.flags = PageFlags::RESERVED() | PageFlags::LOCKED();
    f.order = 3;
    f.next = 11;
    f.prev = 12;
    f.size_class = 4;
    f.rc = 2;
    f.freelist_va = 0x1000;
    f.reset();
    assert!(is_zeroed(&f));
}
