//! Per-frame metadata.
use vstd::prelude::*;
use crate::flags::PageFlags;

verus! {

/// Metadata associated with a single physical page frame.
///
/// This structure stores per-frame information required by the page frame
/// manager, such as flags, allocation order, linked list pointers for free
/// lists, reference count, and the kernel virtual address of the freelist
/// header (if any).
#[derive(Debug)]
pub struct PageFrame {
    /// Page state flags (locked, dirty, reserved, etc.).
    pub flags: PageFlags,
    /// Allocation order (2^order pages). 0 means a single 4 KiB page.
    pub order: u8,
    /// Index of the next page frame in a linked list (e.g., free list).
    pub next: u32,
    /// Index of the previous page frame in a linked list.
    pub prev: u32,
    /// Size class index for slab allocators (if used).
    pub size_class: u8,
    /// Reference count: number of users of this page frame.
    pub rc: u16,
    /// Kernel virtual address of the freelist header (or 0 if none).
    pub freelist_va: usize,
}

impl PageFrame {
    /// The metadata record of a frame nobody has touched: no flag set and
    /// every counter and link zero.
    pub open spec fn zeroed() -> PageFrame {
        PageFrame {
            flags: PageFlags { bits: 0 },
            order: 0,
            next: 0,
            prev: 0,
            size_class: 0,
            rc: 0,
            freelist_va: 0,
        }
    }

    /// The zeroed record with its flag word replaced by `bits`.
    pub open spec fn zeroed_with_flags(bits: u16) -> PageFrame {
        PageFrame { flags: PageFlags { bits }, ..PageFrame::zeroed() }
    }

    /// Creates a new, zeroed (default) page frame metadata structure.
    pub fn new() -> (r: PageFrame)
        ensures
            r == PageFrame::zeroed(),
    {
        PageFrame {
            flags: PageFlags::empty(),
            order: 0,
            next: 0,
            prev: 0,
            size_class: 0,
            rc: 0,
            freelist_va: 0,
        }
    }

    /// Resets the page frame metadata to its default state.
    ///
    /// This is equivalent to `*self = PageFrame::new()`. After calling this,
    /// all flags are cleared, and counters are set to zero.
    pub fn reset(&mut self)
        ensures
            *final(self) == PageFrame::zeroed(),
    {
        self.flags = PageFlags::empty();
        self.order = 0;
        self.next = 0;
        self.prev = 0;
        self.freelist_va = 0;
        self.rc = 0;
        self.size_class = 0;
    }
}

impl Default for PageFrame {
    /// The zeroed record, as [`PageFrame::new`] gives it.
    fn default() -> (r: PageFrame)
        ensures
            r == PageFrame::zeroed(),
    {
        PageFrame::new()
    }
}

/// The record of an untouched frame has no flag set and every counter, link
/// and address zero; replacing its flag word changes nothing else.
pub proof fn lemma_zeroed_record(bits: u16)
    ensures
        PageFrame::zeroed().flags.bits == 0,
        PageFrame::zeroed().order == 0,
        PageFrame::zeroed().next == 0,
        PageFrame::zeroed().prev == 0,
        PageFrame::zeroed().size_class == 0,
        PageFrame::zeroed().rc == 0,
        PageFrame::zeroed().freelist_va == 0,
        PageFrame::zeroed_with_flags(bits).flags.bits == bits,
        PageFrame::zeroed_with_flags(bits).order == 0,
        PageFrame::zeroed_with_flags(bits).next == 0,
        PageFrame::zeroed_with_flags(bits).prev == 0,
        PageFrame::zeroed_with_flags(bits).size_class == 0,
        PageFrame::zeroed_with_flags(bits).rc == 0,
        PageFrame::zeroed_with_flags(bits).freelist_va == 0,
{
}

} // verus!
