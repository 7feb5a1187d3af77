//! The page frame manager: one metadata record per physical frame.
use vstd::prelude::*;
use crate::flags::{
    PageFlags, complement_bits, union_bits, intersection_bits, intersects_bits, ALL_BITS, has_bit,
    lemma_union_bitwise, lemma_complement_bitwise, lemma_intersection_bitwise,
    lemma_intersects_is_common_bit,
    RESERVED_BIT,
};
use crate::frame::PageFrame;
use crate::memmap::{
    MEMMAP_USABLE,
    MemmapEntry, total_length, round_up_to_page, usable_entries_addressable, usable_entries_fit,
    is_candidate, has_candidate, is_best_place, covers, covered_by_first, covered,
    lemma_covered_is_some_usable_range,
};

verus! {

/// Whether some bit of `flag` is set on frame `pfn` of the table `s`.
pub open spec fn frames_check(s: Seq<PageFrame>, pfn: int, flag: PageFlags) -> bool {
    intersects_bits(s[pfn].flags.bits, flag.bits)
}

/// The table `s` after the bits of `flag` are set on frame `pfn`.
pub open spec fn frames_set(s: Seq<PageFrame>, pfn: int, flag: PageFlags) -> Seq<PageFrame> {
    s.update(pfn, PageFrame { flags: PageFlags { bits: union_bits(s[pfn].flags.bits, flag.bits) }, ..s[pfn] })
}

/// The table `s` after frame `pfn`'s flag word is masked with the complement
/// of `flag` over the declared flags.
pub open spec fn frames_clear(s: Seq<PageFrame>, pfn: int, flag: PageFlags) -> Seq<PageFrame> {
    s.update(
        pfn,
        PageFrame {
            flags: PageFlags { bits: intersection_bits(s[pfn].flags.bits, complement_bits(flag.bits)) },
            ..s[pfn]
        },
    )
}

/// Bytes taken by a metadata array for `num_frames` frames, rounded up to
/// whole pages.
pub open spec fn required_size(num_frames: int) -> int {
    round_up_to_page(num_frames * vstd::layout::size_of::<PageFrame>())
}

/// The number of frames the table describes for the memory map `s`: its
/// total length in whole pages.
pub open spec fn frames_for(s: Seq<MemmapEntry>) -> int {
    total_length(s) as int / 4096
}

/// Whether frame `idx` holds part of a metadata array placed at physical
/// address `base` with `size` bytes: from the frame holding `base` up to the
/// frame holding the array's last byte.
pub open spec fn in_metadata_array(base: int, size: int, idx: int) -> bool {
    base / 4096 <= idx < (base + size + 4095) / 4096
}

/// Whether frame `idx` of the table built from the memory map `s`, with its
/// metadata array at `base` of `size` bytes, is reserved: it is not touched by
/// any usable entry, or it holds the metadata array.
pub open spec fn reserved_at_init(s: Seq<MemmapEntry>, base: int, size: int, idx: int) -> bool {
    in_metadata_array(base, size, idx) || !covered(s, idx)
}

/// The flag word that initialisation leaves on frame `idx`.
pub open spec fn initial_flag_bits(s: Seq<MemmapEntry>, base: int, size: int, idx: int) -> u16 {
    if reserved_at_init(s, base, size, idx) {
        RESERVED_BIT
    } else {
        0
    }
}

/// The total length of a prefix of the map is at most the whole total.
proof fn lemma_total_length_prefix(s: Seq<MemmapEntry>, k: int)
    requires
        0 <= k <= s.len(),
    ensures
        total_length(s.subrange(0, k)) <= total_length(s),
    decreases s.len(),
{
    if k < s.len() {
        lemma_total_length_prefix(s.drop_last(), k);
        assert(s.drop_last().subrange(0, k) =~= s.subrange(0, k));
    } else {
        assert(s.subrange(0, k) =~= s);
    }
}

/// Shifting right by the page shift is division by the page size.
proof fn lemma_shift_is_div(x: usize)
    ensures
        x >> 12 == x / 4096,
{
    assert(x >> 12 == x / 4096) by (bit_vector);
}

/// The flag words that initialisation passes through stay within
/// `{0, RESERVED_BIT}` when `RESERVED` is set or cleared.
proof fn lemma_reserved_bit_ops()
    ensures
        0u16 | RESERVED_BIT == RESERVED_BIT,
        RESERVED_BIT | RESERVED_BIT == RESERVED_BIT,
        RESERVED_BIT & complement_bits(RESERVED_BIT) == 0,
        0u16 & complement_bits(RESERVED_BIT) == 0,
{
    assert(0u16 | 0x400u16 == 0x400u16) by (bit_vector);
    assert(0x400u16 | 0x400u16 == 0x400u16) by (bit_vector);
    assert(0x400u16 & (!0x400u16 & 0x7ffu16) == 0) by (bit_vector);
    assert(0u16 & (!0x400u16 & 0x7ffu16) == 0) by (bit_vector);
}

/// The page frame manager.
///
/// It holds the metadata table, indexed by physical frame number, and is the
/// central point for manipulating page frame flags and accessing per-frame
/// metadata.
#[derive(Debug)]
pub struct PageFrameManager {
    frames: Vec<PageFrame>,
}

impl View for PageFrameManager {
    type V = Seq<PageFrame>;

    /// The metadata table: entry `i` describes physical frame `i`.
    closed spec fn view(&self) -> Seq<PageFrame> {
        self.frames@
    }
}

impl Default for PageFrameManager {
    /// A manager with an empty table, as [`PageFrameManager::new`] gives it.
    fn default() -> (r: PageFrameManager)
        ensures
            r@ == Seq::<PageFrame>::empty(),
    {
        PageFrameManager::new()
    }
}

impl PageFrameManager {
    /// Creates a new page frame manager with an empty table.
    ///
    /// The manager describes no frame until [`PageFrameManager::init`] is called.
    pub fn new() -> (r: PageFrameManager)
        ensures
            r@ == Seq::<PageFrame>::empty(),
    {
        PageFrameManager { frames: Vec::new() }
    }

    /// Detects the total amount of physical memory from the memory map.
    ///
    /// Sums the lengths of all memory map entries, of every type.
    pub fn detect_total_physical_memory(entries: &[MemmapEntry]) -> (total: usize)
        requires
            total_length(entries@) <= usize::MAX,
        ensures
            total == total_length(entries@),
    {
        let mut total: usize = 0;
        let mut i: usize = 0;
        while i < entries.len()
            invariant
                i <= entries@.len(),
                total == total_length(entries@.subrange(0, i as int)),
                total_length(entries@) <= usize::MAX,
            decreases entries@.len() - i,
        {
            proof {
                lemma_total_length_prefix(entries@, i + 1);
                assert(entries@.subrange(0, i + 1).drop_last() =~= entries@.subrange(0, i as int));
            }
            total = total + entries[i].length as usize;
            i = i + 1;
        }
        proof {
            assert(entries@.subrange(0, i as int) =~= entries@);
        }
        total
    }

    /// Bytes taken by a metadata array for `num_frames` frames, rounded up to
    /// whole pages.
    fn metadata_array_size(num_frames: usize) -> (size: usize)
        requires
            required_size(num_frames as int) <= usize::MAX,
        ensures
            size == required_size(num_frames as int),
    {
        let frame_size = core::mem::size_of::<PageFrame>();
        proof {
            let x = num_frames * vstd::layout::size_of::<PageFrame>();
            assert(round_up_to_page(x) >= x);
        }
        let raw = num_frames * frame_size;
        let rem = raw % 4096;
        if rem == 0 {
            raw
        } else {
            raw - rem + 4096
        }
    }

    /// Whether some usable region of nonzero length can hold the frame
    /// metadata array for `num_frames` frames: the condition under which
    /// [`PageFrameManager::find_better_place`] finds a place, to be tested
    /// before calling it.
    pub fn has_place_for(entries: &[MemmapEntry], num_frames: usize) -> (r: bool)
        requires
            usable_entries_fit(entries@),
            required_size(num_frames as int) <= usize::MAX,
        ensures
            r == has_candidate(entries@, required_size(num_frames as int)),
    {
        let size = Self::metadata_array_size(num_frames);
        let ghost s = entries@;
        let mut i: usize = 0;
        while i < entries.len()
            invariant
                s == entries@,
                usable_entries_fit(s),
                size == required_size(num_frames as int),
                i <= s.len(),
                forall|j: int| 0 <= j < i ==> !is_candidate(#[trigger] s[j], size as int),
            decreases s.len() - i,
        {
            let entry = entries[i];
            if entry.type_ == crate::memmap::MEMMAP_USABLE {
                assert(s[i as int].is_usable());
                let len = entry.length as usize;
                if len >= size && len > 0 {
                    assert(is_candidate(s[i as int], size as int));
                    return true;
                }
            }
            i = i + 1;
        }
        false
    }

    /// Finds a suitable region of physical memory to place the frame metadata
    /// array for `num_frames` frames.
    ///
    /// The array needs `num_frames` metadata records, rounded up to whole pages.
    /// The chosen region is the longest usable entry that is at least that long
    /// (the first of equally long ones). Returns the region's base address and
    /// the array's size in bytes.
    ///
    /// Some usable entry of nonzero length must be long enough (see
    /// [`PageFrameManager::has_place_for`]); without one there is no place.
    pub fn find_better_place(entries: &[MemmapEntry], num_frames: usize) -> (r: (usize, usize))
        requires
            usable_entries_fit(entries@),
            required_size(num_frames as int) <= usize::MAX,
            has_candidate(entries@, required_size(num_frames as int)),
        ensures
            r.1 == required_size(num_frames as int),
            exists|i: int| is_best_place(entries@, r.1 as int, i) && r.0 == #[trigger] entries@[i].base,
    {
        let size = Self::metadata_array_size(num_frames);
        let ghost req = size as int;
        let ghost s = entries@;
        let mut best_start: u64 = 0;
        let mut best_len: usize = 0;
        let ghost mut best_idx: int = 0;
        let mut i: usize = 0;
        while i < entries.len()
            invariant
                s == entries@,
                req == size,
                usable_entries_fit(s),
                i <= s.len(),
                best_len == 0 ==> forall|j: int| 0 <= j < i ==> !is_candidate(#[trigger] s[j], req),
                best_len > 0 ==> {
                    &&& 0 <= best_idx < i
                    &&& is_candidate(s[best_idx], req)
                    &&& best_len == s[best_idx].length
                    &&& best_start == s[best_idx].base
                    &&& forall|j: int|
                        0 <= j < i && is_candidate(#[trigger] s[j], req) ==> s[j].length <= best_len
                    &&& forall|j: int|
                        0 <= j < best_idx && is_candidate(#[trigger] s[j], req) ==> s[j].length
                            < best_len
                },
            decreases s.len() - i,
        {
            let entry = entries[i];
            if entry.type_ == crate::memmap::MEMMAP_USABLE {
                assert(s[i as int].is_usable());
                let len = entry.length as usize;
                if len >= size && len > best_len {
                    best_len = len;
                    best_start = entry.base;
                    proof {
                        best_idx = i as int;
                    }
                }
            }
            i = i + 1;
        }
        proof {
            if best_len == 0 {
                let w = choose|w: int| 0 <= w < s.len() && is_candidate(#[trigger] s[w], req);
                assert(!is_candidate(s[w], req));
            }
            assert(is_best_place(s, req, best_idx));
            assert(s[best_idx].is_usable());
        }
        (best_start as usize, size)
    }

    /// Initialises the manager from the bootloader's memory map.
    ///
    /// This function:
    /// 1. Detects total physical memory and computes the number of frames.
    /// 2. Finds a physical memory region large enough to hold the metadata array.
    /// 3. Initialises each frame's metadata with default values.
    /// 4. Sets the `RESERVED` flag for all frames, then clears it for every frame
    ///    touched by a usable entry.
    /// 5. Finally reserves the frames that contain the metadata array itself.
    ///
    /// Returns the metadata array's placement (physical base address and size in
    /// bytes). Some usable region must be able to hold the array (see
    /// [`PageFrameManager::has_place_for`]).
    pub fn init(&mut self, entries: &[MemmapEntry]) -> (placement: (usize, usize))
        requires
            total_length(entries@) <= usize::MAX,
            required_size(frames_for(entries@)) <= usize::MAX,
            usable_entries_addressable(entries@),
            has_candidate(entries@, required_size(frames_for(entries@))),
        ensures
            placement.1 == required_size(frames_for(entries@)),
            exists|i: int|
                is_best_place(entries@, placement.1 as int, i) && placement.0
                    == #[trigger] entries@[i].base,
            final(self)@.len() == frames_for(entries@),
            forall|idx: int|
                0 <= idx < final(self)@.len() ==> #[trigger] final(self)@[idx]
                    == PageFrame::zeroed_with_flags(
                    initial_flag_bits(entries@, placement.0 as int, placement.1 as int, idx),
                ),
    {
        let ghost s = entries@;
        let total_memory = Self::detect_total_physical_memory(entries);
        let num_frames = total_memory >> 12;
        proof {
            lemma_shift_is_div(total_memory);
            assert forall|i: int| 0 <= i < s.len() && (#[trigger] s[i]).is_usable() implies s[i].base
                <= usize::MAX && s[i].length <= usize::MAX by {}
        }
        let (phys_addr, size) = Self::find_better_place(entries, num_frames);
        let ghost best = choose|i: int| is_best_place(s, size as int, i) && phys_addr == #[trigger] s[i].base;
        proof {
            assert(s[best].is_usable());
        }

        self.frames = Self::with_frame_count(num_frames).frames;

        let mut idx: usize = 0;
        while idx < num_frames
            invariant
                idx <= num_frames,
                self@.len() == num_frames,
                forall|j: int|
                    0 <= j < num_frames ==> #[trigger] self@[j] == PageFrame::zeroed_with_flags(
                        if j < idx {
                            RESERVED_BIT
                        } else {
                            0
                        },
                    ),
            decreases num_frames - idx,
        {
            proof {
                lemma_reserved_bit_ops();
            }
            self.set_flags(idx, PageFlags::RESERVED());
            idx = idx + 1;
        }

        for e in 0..entries.len()
            invariant
                s == entries@,
                usable_entries_addressable(s),
                self@.len() == num_frames,
                forall|j: int|
                    0 <= j < num_frames ==> #[trigger] self@[j] == PageFrame::zeroed_with_flags(
                        if covered_by_first(s, e as int, j) {
                            0
                        } else {
                            RESERVED_BIT
                        },
                    ),
        {
            let entry = entries[e];
            if entry.type_ == crate::memmap::MEMMAP_USABLE {
                assert(s[e as int].is_usable());
                let start = (entry.base / 4096) as usize;
                let end = ((entry.base + entry.length + 4095) / 4096) as usize;
                let upper = if end < num_frames {
                    end
                } else {
                    num_frames
                };
                let mut idx: usize = start;
                while idx < upper
                    invariant
                        s == entries@,
                        start <= idx,
                        idx <= upper || idx == start,
                        self@.len() == num_frames,
                        upper <= num_frames,
                        forall|j: int|
                            0 <= j < num_frames ==> #[trigger] self@[j] == PageFrame::zeroed_with_flags(
                                if covered_by_first(s, e as int, j) || (start <= j < idx) {
                                    0
                                } else {
                                    RESERVED_BIT
                                },
                            ),
                    decreases upper - idx,
                {
                    proof {
                        lemma_reserved_bit_ops();
                    }
                    self.clear_flags(idx, PageFlags::RESERVED());
                    idx = idx + 1;
                }
                proof {
                    assert forall|j: int| 0 <= j < num_frames implies covered_by_first(s, e + 1, j)
                        == (covered_by_first(s, e as int, j) || (start <= j < upper)) by {
                        if start <= j < upper {
                            assert(covers(s[e as int], j));
                        }
                        if covered_by_first(s, e + 1, j) {
                            let m = choose|m: int| 0 <= m < e + 1 && covers(#[trigger] s[m], j);
                            if m < e {
                                assert(covered_by_first(s, e as int, j));
                            }
                        }
                    }
                }
            } else {
                proof {
                    assert forall|j: int| 0 <= j < num_frames implies covered_by_first(s, e + 1, j)
                        == covered_by_first(s, e as int, j) by {
                        if covered_by_first(s, e + 1, j) {
                            let m = choose|m: int| 0 <= m < e + 1 && covers(#[trigger] s[m], j);
                            assert(m != e);
                        }
                    }
                }
            }
        }

        proof {
            lemma_shift_is_div(phys_addr);
        }
        let array_start = phys_addr >> 12;
        let array_end = (phys_addr + size + 4095) >> 12;
        proof {
            lemma_shift_is_div((phys_addr + size + 4095) as usize);
        }
        let upper = if array_end < num_frames {
            array_end
        } else {
            num_frames
        };
        let mut idx: usize = array_start;
        while idx < upper
            invariant
                s == entries@,
                array_start <= idx,
                idx <= upper || idx == array_start,
                self@.len() == num_frames,
                upper <= num_frames,
                forall|j: int|
                    0 <= j < num_frames ==> #[trigger] self@[j] == PageFrame::zeroed_with_flags(
                        if (array_start <= j < idx) || !covered(s, j) {
                            RESERVED_BIT
                        } else {
                            0
                        },
                    ),
            decreases upper - idx,
        {
            proof {
                lemma_reserved_bit_ops();
            }
            self.set_flags(idx, PageFlags::RESERVED());
            idx = idx + 1;
        }
        (phys_addr, size)
    }

    /// Creates a manager whose table describes `num_frames` frames, each with
    /// default (zeroed) metadata.
    pub fn with_frame_count(num_frames: usize) -> (r: PageFrameManager)
        ensures
            r@.len() == num_frames,
            forall|j: int| 0 <= j < num_frames ==> #[trigger] r@[j] == PageFrame::zeroed(),
    {
        let mut frames: Vec<PageFrame> = Vec::new();
        let mut k: usize = 0;
        while k < num_frames
            invariant
                k <= num_frames,
                frames@.len() == k,
                forall|j: int| 0 <= j < k ==> #[trigger] frames@[j] == PageFrame::zeroed(),
            decreases num_frames - k,
        {
            frames.push(PageFrame::default());
            k = k + 1;
        }
        PageFrameManager { frames }
    }

    /// The number of frames the table describes.
    pub fn frame_count(&self) -> (r: usize)
        ensures
            r == self@.len(),
    {
        self.frames.len()
    }

    /// Checks whether any of the given flags is set on the specified page frame.
    pub fn check_flags(&self, pfn: usize, flag: PageFlags) -> (r: bool)
        requires
            pfn < self@.len(),
        ensures
            r == frames_check(self@, pfn as int, flag),
    {
        self.frames[pfn].flags.intersects(flag)
    }

    /// Sets the specified flags on the given page frame.
    pub fn set_flags(&mut self, pfn: usize, flag: PageFlags)
        requires
            pfn < old(self)@.len(),
        ensures
            final(self)@ == frames_set(old(self)@, pfn as int, flag),
    {
        let frame = self.get(pfn);
        frame.flags.insert(flag);
    }

    /// Clears the specified flags on the given page frame.
    ///
    /// The frame's flag word is masked with the complement of `flag` taken over
    /// the declared flags, so bits of no declared flag are cleared as well.
    pub fn clear_flags(&mut self, pfn: usize, flag: PageFlags)
        requires
            pfn < old(self)@.len(),
        ensures
            final(self)@ == frames_clear(old(self)@, pfn as int, flag),
    {
        let frame = self.get(pfn);
        frame.flags = frame.flags & flag.complement();
    }

    /// Returns the maximum possible page frame number (the largest `usize`).
    pub fn max(&self) -> (r: usize)
        ensures
            r == usize::MAX,
    {
        usize::MAX
    }

    /// Returns the minimum possible page frame number (always 0).
    pub fn min(&self) -> (r: usize)
        ensures
            r == 0,
    {
        0
    }

    /// Returns whether a page frame is physically present: every frame number
    /// is reported present.
    pub fn present(&self, pfn: usize) -> (r: bool)
        ensures
            r,
    {
        true
    }

    /// Returns shared access to the page frame metadata.
    pub fn frame(&self, pfn: usize) -> (r: &PageFrame)
        requires
            pfn < self@.len(),
        ensures
            *r == self@[pfn as int],
    {
        &self.frames[pfn]
    }

    /// Returns mutable access to the page frame metadata.
    pub fn get(&mut self, pfn: usize) -> (r: &mut PageFrame)
        requires
            pfn < old(self)@.len(),
        ensures
            *r == old(self)@[pfn as int],
            final(self)@ == old(self)@.update(pfn as int, *final(r)),
    {
        &mut self.frames[pfn]
    }
}

} // verus!

verus! {

/// Setting flags on a frame and then checking a flag sees it exactly when it
/// was already set or shares a bit with the flags just set.
pub proof fn lemma_set_then_check(s: Seq<PageFrame>, pfn: int, flag: PageFlags, other: PageFlags)
    requires
        0 <= pfn < s.len(),
    ensures
        frames_check(frames_set(s, pfn, flag), pfn, other) == (frames_check(s, pfn, other) || flag.bits
            & other.bits != 0),
{
    let a = s[pfn].flags.bits;
    let f = flag.bits;
    let g = other.bits;
    assert(((a | f) & g != 0) == (a & g != 0 || f & g != 0)) by (bit_vector);
}

/// A flag that was just set on a frame is seen by a check of that flag,
/// unless it has no bit at all.
pub proof fn lemma_set_flag_is_seen(s: Seq<PageFrame>, pfn: int, flag: PageFlags)
    requires
        0 <= pfn < s.len(),
    ensures
        frames_check(frames_set(s, pfn, flag), pfn, flag) == (flag.bits != 0),
{
    let a = s[pfn].flags.bits;
    let f = flag.bits;
    assert(((a | f) & f != 0) == (f != 0)) by (bit_vector);
}

/// A flag that was just cleared on a frame is not seen by a check of it.
pub proof fn lemma_clear_then_check(s: Seq<PageFrame>, pfn: int, flag: PageFlags)
    requires
        0 <= pfn < s.len(),
    ensures
        !frames_check(frames_clear(s, pfn, flag), pfn, flag),
{
    let a = s[pfn].flags.bits;
    let f = flag.bits;
    assert((a & (!f & 0x7ffu16)) & f == 0) by (bit_vector);
}

/// Clearing flags on a frame leaves every declared flag that shares no bit
/// with them as it was.
pub proof fn lemma_clear_keeps_other_flags(
    s: Seq<PageFrame>,
    pfn: int,
    flag: PageFlags,
    other: PageFlags,
)
    requires
        0 <= pfn < s.len(),
        flag.bits & other.bits == 0,
        other.bits & ALL_BITS == other.bits,
    ensures
        frames_check(frames_clear(s, pfn, flag), pfn, other) == frames_check(s, pfn, other),
{
    let a = s[pfn].flags.bits;
    let f = flag.bits;
    let g = other.bits;
    assert(((a & (!f & 0x7ffu16)) & g != 0) == (a & g != 0)) by (bit_vector)
        requires
            f & g == 0,
            g & 0x7ffu16 == g,
    ;
}

/// Setting or clearing flags on one frame changes no other frame and keeps
/// the number of frames.
pub proof fn lemma_flag_updates_are_local(s: Seq<PageFrame>, pfn: int, q: int, flag: PageFlags)
    requires
        0 <= pfn < s.len(),
        0 <= q < s.len(),
        q != pfn,
    ensures
        frames_set(s, pfn, flag).len() == s.len(),
        frames_clear(s, pfn, flag).len() == s.len(),
        frames_set(s, pfn, flag)[q] == s[q],
        frames_clear(s, pfn, flag)[q] == s[q],
{
}

/// Setting flags twice in a row is the same as setting them once.
pub proof fn lemma_set_is_idempotent(s: Seq<PageFrame>, pfn: int, flag: PageFlags)
    requires
        0 <= pfn < s.len(),
    ensures
        frames_set(frames_set(s, pfn, flag), pfn, flag) == frames_set(s, pfn, flag),
{
    let a = s[pfn].flags.bits;
    let f = flag.bits;
    assert((a | f) | f == a | f) by (bit_vector);
    assert(frames_set(frames_set(s, pfn, flag), pfn, flag) =~= frames_set(s, pfn, flag));
}

/// Clearing flags that were just set on a frame, where none of them was set
/// before and the frame carried only declared flags, gives back the table as
/// it was.
pub proof fn lemma_clear_undoes_set(s: Seq<PageFrame>, pfn: int, flag: PageFlags)
    requires
        0 <= pfn < s.len(),
        s[pfn].flags.bits & flag.bits == 0,
        s[pfn].flags.bits & ALL_BITS == s[pfn].flags.bits,
    ensures
        frames_clear(frames_set(s, pfn, flag), pfn, flag) == s,
{
    let a = s[pfn].flags.bits;
    let f = flag.bits;
    assert((a | f) & (!f & 0x7ffu16) == a) by (bit_vector)
        requires
            a & f == 0,
            a & 0x7ffu16 == a,
    ;
    assert(frames_clear(frames_set(s, pfn, flag), pfn, flag) =~= s);
}

/// No frame is ever seen to carry the empty flag value.
pub proof fn lemma_check_empty_is_false(s: Seq<PageFrame>, pfn: int)
    requires
        0 <= pfn < s.len(),
    ensures
        !frames_check(s, pfn, PageFlags { bits: 0 }),
{
    let a = s[pfn].flags.bits;
    assert(a & 0 == 0) by (bit_vector);
}

/// After initialisation a frame is seen as reserved exactly when it is not
/// touched by any usable entry or holds the metadata array, and it is seen to
/// carry no other flag.
pub proof fn lemma_init_flags_are_seen(
    entries: Seq<MemmapEntry>,
    base: int,
    size: int,
    t: Seq<PageFrame>,
    idx: int,
    flag: PageFlags,
)
    requires
        0 <= idx < t.len(),
        t[idx] == PageFrame::zeroed_with_flags(initial_flag_bits(entries, base, size, idx)),
    ensures
        frames_check(t, idx, flag) == (reserved_at_init(entries, base, size, idx) && flag.bits
            & RESERVED_BIT != 0),
{
    let g = flag.bits;
    assert(0u16 & g == 0) by (bit_vector);
    assert((0x400u16 & g != 0) == (g & 0x400u16 != 0)) by (bit_vector);
    if reserved_at_init(entries, base, size, idx) {
        assert(t[idx].flags.bits == RESERVED_BIT);
    } else {
        assert(t[idx].flags.bits == 0);
    }
}

/// A record written through [`PageFrameManager::get`] is what a later read of
/// the same frame gives back, and no other frame changes.
pub proof fn lemma_written_frame_is_read_back(s: Seq<PageFrame>, pfn: int, q: int, v: PageFrame)
    requires
        0 <= pfn < s.len(),
        0 <= q < s.len(),
    ensures
        s.update(pfn, v).len() == s.len(),
        s.update(pfn, v)[pfn] == v,
        q != pfn ==> s.update(pfn, v)[q] == s[q],
{
}

/// The metadata array's size is the byte count of its records rounded up to
/// the next multiple of the page size.
pub proof fn lemma_required_size_is_page_rounded(n: int)
    requires
        n >= 0,
    ensures
        required_size(n) % 4096 == 0,
        n * vstd::layout::size_of::<PageFrame>() <= required_size(n),
        required_size(n) < n * vstd::layout::size_of::<PageFrame>() + 4096,
{
    let sz = vstd::layout::size_of::<PageFrame>() as int;
    assert(n * sz >= 0) by (nonlinear_arith)
        requires
            n >= 0,
            sz >= 0,
    ;
}

/// After initialisation a frame that lies in the page-rounded range of some
/// usable entry, and not in the metadata array, carries no flag, whether or
/// not that entry runs past the end of the table.
pub proof fn lemma_init_clears_usable_frames(
    entries: Seq<MemmapEntry>,
    base: int,
    size: int,
    t: Seq<PageFrame>,
    idx: int,
    k: int,
)
    requires
        0 <= idx < t.len(),
        t[idx] == PageFrame::zeroed_with_flags(initial_flag_bits(entries, base, size, idx)),
        0 <= k < entries.len(),
        entries[k].type_ == MEMMAP_USABLE,
        entries[k].base as int / 4096 <= idx < (entries[k].base + entries[k].length + 4095) / 4096,
        !(base / 4096 <= idx < (base + size + 4095) / 4096),
    ensures
        t[idx].flags.bits == 0,
{
    lemma_covered_is_some_usable_range(entries, idx);
}

/// After initialisation every frame that holds part of the metadata array,
/// from the frame of its base to the frame of its last byte, is reserved.
pub proof fn lemma_init_reserves_array_frames(
    entries: Seq<MemmapEntry>,
    base: int,
    size: int,
    t: Seq<PageFrame>,
    idx: int,
)
    requires
        0 <= idx < t.len(),
        t[idx] == PageFrame::zeroed_with_flags(initial_flag_bits(entries, base, size, idx)),
        base / 4096 <= idx < (base + size + 4095) / 4096,
    ensures
        t[idx].flags.bits == 0x400,
{
}

/// After initialisation every frame outside the page-rounded range of every
/// usable entry is reserved.
pub proof fn lemma_init_reserves_unbacked_frames(
    entries: Seq<MemmapEntry>,
    base: int,
    size: int,
    t: Seq<PageFrame>,
    idx: int,
)
    requires
        0 <= idx < t.len(),
        t[idx] == PageFrame::zeroed_with_flags(initial_flag_bits(entries, base, size, idx)),
        forall|k: int|
            0 <= k < entries.len() && (#[trigger] entries[k]).type_ == MEMMAP_USABLE ==> !(
            entries[k].base as int / 4096 <= idx < (entries[k].base + entries[k].length + 4095)
                / 4096),
    ensures
        t[idx].flags.bits == 0x400,
{
    lemma_covered_is_some_usable_range(entries, idx);
}

/// After initialisation every record has zero order, links, size class,
/// reference count and freelist address.
pub proof fn lemma_init_records_are_zeroed(
    entries: Seq<MemmapEntry>,
    base: int,
    size: int,
    t: Seq<PageFrame>,
    idx: int,
)
    requires
        0 <= idx < t.len(),
        t[idx] == PageFrame::zeroed_with_flags(initial_flag_bits(entries, base, size, idx)),
    ensures
        t[idx].order == 0,
        t[idx].next == 0,
        t[idx].prev == 0,
        t[idx].size_class == 0,
        t[idx].rc == 0,
        t[idx].freelist_va == 0,
{
}

/// The table built from a memory map describes the whole pages of its total
/// length: the frame count times the page size is at most the total, and one
/// more frame would exceed it.
pub proof fn lemma_frames_for_is_whole_pages(s: Seq<MemmapEntry>)
    ensures
        frames_for(s) >= 0,
        frames_for(s) * 4096 <= total_length(s),
        total_length(s) < (frames_for(s) + 1) * 4096,
{
}

/// Setting flags on a frame sets a bit of its word exactly when it was set or
/// belongs to the flags; the rest of the record and every other frame stay.
pub proof fn lemma_set_flags_bitwise(s: Seq<PageFrame>, pfn: int, flag: PageFlags, q: int, i: u16)
    requires
        0 <= pfn < s.len(),
        0 <= q < s.len(),
        i < 16,
    ensures
        frames_set(s, pfn, flag).len() == s.len(),
        has_bit(frames_set(s, pfn, flag)[pfn].flags.bits, i) == (has_bit(s[pfn].flags.bits, i)
            || has_bit(flag.bits, i)),
        frames_set(s, pfn, flag)[pfn] == (PageFrame {
            flags: frames_set(s, pfn, flag)[pfn].flags,
            ..s[pfn]
        }),
        q != pfn ==> frames_set(s, pfn, flag)[q] == s[q],
{
    lemma_union_bitwise(s[pfn].flags.bits, flag.bits, i);
}

/// Clearing flags on a frame keeps a bit of its word exactly when it was set,
/// belongs to a declared flag and is not among the flags cleared; the rest of
/// the record and every other frame stay.
pub proof fn lemma_clear_flags_bitwise(s: Seq<PageFrame>, pfn: int, flag: PageFlags, q: int, i: u16)
    requires
        0 <= pfn < s.len(),
        0 <= q < s.len(),
        i < 16,
    ensures
        frames_clear(s, pfn, flag).len() == s.len(),
        has_bit(frames_clear(s, pfn, flag)[pfn].flags.bits, i) == (has_bit(s[pfn].flags.bits, i)
            && !has_bit(flag.bits, i) && i < 11),
        frames_clear(s, pfn, flag)[pfn] == (PageFrame {
            flags: frames_clear(s, pfn, flag)[pfn].flags,
            ..s[pfn]
        }),
        q != pfn ==> frames_clear(s, pfn, flag)[q] == s[q],
{
    lemma_complement_bitwise(flag.bits, i);
    lemma_intersection_bitwise(s[pfn].flags.bits, complement_bits(flag.bits), i);
}

/// A check sees a flag value exactly when the frame's word shares a bit with
/// it: a common bit makes it true, and a true check means the words meet.
pub proof fn lemma_check_flags_bitwise(s: Seq<PageFrame>, pfn: int, flag: PageFlags, i: u16)
    requires
        0 <= pfn < s.len(),
        i < 16,
    ensures
        has_bit(s[pfn].flags.bits, i) && has_bit(flag.bits, i) ==> frames_check(s, pfn, flag),
        frames_check(s, pfn, flag) ==> s[pfn].flags.bits & flag.bits != 0,
{
    lemma_intersects_is_common_bit(s[pfn].flags.bits, flag.bits, i);
}

} // verus!
