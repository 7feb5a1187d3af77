//! The bootloader's memory map, as the frame manager reads it.
use vstd::prelude::*;

verus! {

/// Size in bytes of one page frame.
pub const PAGE_SIZE: usize = 4096;

/// Type tag of a memory map entry that describes RAM free for the kernel's use
/// (Limine boot protocol, memory map feature).
pub const MEMMAP_USABLE: u64 = 0;

/// One entry of the memory map: a physical range and its type tag.
#[derive(Debug, Clone, Copy, PartialEq, Eq, Structural)]
pub struct MemmapEntry {
    /// Physical start address of the range.
    pub base: u64,
    /// Length of the range in bytes.
    pub length: u64,
    /// Type tag of the range ([`MEMMAP_USABLE`] for usable RAM).
    pub type_: u64,
}

impl MemmapEntry {
    /// Whether the entry describes usable RAM.
    pub open spec fn is_usable(self) -> bool {
        self.type_ == MEMMAP_USABLE
    }

    /// The first frame number the entry touches.
    pub open spec fn first_frame(self) -> int {
        self.base as int / 4096
    }

    /// One past the last frame number the entry touches (its end rounded up
    /// to a frame boundary).
    pub open spec fn end_frame(self) -> int {
        (self.base + self.length + 4095) / 4096
    }
}

/// The sum of the lengths of all entries.
pub open spec fn total_length(s: Seq<MemmapEntry>) -> nat
    decreases s.len(),
{
    if s.len() == 0 {
        0
    } else {
        total_length(s.drop_last()) + s.last().length as nat
    }
}

/// `x` rounded up to the next multiple of the page size.
pub open spec fn round_up_to_page(x: int) -> int {
    if x % 4096 == 0 {
        x
    } else {
        x - x % 4096 + 4096
    }
}

/// Whether a usable entry's addresses fit in `usize`, so that its start and
/// its page-rounded end can be computed without overflow.
pub open spec fn usable_entries_addressable(s: Seq<MemmapEntry>) -> bool {
    forall|i: int|
        0 <= i < s.len() && (#[trigger] s[i]).is_usable() ==> s[i].base + s[i].length + 4095
            <= usize::MAX
}

/// Whether every usable entry's base and length fit in `usize`.
pub open spec fn usable_entries_fit(s: Seq<MemmapEntry>) -> bool {
    forall|i: int|
        0 <= i < s.len() && (#[trigger] s[i]).is_usable() ==> s[i].base <= usize::MAX
            && s[i].length <= usize::MAX
}

/// Whether entry `e` can hold a metadata array of `required` bytes.
pub open spec fn is_candidate(e: MemmapEntry, required: int) -> bool {
    &&& e.is_usable()
    &&& e.length >= required
    &&& e.length > 0
}

/// Whether some entry of `s` can hold a metadata array of `required` bytes.
pub open spec fn has_candidate(s: Seq<MemmapEntry>, required: int) -> bool {
    exists|i: int| 0 <= i < s.len() && is_candidate(#[trigger] s[i], required)
}

/// Whether entry `i` is the region chosen for a metadata array of `required`
/// bytes: the longest candidate, and the first one among equally long ones.
pub open spec fn is_best_place(s: Seq<MemmapEntry>, required: int, i: int) -> bool {
    &&& 0 <= i < s.len()
    &&& is_candidate(s[i], required)
    &&& forall|j: int|
        0 <= j < s.len() && is_candidate(#[trigger] s[j], required) ==> s[j].length
            <= s[i].length
    &&& forall|j: int|
        0 <= j < i && is_candidate(#[trigger] s[j], required) ==> s[j].length < s[i].length
}

/// Whether one of the first `k` entries of `s` is usable and touches frame `idx`.
pub open spec fn covered_by_first(s: Seq<MemmapEntry>, k: int, idx: int) -> bool {
    exists|m: int| 0 <= m < k && covers(#[trigger] s[m], idx)
}

/// Whether some usable entry of `s` touches frame `idx`.
pub open spec fn covered(s: Seq<MemmapEntry>, idx: int) -> bool {
    covered_by_first(s, s.len() as int, idx)
}

/// Whether `e` is usable and touches frame `idx`.
pub open spec fn covers(e: MemmapEntry, idx: int) -> bool {
    e.is_usable() && e.first_frame() <= idx < e.end_frame()
}

/// The total length of the empty map is zero, and appending an entry adds its
/// full length to the total.
pub proof fn lemma_total_length_sums_lengths(s: Seq<MemmapEntry>, e: MemmapEntry)
    ensures
        total_length(Seq::<MemmapEntry>::empty()) == 0,
        total_length(s.push(e)) == total_length(s) + e.length,
{
    assert(s.push(e).drop_last() =~= s);
}

/// A map has room for an array of `required` bytes exactly when some usable
/// entry, wherever it stands, has nonzero length and at least `required` bytes.
pub proof fn lemma_has_candidate_is_some_fitting_entry(s: Seq<MemmapEntry>, required: int)
    ensures
        has_candidate(s, required) == exists|k: int|
            0 <= k < s.len() && (#[trigger] s[k]).type_ == MEMMAP_USABLE && s[k].length > 0
                && s[k].length >= required,
{
    if has_candidate(s, required) {
        let k = choose|k: int| 0 <= k < s.len() && is_candidate(#[trigger] s[k], required);
        assert(s[k].type_ == MEMMAP_USABLE);
    }
    if exists|k: int|
        0 <= k < s.len() && (#[trigger] s[k]).type_ == MEMMAP_USABLE && s[k].length > 0
            && s[k].length >= required {
        let k = choose|k: int|
            0 <= k < s.len() && (#[trigger] s[k]).type_ == MEMMAP_USABLE && s[k].length > 0
                && s[k].length >= required;
        assert(is_candidate(s[k], required));
    }
}

/// Appending an entry to a map keeps any room it had, and adds room exactly
/// when the new entry is usable, nonempty and long enough.
pub proof fn lemma_has_candidate_push(s: Seq<MemmapEntry>, e: MemmapEntry, required: int)
    ensures
        has_candidate(s.push(e), required) == (has_candidate(s, required) || (e.type_
            == MEMMAP_USABLE && e.length > 0 && e.length >= required)),
{
    let t = s.push(e);
    if has_candidate(s, required) {
        let k = choose|k: int| 0 <= k < s.len() && is_candidate(#[trigger] s[k], required);
        assert(t[k] == s[k]);
    }
    if e.type_ == MEMMAP_USABLE && e.length > 0 && e.length >= required {
        assert(is_candidate(t[s.len() as int], required));
    }
    if has_candidate(t, required) {
        let k = choose|k: int| 0 <= k < t.len() && is_candidate(#[trigger] t[k], required);
        if k < s.len() {
            assert(s[k] == t[k]);
        }
    }
}

/// The chosen place is a usable, nonempty entry that can hold the array; no
/// usable entry that can hold it is longer (lengths compared in full), and
/// every one before it is strictly shorter.
pub proof fn lemma_best_place_is_longest(s: Seq<MemmapEntry>, required: int, i: int)
    requires
        is_best_place(s, required, i),
    ensures
        0 <= i < s.len(),
        s[i].type_ == MEMMAP_USABLE,
        s[i].length > 0,
        s[i].length >= required,
        forall|j: int|
            0 <= j < s.len() && (#[trigger] s[j]).type_ == MEMMAP_USABLE && s[j].length > 0
                && s[j].length >= required ==> (s[j].length as int) <= (s[i].length as int),
        forall|j: int|
            0 <= j < i && (#[trigger] s[j]).type_ == MEMMAP_USABLE && s[j].length > 0
                && s[j].length >= required ==> (s[j].length as int) < (s[i].length as int),
{
    assert forall|j: int|
        0 <= j < s.len() && (#[trigger] s[j]).type_ == MEMMAP_USABLE && s[j].length > 0
            && s[j].length >= required implies (s[j].length as int) <= (s[i].length as int) by {
        assert(is_candidate(s[j], required));
    }
    assert forall|j: int|
        0 <= j < i && (#[trigger] s[j]).type_ == MEMMAP_USABLE && s[j].length > 0 && s[j].length
            >= required implies (s[j].length as int) < (s[i].length as int) by {
        assert(is_candidate(s[j], required));
    }
}

/// At most one entry is the chosen place.
pub proof fn lemma_best_place_is_unique(s: Seq<MemmapEntry>, required: int, i: int, j: int)
    requires
        is_best_place(s, required, i),
        is_best_place(s, required, j),
    ensures
        i == j,
{
    assert(is_candidate(s[i], required));
    assert(is_candidate(s[j], required));
}

/// Frame `idx` is covered exactly when some usable entry's page-rounded range
/// holds it, whatever the table's length.
pub proof fn lemma_covered_is_some_usable_range(s: Seq<MemmapEntry>, idx: int)
    ensures
        covered(s, idx) == exists|k: int|
            0 <= k < s.len() && (#[trigger] s[k]).type_ == MEMMAP_USABLE && s[k].base as int
                / 4096 <= idx < (s[k].base + s[k].length + 4095) / 4096,
{
    if covered(s, idx) {
        let k = choose|k: int| 0 <= k < s.len() && covers(#[trigger] s[k], idx);
        assert(s[k].type_ == MEMMAP_USABLE);
    }
    if exists|k: int|
        0 <= k < s.len() && (#[trigger] s[k]).type_ == MEMMAP_USABLE && s[k].base as int / 4096
            <= idx < (s[k].base + s[k].length + 4095) / 4096 {
        let k = choose|k: int|
            0 <= k < s.len() && (#[trigger] s[k]).type_ == MEMMAP_USABLE && s[k].base as int
                / 4096 <= idx < (s[k].base + s[k].length + 4095) / 4096;
        assert(covers(s[k], idx));
    }
}

} // verus!
