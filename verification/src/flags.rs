//! Page frame status flags.
use vstd::prelude::*;
use vstd::std_specs::ops::{BitOrSpec, BitAndSpec, BitXorSpec, SubSpec, NotSpec};
use vstd::std_specs::convert::FromSpec;

verus! {

/// Page frame status flags.
///
/// These flags track the state of a physical page frame, such as whether it is
/// locked, dirty, up-to-date, part of the LRU list, etc. The value is a plain
/// 16-bit word; every declared flag occupies one bit of it, and bits outside
/// [`ALL_BITS`] are carried along unchanged by the raw operations.
#[derive(Debug, Clone, Copy, PartialEq, Eq, Structural)]
pub struct PageFlags {
    /// The raw bit pattern.
    pub bits: u16,
}

/// The union of the bits of every declared flag.
pub const ALL_BITS: u16 = 0x7ff;

/// Bit of [`PageFlags::LOCKED`].
pub const LOCKED_BIT: u16 = 0x1;
/// Bit of [`PageFlags::DIRTY`].
pub const DIRTY_BIT: u16 = 0x2;
/// Bit of [`PageFlags::UPTODATE`].
pub const UPTODATE_BIT: u16 = 0x4;
/// Bit of [`PageFlags::LRU`].
pub const LRU_BIT: u16 = 0x8;
/// Bit of [`PageFlags::SMALL`].
pub const SMALL_BIT: u16 = 0x10;
/// Bit of [`PageFlags::COMPOUND`].
pub const COMPOUND_BIT: u16 = 0x20;
/// Bit of [`PageFlags::SWAPCACHE`].
pub const SWAPCACHE_BIT: u16 = 0x40;
/// Bit of [`PageFlags::WRITEBACK`].
pub const WRITEBACK_BIT: u16 = 0x80;
/// Bit of [`PageFlags::PAGETABLE`].
pub const PAGETABLE_BIT: u16 = 0x100;
/// Bit of [`PageFlags::FILE`].
pub const FILE_BIT: u16 = 0x200;
/// Bit of [`PageFlags::RESERVED`].
pub const RESERVED_BIT: u16 = 0x400;

/// Complement of a flag word, restricted to the declared flags.
pub open spec fn complement_bits(bits: u16) -> u16 {
    !bits & ALL_BITS
}

/// Whether bit `i` of the word `x` is set.
pub open spec fn has_bit(x: u16, i: u16) -> bool {
    x & (1u16 << i) != 0
}

/// The bits set in `a` or in `b`.
pub open spec fn union_bits(a: u16, b: u16) -> u16 {
    a | b
}

/// The bits set in both `a` and `b`.
pub open spec fn intersection_bits(a: u16, b: u16) -> u16 {
    a & b
}

/// The bits of `a` not set in `b`.
pub open spec fn difference_bits(a: u16, b: u16) -> u16 {
    a & !b
}

/// The bits set in exactly one of `a` and `b`.
pub open spec fn xor_bits(a: u16, b: u16) -> u16 {
    a ^ b
}

/// Whether every bit of `b` is set in `a`.
pub open spec fn contains_bits(a: u16, b: u16) -> bool {
    a & b == b
}

/// Whether some bit is set in both `a` and `b`.
pub open spec fn intersects_bits(a: u16, b: u16) -> bool {
    a & b != 0
}

#[allow(non_snake_case)]
impl PageFlags {
    /// Page is locked and cannot be evicted or moved.
    pub fn LOCKED() -> (r: PageFlags)
        ensures
            r.bits == LOCKED_BIT,
    {
        PageFlags { bits: LOCKED_BIT }
    }

    /// Page has been written to (needs flushing to backing store).
    pub fn DIRTY() -> (r: PageFlags)
        ensures
            r.bits == DIRTY_BIT,
    {
        PageFlags { bits: DIRTY_BIT }
    }

    /// Page content is up-to-date with its backing store.
    pub fn UPTODATE() -> (r: PageFlags)
        ensures
            r.bits == UPTODATE_BIT,
    {
        PageFlags { bits: UPTODATE_BIT }
    }

    /// Page is on the LRU (least recently used) list.
    pub fn LRU() -> (r: PageFlags)
        ensures
            r.bits == LRU_BIT,
    {
        PageFlags { bits: LRU_BIT }
    }

    /// Page is a small (order-0) allocation.
    pub fn SMALL() -> (r: PageFlags)
        ensures
            r.bits == SMALL_BIT,
    {
        PageFlags { bits: SMALL_BIT }
    }

    /// Page is part of a compound page (e.g., huge page).
    pub fn COMPOUND() -> (r: PageFlags)
        ensures
            r.bits == COMPOUND_BIT,
    {
        PageFlags { bits: COMPOUND_BIT }
    }

    /// Page is in the swap cache.
    pub fn SWAPCACHE() -> (r: PageFlags)
        ensures
            r.bits == SWAPCACHE_BIT,
    {
        PageFlags { bits: SWAPCACHE_BIT }
    }

    /// Page is currently being written back to disk.
    pub fn WRITEBACK() -> (r: PageFlags)
        ensures
            r.bits == WRITEBACK_BIT,
    {
        PageFlags { bits: WRITEBACK_BIT }
    }

    /// Page is used as a page table.
    pub fn PAGETABLE() -> (r: PageFlags)
        ensures
            r.bits == PAGETABLE_BIT,
    {
        PageFlags { bits: PAGETABLE_BIT }
    }

    /// Page belongs to a file mapping.
    pub fn FILE() -> (r: PageFlags)
        ensures
            r.bits == FILE_BIT,
    {
        PageFlags { bits: FILE_BIT }
    }

    /// Page is reserved (e.g., used by kernel or unavailable).
    pub fn RESERVED() -> (r: PageFlags)
        ensures
            r.bits == RESERVED_BIT,
    {
        PageFlags { bits: RESERVED_BIT }
    }

    /// The value with no flag set.
    pub fn empty() -> (r: PageFlags)
        ensures
            r.bits == 0,
    {
        PageFlags { bits: 0 }
    }

    /// The value with every declared flag set.
    pub fn all() -> (r: PageFlags)
        ensures
            r.bits == ALL_BITS,
    {
        PageFlags { bits: ALL_BITS }
    }

    /// The raw bit pattern.
    pub fn bits(&self) -> (r: u16)
        ensures
            r == self.bits,
    {
        self.bits
    }

    /// The value with exactly the given bits, declared or not.
    pub fn from_bits_retain(bits: u16) -> (r: PageFlags)
        ensures
            r.bits == bits,
    {
        PageFlags { bits }
    }

    /// The value with the given bits, dropping those of no declared flag.
    pub fn from_bits_truncate(bits: u16) -> (r: PageFlags)
        ensures
            r.bits == intersection_bits(bits, ALL_BITS),
    {
        PageFlags { bits: bits & ALL_BITS }
    }

    /// The value with exactly the given bits, when each of them belongs to a
    /// declared flag; `None` otherwise.
    pub fn from_bits(bits: u16) -> (r: Option<PageFlags>)
        ensures
            r == (if contains_bits(ALL_BITS, bits) {
                Some(PageFlags { bits })
            } else {
                None
            }),
    {
        assert((bits & 0x7ffu16 == bits) == (0x7ffu16 & bits == bits)) by (bit_vector);
        if bits & ALL_BITS == bits {
            Some(PageFlags { bits })
        } else {
            None
        }
    }

    /// Whether every declared flag is set.
    pub fn is_all(&self) -> (r: bool)
        ensures
            r == (union_bits(ALL_BITS, self.bits) == self.bits),
    {
        ALL_BITS | self.bits == self.bits
    }

    /// Whether no bit is set.
    pub fn is_empty(&self) -> (r: bool)
        ensures
            r == (self.bits == 0),
    {
        self.bits == 0
    }

    /// Whether every bit of `other` is set in `self`.
    pub fn contains(&self, other: PageFlags) -> (r: bool)
        ensures
            r == contains_bits(self.bits, other.bits),
    {
        self.bits & other.bits == other.bits
    }

    /// Whether some bit of `other` is set in `self`.
    pub fn intersects(&self, other: PageFlags) -> (r: bool)
        ensures
            r == intersects_bits(self.bits, other.bits),
    {
        self.bits & other.bits != 0
    }

    /// Sets every bit of `other` in `self`.
    pub fn insert(&mut self, other: PageFlags)
        ensures
            final(self).bits == union_bits(old(self).bits, other.bits),
    {
        self.bits = self.bits | other.bits;
    }

    /// Clears every bit of `other` in `self`.
    pub fn remove(&mut self, other: PageFlags)
        ensures
            final(self).bits == difference_bits(old(self).bits, other.bits),
    {
        self.bits = self.bits & !other.bits;
    }

    /// Flips every bit of `other` in `self`.
    pub fn toggle(&mut self, other: PageFlags)
        ensures
            final(self).bits == xor_bits(old(self).bits, other.bits),
    {
        self.bits = self.bits ^ other.bits;
    }

    /// Sets the bits of `other` when `value` holds, clears them otherwise.
    pub fn set(&mut self, other: PageFlags, value: bool)
        ensures
            final(self).bits == (if value {
                union_bits(old(self).bits, other.bits)
            } else {
                difference_bits(old(self).bits, other.bits)
            }),
    {
        if value {
            self.insert(other);
        } else {
            self.remove(other);
        }
    }

    /// The bits set in either value.
    pub fn union(self, other: PageFlags) -> (r: PageFlags)
        ensures
            r.bits == union_bits(self.bits, other.bits),
    {
        PageFlags { bits: self.bits | other.bits }
    }

    /// The bits set in both values.
    pub fn intersection(self, other: PageFlags) -> (r: PageFlags)
        ensures
            r.bits == intersection_bits(self.bits, other.bits),
    {
        PageFlags { bits: self.bits & other.bits }
    }

    /// The bits of `self` not set in `other` (nothing of `other` is dropped
    /// first, declared or not).
    pub fn difference(self, other: PageFlags) -> (r: PageFlags)
        ensures
            r.bits == difference_bits(self.bits, other.bits),
    {
        PageFlags { bits: self.bits & !other.bits }
    }

    /// The bits set in exactly one of the two values.
    pub fn symmetric_difference(self, other: PageFlags) -> (r: PageFlags)
        ensures
            r.bits == xor_bits(self.bits, other.bits),
    {
        PageFlags { bits: self.bits ^ other.bits }
    }

    /// The declared flags that are not set in `self`.
    pub fn complement(self) -> (r: PageFlags)
        ensures
            r.bits == complement_bits(self.bits),
    {
        PageFlags { bits: !self.bits & ALL_BITS }
    }
}

impl core::ops::BitOr for PageFlags {
    type Output = PageFlags;

    /// The union of two flag values (raw bits, nothing dropped).
    fn bitor(self, rhs: PageFlags) -> (r: PageFlags) {
        PageFlags { bits: self.bits | rhs.bits }
    }
}

impl vstd::std_specs::ops::BitOrSpecImpl for PageFlags {
    open spec fn obeys_bitor_spec() -> bool {
        true
    }

    open spec fn bitor_req(self, rhs: PageFlags) -> bool {
        true
    }

    open spec fn bitor_spec(self, rhs: PageFlags) -> PageFlags {
        PageFlags { bits: union_bits(self.bits, rhs.bits) }
    }
}

impl core::ops::BitAnd for PageFlags {
    type Output = PageFlags;

    /// The intersection of two flag values.
    fn bitand(self, rhs: PageFlags) -> (r: PageFlags) {
        PageFlags { bits: self.bits & rhs.bits }
    }
}

impl vstd::std_specs::ops::BitAndSpecImpl for PageFlags {
    open spec fn obeys_bitand_spec() -> bool {
        true
    }

    open spec fn bitand_req(self, rhs: PageFlags) -> bool {
        true
    }

    open spec fn bitand_spec(self, rhs: PageFlags) -> PageFlags {
        PageFlags { bits: intersection_bits(self.bits, rhs.bits) }
    }
}

impl core::ops::BitXor for PageFlags {
    type Output = PageFlags;

    /// The bits set in exactly one of the two values.
    fn bitxor(self, rhs: PageFlags) -> (r: PageFlags) {
        PageFlags { bits: self.bits ^ rhs.bits }
    }
}

impl vstd::std_specs::ops::BitXorSpecImpl for PageFlags {
    open spec fn obeys_bitxor_spec() -> bool {
        true
    }

    open spec fn bitxor_req(self, rhs: PageFlags) -> bool {
        true
    }

    open spec fn bitxor_spec(self, rhs: PageFlags) -> PageFlags {
        PageFlags { bits: xor_bits(self.bits, rhs.bits) }
    }
}

impl core::ops::Sub for PageFlags {
    type Output = PageFlags;

    /// The bits of `self` not set in `rhs` (`rhs` is not truncated first).
    fn sub(self, rhs: PageFlags) -> (r: PageFlags) {
        PageFlags { bits: self.bits & !rhs.bits }
    }
}

impl vstd::std_specs::ops::SubSpecImpl for PageFlags {
    open spec fn obeys_sub_spec() -> bool {
        true
    }

    open spec fn sub_req(self, rhs: PageFlags) -> bool {
        true
    }

    open spec fn sub_spec(self, rhs: PageFlags) -> PageFlags {
        PageFlags { bits: difference_bits(self.bits, rhs.bits) }
    }
}

impl Default for PageFlags {
    /// The value with no flag set.
    fn default() -> (r: PageFlags)
        ensures
            r.bits == 0,
    {
        PageFlags::empty()
    }
}

impl core::ops::Not for PageFlags {
    type Output = PageFlags;

    /// The declared flags that are not set (bits of no declared flag are dropped).
    fn not(self) -> (r: PageFlags) {
        PageFlags { bits: !self.bits & ALL_BITS }
    }
}

impl vstd::std_specs::ops::NotSpecImpl for PageFlags {
    open spec fn obeys_not_spec() -> bool {
        true
    }

    open spec fn not_req(self) -> bool {
        true
    }

    open spec fn not_spec(self) -> PageFlags {
        PageFlags { bits: complement_bits(self.bits) }
    }
}

impl core::convert::From<usize> for PageFlags {
    /// Reinterprets an integer as a flag word: the low 16 bits become the
    /// flag bits, every one of them kept, declared or not.
    fn from(value: usize) -> (r: PageFlags) {
        PageFlags { bits: value as u16 }
    }
}

impl vstd::std_specs::convert::FromSpecImpl<usize> for PageFlags {
    open spec fn obeys_from_spec() -> bool {
        true
    }

    open spec fn from_spec(value: usize) -> PageFlags {
        PageFlags { bits: value as u16 }
    }
}

/// The declared flags are exactly bits 0 to 10 of the word.
pub proof fn lemma_declared_bits(i: u16)
    requires
        i < 16,
    ensures
        has_bit(ALL_BITS, i) == (i < 11),
{
    assert(has_bit(0x7ffu16, i) == (i < 11)) by (bit_vector)
        requires
            i < 16,
    ;
}

/// A bit is set in the union of two words exactly when it is set in one of them.
pub proof fn lemma_union_bitwise(a: u16, b: u16, i: u16)
    requires
        i < 16,
    ensures
        has_bit(union_bits(a, b), i) == (has_bit(a, i) || has_bit(b, i)),
{
    assert(has_bit(union_bits(a, b), i) == (has_bit(a, i) || has_bit(b, i))) by (bit_vector)
        requires
            i < 16,
    ;
}

/// A bit is set in the intersection of two words exactly when it is set in both.
pub proof fn lemma_intersection_bitwise(a: u16, b: u16, i: u16)
    requires
        i < 16,
    ensures
        has_bit(intersection_bits(a, b), i) == (has_bit(a, i) && has_bit(b, i)),
{
    assert(has_bit(intersection_bits(a, b), i) == (has_bit(a, i) && has_bit(b, i))) by (bit_vector)
        requires
            i < 16,
    ;
}

/// A bit is set in the difference `a` minus `b` exactly when it is set in `a`
/// and not in `b`.
pub proof fn lemma_difference_bitwise(a: u16, b: u16, i: u16)
    requires
        i < 16,
    ensures
        has_bit(difference_bits(a, b), i) == (has_bit(a, i) && !has_bit(b, i)),
{
    assert(has_bit(difference_bits(a, b), i) == (has_bit(a, i) && !has_bit(b, i))) by (bit_vector)
        requires
            i < 16,
    ;
}

/// A bit is set in the symmetric difference exactly when it is set in one
/// word and not the other.
pub proof fn lemma_xor_bitwise(a: u16, b: u16, i: u16)
    requires
        i < 16,
    ensures
        has_bit(xor_bits(a, b), i) == (has_bit(a, i) != has_bit(b, i)),
{
    assert(has_bit(xor_bits(a, b), i) == (has_bit(a, i) != has_bit(b, i))) by (bit_vector)
        requires
            i < 16,
    ;
}

/// A bit is set in the complement exactly when it belongs to a declared flag
/// and is not set in the word.
pub proof fn lemma_complement_bitwise(a: u16, i: u16)
    requires
        i < 16,
    ensures
        has_bit(complement_bits(a), i) == (i < 11 && !has_bit(a, i)),
{
    assert(has_bit(complement_bits(a), i) == (i < 11 && !has_bit(a, i))) by (bit_vector)
        requires
            i < 16,
    ;
}

/// A word contains another exactly when adding the other changes nothing, and
/// then every bit of the other is set in it.
pub proof fn lemma_contains_is_inclusion(a: u16, b: u16, i: u16)
    requires
        i < 16,
    ensures
        contains_bits(a, b) == (a | b == a),
        contains_bits(a, b) && has_bit(b, i) ==> has_bit(a, i),
        has_bit(b, i) && !has_bit(a, i) ==> !contains_bits(a, b),
{
    assert(contains_bits(a, b) == (a | b == a)) by (bit_vector);
    assert(contains_bits(a, b) && has_bit(b, i) ==> has_bit(a, i)) by (bit_vector)
        requires
            i < 16,
    ;
}

/// Two words intersect exactly when some bit is set in both.
pub proof fn lemma_intersects_is_common_bit(a: u16, b: u16, i: u16)
    requires
        i < 16,
    ensures
        has_bit(a, i) && has_bit(b, i) ==> intersects_bits(a, b),
        intersects_bits(a, b) == (a & b != 0),
        !intersects_bits(a, b) ==> !(has_bit(a, i) && has_bit(b, i)),
{
    assert(has_bit(a, i) && has_bit(b, i) ==> intersects_bits(a, b)) by (bit_vector)
        requires
            i < 16,
    ;
}

/// The `|` operator on flag values sets a bit exactly when one operand has it;
/// in particular `a | a == a`.
pub proof fn lemma_bitor_is_union(a: PageFlags, b: PageFlags, i: u16)
    requires
        i < 16,
    ensures
        has_bit(a.bitor_spec(b).bits, i) == (has_bit(a.bits, i) || has_bit(b.bits, i)),
        a.bitor_spec(a) == a,
{
    lemma_union_bitwise(a.bits, b.bits, i);
    let x = a.bits;
    assert(x | x == x) by (bit_vector);
}

/// The `&` operator on flag values sets a bit exactly when both operands have it.
pub proof fn lemma_bitand_is_intersection(a: PageFlags, b: PageFlags, i: u16)
    requires
        i < 16,
    ensures
        has_bit(a.bitand_spec(b).bits, i) == (has_bit(a.bits, i) && has_bit(b.bits, i)),
{
    lemma_intersection_bitwise(a.bits, b.bits, i);
}

/// The `^` operator on flag values sets a bit exactly when one operand has it
/// and the other does not.
pub proof fn lemma_bitxor_is_symmetric_difference(a: PageFlags, b: PageFlags, i: u16)
    requires
        i < 16,
    ensures
        has_bit(a.bitxor_spec(b).bits, i) == (has_bit(a.bits, i) != has_bit(b.bits, i)),
{
    lemma_xor_bitwise(a.bits, b.bits, i);
}

/// The `-` operator on flag values keeps exactly the bits of the left operand
/// that the right one does not have.
pub proof fn lemma_sub_is_difference(a: PageFlags, b: PageFlags, i: u16)
    requires
        i < 16,
    ensures
        has_bit(a.sub_spec(b).bits, i) == (has_bit(a.bits, i) && !has_bit(b.bits, i)),
{
    lemma_difference_bitwise(a.bits, b.bits, i);
}

/// The `!` operator on flag values sets exactly the declared flags the operand
/// lacks.
pub proof fn lemma_not_is_complement(a: PageFlags, i: u16)
    requires
        i < 16,
    ensures
        has_bit(a.not_spec().bits, i) == (i < 11 && !has_bit(a.bits, i)),
{
    lemma_complement_bitwise(a.bits, i);
}

/// Converting an integer keeps its value modulo 2^16: its low 16 bits.
pub proof fn lemma_from_usize_keeps_low_bits(v: usize)
    ensures
        <PageFlags as FromSpec<usize>>::from_spec(v).bits as int == v as int % 0x10000,
{
    assert(v as u16 == v % 0x10000) by (bit_vector);
}

/// Each declared flag is one bit, at its position in the declaration order
/// (`1 << 0` to `1 << 10`), and the declared flags together make up `ALL_BITS`.
pub proof fn lemma_flag_bits_are_positions()
    ensures
        LOCKED_BIT == 1u16 << 0u16,
        DIRTY_BIT == 1u16 << 1u16,
        UPTODATE_BIT == 1u16 << 2u16,
        LRU_BIT == 1u16 << 3u16,
        SMALL_BIT == 1u16 << 4u16,
        COMPOUND_BIT == 1u16 << 5u16,
        SWAPCACHE_BIT == 1u16 << 6u16,
        WRITEBACK_BIT == 1u16 << 7u16,
        PAGETABLE_BIT == 1u16 << 8u16,
        FILE_BIT == 1u16 << 9u16,
        RESERVED_BIT == 1u16 << 10u16,
        ALL_BITS == LOCKED_BIT | DIRTY_BIT | UPTODATE_BIT | LRU_BIT | SMALL_BIT | COMPOUND_BIT
            | SWAPCACHE_BIT | WRITEBACK_BIT | PAGETABLE_BIT | FILE_BIT | RESERVED_BIT,
{
    assert(1u16 << 0u16 == 1u16) by (bit_vector);
    assert(1u16 << 1u16 == 2u16) by (bit_vector);
    assert(1u16 << 2u16 == 4u16) by (bit_vector);
    assert(1u16 << 3u16 == 8u16) by (bit_vector);
    assert(1u16 << 4u16 == 0x10u16) by (bit_vector);
    assert(1u16 << 5u16 == 0x20u16) by (bit_vector);
    assert(1u16 << 6u16 == 0x40u16) by (bit_vector);
    assert(1u16 << 7u16 == 0x80u16) by (bit_vector);
    assert(1u16 << 8u16 == 0x100u16) by (bit_vector);
    assert(1u16 << 9u16 == 0x200u16) by (bit_vector);
    assert(1u16 << 10u16 == 0x400u16) by (bit_vector);
    assert(1u16 | 2u16 | 4u16 | 8u16 | 0x10u16 | 0x20u16 | 0x40u16 | 0x80u16 | 0x100u16 | 0x200u16
        | 0x400u16 == 0x7ffu16) by (bit_vector);
}

} // verus!
