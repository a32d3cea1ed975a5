//! From positions in the ring to offsets and windows in its double mapping.
//!
//! A ring of `len` bytes is mapped at the offsets `0 .. len` of its window and
//! again at the offsets `len .. 2 * len`. Everything here is arithmetic on
//! those offsets; the laws at the end say what a reader or writer that goes
//! through them sees of the ring.

use vstd::prelude::*;
use vstd::arithmetic::div_mod::{
    lemma_fundamental_div_mod,
    lemma_mod_add_multiples_vanish,
    lemma_mod_bound,
    lemma_mod_equivalence,
    lemma_mod_self_0,
    lemma_small_mod,
};
use vstd::arithmetic::power2::is_pow2;

verus! {

/// A run of bytes in the double mapping: it starts `start` bytes above the
/// base of the mapping and is `len` bytes long.
#[derive(Clone, Copy, Debug, PartialEq, Eq, Structural)]
pub struct Window {
    pub start: usize,
    pub len: usize,
}

/// A [`Window`] as a pair of integers.
pub struct Span {
    pub start: int,
    pub len: int,
}

impl View for Window {
    type V = Span;

    open spec fn view(&self) -> Span {
        Span { start: self.start as int, len: self.len as int }
    }
}

/// The byte of the ring that the double mapping shows at `offset`.
pub open spec fn ring_byte(len: int, offset: int) -> int {
    offset % len
}

/// The offset at which position `index` is read and written. A position
/// that is not negative wraps around the ring; a negative one counts back
/// from the end of the lower half, so that `-1` is the last byte.
pub open spec fn offset_of(len: int, index: int) -> int {
    if index >= 0 {
        index % len
    } else {
        len - (-index) % len
    }
}

/// The window of the positions `start .. end`. It is empty where `end` lies
/// before `start`.
pub open spec fn range(len: int, start: int, end: int) -> Span {
    if start > end {
        Span { start: 0, len: 0 }
    } else {
        Span { start: start % len, len: end - start }
    }
}

/// The window of the whole ring that begins at position `start`.
pub open spec fn range_from(len: int, start: int) -> Span {
    Span { start: start % len, len }
}

/// The window of the whole ring that ends before position `end`.
pub open spec fn range_to(len: int, end: int) -> Span {
    Span { start: (end - len) % len, len }
}

/// The window of the whole ring that ends with position `end`.
pub open spec fn range_to_inclusive(len: int, end: int) -> Span {
    Span { start: (end - len + 1) % len, len }
}

/// The window of the whole ring in its own order.
pub open spec fn range_full(len: int) -> Span {
    Span { start: 0, len }
}

/// A span lies inside the double mapping of a ring of `len` bytes: it starts
/// in the lower half and is no longer than the ring.
pub open spec fn inside(len: int, span: Span) -> bool {
    &&& 0 <= span.start
    &&& 0 <= span.len <= len
    &&& span.start < len || span.len == 0 && span.start == 0
    &&& span.start + span.len <= 2 * len
}

/// The byte that a reader sees at position `index` of `ring`.
pub open spec fn read(ring: Seq<u8>, index: int) -> u8 {
    ring[ring_byte(ring.len() as int, offset_of(ring.len() as int, index))]
}

/// The ring after `value` was written at position `index`.
pub open spec fn write(ring: Seq<u8>, index: int, value: u8) -> Seq<u8> {
    ring.update(ring_byte(ring.len() as int, offset_of(ring.len() as int, index)), value)
}

/// The bytes that a window shows of `ring`.
pub open spec fn shown(ring: Seq<u8>, span: Span) -> Seq<u8> {
    Seq::new(span.len as nat, |k: int| ring[ring_byte(ring.len() as int, span.start + k)])
}

/// Every position is read and written inside the double mapping: at an offset
/// of the lower half, or, for a negative multiple of `len`, at the first
/// offset of the upper half.
pub proof fn lemma_offset_inside(len: int, index: int)
    requires
        len > 0,
    ensures
        0 <= offset_of(len, index) <= len,
        index >= 0 ==> offset_of(len, index) < len,
        0 <= ring_byte(len, offset_of(len, index)) < len,
{
    lemma_mod_bound(index, len);
    lemma_mod_bound(-index, len);
    lemma_mod_bound(offset_of(len, index), len);
}

/// Every window of the six shapes lies inside the double mapping, as long as
/// a window from one position to another is no longer than the ring.
pub proof fn lemma_windows_inside(len: int, start: int, end: int)
    requires
        len > 0,
    ensures
        end - start <= len ==> inside(len, range(len, start, end)),
        inside(len, range_from(len, start)),
        inside(len, range_to(len, end)),
        inside(len, range_to_inclusive(len, end)),
        inside(len, range_full(len)),
{
    lemma_mod_bound(start, len);
    lemma_mod_bound(end - len, len);
    lemma_mod_bound(end - len + 1, len);
}

/// The two halves of the double mapping show the same bytes: a value written
/// at a position of the ring is read back at that position and one ring
/// length above it, and a value written one ring length above a position is
/// read back at the position.
pub proof fn lemma_alias(ring: Seq<u8>, index: int, value: u8)
    requires
        ring.len() > 0,
        0 <= index < ring.len(),
    ensures
        read(write(ring, index, value), index) == value,
        read(write(ring, index, value), index + ring.len()) == value,
        read(write(ring, index + ring.len(), value), index) == value,
        offset_of(ring.len() as int, index) == offset_of(ring.len() as int, index + ring.len()),
        write(ring, index, value).len() == ring.len(),
{
    let len = ring.len() as int;
    lemma_small_mod(index as nat, len as nat);
    lemma_mod_add_multiples_vanish(index, len);
}

/// Counting back from the end: for `1 <= index <= len`, position `-index` is
/// read and written at offset `len - index % len`, which shows the same byte
/// of the ring as position `len - index % len`. So `-1` is the last byte, and
/// `-len` is the first, seen through the upper half.
pub proof fn lemma_negative_index(ring: Seq<u8>, index: int, value: u8)
    requires
        ring.len() > 0,
        1 <= index <= ring.len(),
    ensures
        offset_of(ring.len() as int, -index) == ring.len() - index % (ring.len() as int),
        ring_byte(ring.len() as int, offset_of(ring.len() as int, -index)) == ring_byte(
            ring.len() as int,
            offset_of(ring.len() as int, ring.len() - index % (ring.len() as int)),
        ),
        read(ring, -index) == read(ring, ring.len() - index % (ring.len() as int)),
        read(write(ring, -index, value), ring.len() - index % (ring.len() as int)) == value,
        index < ring.len() ==> offset_of(ring.len() as int, -index) == ring.len() - index,
{
    let len = ring.len() as int;
    lemma_mod_bound(index, len);
    let at = len - index % len;
    lemma_mod_bound(at, len);
    lemma_mod_bound(at % len, len);
    if index < len {
        lemma_small_mod(index as nat, len as nat);
        lemma_small_mod(at as nat, len as nat);
    } else {
        lemma_mod_self_0(len);
        lemma_small_mod(0, len as nat);
    }
}

/// Every window of the whole ring is as long as the ring.
pub proof fn lemma_whole_views(len: int, start: int, end: int)
    requires
        len >= 0,
    ensures
        range_full(len).len == len,
        range(len, 0, len).len == len,
        range(len, start, start + len).len == len,
        range_to(len, end).len == len,
        range_from(len, start).len == len,
        range_to_inclusive(len, end).len == len,
{
}

/// A window that is empty or runs backwards shows nothing.
pub proof fn lemma_reverse_range(ring: Seq<u8>, start: int, end: int)
    requires
        start >= end,
    ensures
        range(ring.len() as int, start, end).len == 0,
        shown(ring, range(ring.len() as int, start, end)) =~= Seq::<u8>::empty(),
{
}

/// A window of the whole ring that starts at `start` shows the ring from
/// `start` to its end, followed by the ring from its beginning to `start`.
pub proof fn lemma_wrap_around(ring: Seq<u8>, start: int)
    requires
        0 <= start < ring.len(),
    ensures
        shown(ring, range_from(ring.len() as int, start)) =~= ring.subrange(
            start,
            ring.len() as int,
        ) + ring.subrange(0, start),
{
    let len = ring.len() as int;
    let span = range_from(len, start);
    lemma_small_mod(start as nat, len as nat);
    let left = shown(ring, span);
    let right = ring.subrange(start, len) + ring.subrange(0, start);
    assert(left.len() == right.len());
    assert forall|k: int| 0 <= k < left.len() implies left[k] == right[k] by {
        if start + k < len {
            lemma_small_mod((start + k) as nat, len as nat);
        } else {
            lemma_small_mod((start + k - len) as nat, len as nat);
            lemma_mod_add_multiples_vanish(start + k - len, len);
        }
    }
}

/// A window that is no longer than the ring shows no byte of the ring twice:
/// a writer that holds such a window holds each of its bytes once.
pub proof fn lemma_window_shows_bytes_once(len: int, span: Span, j: int, k: int)
    requires
        len > 0,
        inside(len, span),
        0 <= j < k < span.len,
    ensures
        ring_byte(len, span.start + j) != ring_byte(len, span.start + k),
{
    if ring_byte(len, span.start + j) == ring_byte(len, span.start + k) {
        lemma_mod_equivalence(span.start + k, span.start + j, len);
        lemma_small_mod((k - j) as nat, len as nat);
    }
}

/// A window shows, byte for byte, what a reader sees at its positions.
pub proof fn lemma_shown_is_read(ring: Seq<u8>, start: int, end: int, k: int)
    requires
        ring.len() > 0,
        0 <= start <= end,
        0 <= k < end - start,
    ensures
        shown(ring, range(ring.len() as int, start, end))[k] == read(ring, start + k),
{
    let len = ring.len() as int;
    lemma_mod_bound(start, len);
    lemma_mod_bound(start + k, len);
    lemma_fundamental_div_mod(start, len);
    lemma_mod_add_multiples_vanish(start % len + k, len);
    vstd::arithmetic::div_mod::lemma_mod_multiples_vanish(start / len, start % len + k, len);
    lemma_small_mod(((start + k) % len) as nat, len as nat);
}

} // verus!
