use magic_buffer::addressing::Window;
use magic_buffer::length::validate;
use magic_buffer::linux::{magic_buf_alloc, magic_buf_free, Action, Reply, State};
use magic_buffer::protocol::{Protocol, Step};
use magic_buffer::{MagicBuffer, MagicBufferError};

const VALID_BUF_LEN: usize = 1 << 16;
const INVALID_BUF_LEN_ALIGN: usize = 1 << 8;
const INVALID_BUF_LEN_POW2: usize = (1 << 16) + 5;
const PAGE_SIZE: usize = 4096;
const BASE: usize = 0x2000_0000;

/// A system that grants every call: descriptor 3, and the window at `BASE`.
fn grant(action: Action) -> Reply {
    match action {
        Action::CreateMemfd | Action::CreateTempFile => Reply::Descriptor(3),
        Action::MapWindow { .. } => Reply::Address(BASE),
        Action::MapUpperHalf { addr, .. } => Reply::Address(addr),
        Action::UnlinkTempFile
        | Action::Truncate { .. }
        | Action::Unmap { .. }
        | Action::Close { .. } => Reply::Done,
    }
}

/// Runs an allocation or a release to its end against `grant`.
fn run(mut step: Step<State>) -> Step<State> {
    loop {
        match step {
            Step::Call(state) => step = state.resume(grant(state.action())),
            over => return over,
        }
    }
}

/// Builds a buffer as a shell does: the length is judged, then mapped.
fn new(len: usize) -> Result<MagicBuffer, MagicBufferError> {
    let min_len = MagicBuffer::min_len(PAGE_SIZE, None);
    validate(len, min_len)?;
    let mapped = run(magic_buf_alloc(len)).result().expect("the allocation has ended");
    MagicBuffer::new(len, min_len, mapped)
}

/// The byte of the ring that the double mapping shows at `offset` of the
/// window.
fn shown_at(buf: &MagicBuffer, offset: usize) -> usize {
    assert!(offset < 2 * buf.len());
    offset % buf.len()
}

/// The bytes that a window shows of the ring.
fn shown(buf: &MagicBuffer, ring: &[u8], window: Window) -> Vec<u8> {
    let mut bytes = Vec::new();
    for k in 0..window.len {
        bytes.push(ring[shown_at(buf, window.start + k)]);
    }
    bytes
}

#[test]
fn allocates_buffer() {
    let buf = new(VALID_BUF_LEN).expect("should allocate buffer");
    assert_eq!(run(Step::Call(magic_buf_free(&buf))), Step::Released);
}

#[test]
fn requires_power_of_two() {
    let e = new(INVALID_BUF_LEN_POW2)
        .map_err(|e| {
            println!("{}", e.to_string());
            e
        })
        .expect_err("should not allocate buffer");
    assert_eq!(e.to_string(), "invalid buffer len, len must be power of two");
}

#[test]
fn requires_aligned_len() {
    let e = new(INVALID_BUF_LEN_ALIGN)
        .map_err(|e| {
            println!("{}", e.to_string());
            e
        })
        .expect_err("should not allocate buffer");
    assert_eq!(e.to_string(), "invalid buffer len, len must be page aligned, 4096");
}

#[test]
fn writes_are_visible_wrap_around() {
    let buf = new(VALID_BUF_LEN).expect("should allocate buffer");
    let mut ring = vec![0u8; VALID_BUF_LEN];
    ring[shown_at(&buf, buf.index(0))] = b'a';
    assert_eq!(
        ring[shown_at(&buf, buf.index(0))],
        ring[shown_at(&buf, buf.index(VALID_BUF_LEN))]
    );
    assert_eq!(ring[shown_at(&buf, VALID_BUF_LEN)], b'a');
}

#[test]
fn deref_as_slice() {
    let buf = new(VALID_BUF_LEN).expect("should allocate buffer");
    let slice = buf.deref();
    assert_eq!(VALID_BUF_LEN, slice.len);
    assert_eq!(buf.as_slice(slice.start, slice.len), BASE);
}

#[test]
fn deref_mut_as_slice() {
    let mut buf = new(VALID_BUF_LEN).expect("should allocate buffer");
    let slice = buf.deref();
    assert_eq!(VALID_BUF_LEN, slice.len);
    assert_eq!(buf.as_slice_mut(slice.start, slice.len), BASE);
}

#[test]
fn closed_range() {
    let buf = new(VALID_BUF_LEN).expect("should allocate buffer");
    let slice = buf.index_range(0, VALID_BUF_LEN);
    assert_eq!(VALID_BUF_LEN, slice.len);
    assert_eq!(buf.as_slice(slice.start, slice.len), BASE);
}

#[test]
fn closed_range_mut() {
    let mut buf = new(VALID_BUF_LEN).expect("should allocate buffer");
    let slice = buf.index_range(0, VALID_BUF_LEN);
    assert_eq!(VALID_BUF_LEN, slice.len);
    assert_eq!(buf.as_slice_mut(slice.start, slice.len), BASE);
}

#[test]
fn range_to() {
    let buf = new(VALID_BUF_LEN).expect("should allocate buffer");
    let slice = buf.index_range_to(VALID_BUF_LEN + 1);
    assert_eq!(VALID_BUF_LEN, slice.len);
    assert_eq!(buf.as_slice(slice.start, slice.len), BASE + 1);
}

#[test]
fn range_to_mut() {
    let mut buf = new(VALID_BUF_LEN).expect("should allocate buffer");
    let slice = buf.index_range_to(VALID_BUF_LEN + 1);
    assert_eq!(VALID_BUF_LEN, slice.len);
    assert_eq!(buf.as_slice_mut(slice.start, slice.len), BASE + 1);
}

#[test]
fn range_from() {
    let buf = new(VALID_BUF_LEN).expect("should allocate buffer");
    let slice = buf.index_range_from(1);
    assert_eq!(VALID_BUF_LEN, slice.len);
    assert_eq!(buf.as_slice(slice.start, slice.len), BASE + 1);
}

#[test]
fn range_from_mut() {
    let mut buf = new(VALID_BUF_LEN).expect("should allocate buffer");
    let slice = buf.index_range_from(1);
    assert_eq!(VALID_BUF_LEN, slice.len);
    assert_eq!(buf.as_slice_mut(slice.start, slice.len), BASE + 1);
}

#[test]
fn range_to_inclusive() {
    let buf = new(VALID_BUF_LEN).expect("should allocate buffer");
    let slice = buf.index_range_to_inclusive(VALID_BUF_LEN);
    assert_eq!(VALID_BUF_LEN, slice.len);
    assert_eq!(buf.as_slice(slice.start, slice.len), BASE + 1);
}

#[test]
fn range_to_inclusive_mut() {
    let mut buf = new(VALID_BUF_LEN).expect("should allocate buffer");
    let slice = buf.index_range_to_inclusive(VALID_BUF_LEN);
    assert_eq!(VALID_BUF_LEN, slice.len);
    assert_eq!(buf.as_slice_mut(slice.start, slice.len), BASE + 1);
}

#[test]
fn range_full() {
    let buf = new(VALID_BUF_LEN).expect("should allocate buffer");
    let slice = buf.index_range_full();
    assert_eq!(VALID_BUF_LEN, slice.len);
    assert_eq!(buf.as_slice(slice.start, slice.len), BASE);
}

#[test]
fn range_full_mut() {
    let mut buf = new(VALID_BUF_LEN).expect("should allocate buffer");
    let slice = buf.index_range_full();
    assert_eq!(VALID_BUF_LEN, slice.len);
    assert_eq!(buf.as_slice_mut(slice.start, slice.len), BASE);
}

#[test]
fn index_wrap_around() {
    let buf = new(VALID_BUF_LEN).expect("should allocate buffer");
    let mut ring = vec![0u8; VALID_BUF_LEN];
    ring[shown_at(&buf, buf.index(0))] = b'1';
    assert_eq!(b'1', ring[shown_at(&buf, buf.index(VALID_BUF_LEN))]);
}

#[test]
fn index_negative() {
    let buf = new(VALID_BUF_LEN).expect("should allocate buffer");
    let mut ring = vec![0u8; VALID_BUF_LEN];
    ring[shown_at(&buf, buf.index_signed(-1))] = b'2';
    assert_eq!(b'2', ring[shown_at(&buf, buf.index(VALID_BUF_LEN - 1))]);
    assert_eq!(buf.index_signed(-1), VALID_BUF_LEN - 1);
}

#[test]
fn new_rejects_zero() {
    let e = new(0).expect_err("should not allocate buffer");
    assert!(matches!(e, MagicBufferError::InvalidLen { .. }));
    assert_eq!(e.to_string(), "invalid buffer len, len must be greater than 0");
}

#[test]
fn new_rejects_65541() {
    let e = new(65541).expect_err("should not allocate buffer");
    assert!(matches!(e, MagicBufferError::InvalidLen { .. }));
}

#[test]
fn new_rejects_256_at_page_size_4096() {
    let e = MagicBuffer::new(256, 4096, Ok(BASE)).expect_err("should not allocate buffer");
    assert!(matches!(e, MagicBufferError::InvalidLen { .. }));
}

#[test]
fn new_judges_the_length_before_the_mapping() {
    let e = MagicBuffer::new(0, 4096, Err(MagicBufferError::OOM)).expect_err("no buffer");
    assert!(matches!(e, MagicBufferError::InvalidLen { .. }));
    let e = MagicBuffer::new(3 << 12, 4096, Ok(BASE)).expect_err("no buffer");
    assert_eq!(e.to_string(), "invalid buffer len, len must be power of two");
}

#[test]
fn new_passes_the_refusal_on() {
    let e = MagicBuffer::new(VALID_BUF_LEN, 4096, Err(MagicBufferError::OOM)).expect_err("none");
    assert!(matches!(e, MagicBufferError::OOM));
    assert_eq!(e.to_string(), "out of memory");
}

#[test]
fn new_keeps_length_and_base() {
    let min_len = MagicBuffer::min_len(PAGE_SIZE, None);
    let k = if min_len > 1 << 16 { min_len } else { 1 << 16 };
    let buf = new(k).expect("should allocate buffer");
    assert_eq!(buf.len(), k);
    assert_eq!(buf.base(), BASE);
}

#[test]
fn min_len_is_the_larger_of_page_size_and_granularity() {
    assert_eq!(MagicBuffer::min_len(4096, None), 4096);
    assert_eq!(MagicBuffer::min_len(4096, Some(65536)), 65536);
    assert_eq!(MagicBuffer::min_len(16384, Some(4096)), 16384);
    assert_eq!(MagicBuffer::min_len(4096, Some(4096)), 4096);
    let min = MagicBuffer::min_len(4096, Some(65536));
    assert!(min > 0 && min.is_power_of_two());
}

#[test]
fn fast_mod_is_the_remainder() {
    let buf = new(VALID_BUF_LEN).expect("should allocate buffer");
    assert_eq!(buf.fast_mod(0), 0);
    assert_eq!(buf.fast_mod(65535), 65535);
    assert_eq!(buf.fast_mod(65536), 0);
    assert_eq!(buf.fast_mod(3 * 65536 + 17), 17);
    assert_eq!(buf.fast_mod(usize::MAX), 65535);
}

#[test]
fn raw_addresses_wrap_and_stay_inside() {
    let mut buf = new(VALID_BUF_LEN).expect("should allocate buffer");
    assert_eq!(buf.as_ptr(0), BASE);
    assert_eq!(buf.as_ptr(1), BASE + 1);
    assert_eq!(buf.as_ptr(VALID_BUF_LEN), BASE);
    assert_eq!(buf.as_ptr(VALID_BUF_LEN + 7), BASE + 7);
    assert_eq!(buf.as_mut_ptr(VALID_BUF_LEN - 1), BASE + VALID_BUF_LEN - 1);
    let last = buf.as_mut_ptr(VALID_BUF_LEN - 1);
    assert!(last + VALID_BUF_LEN <= BASE + 2 * VALID_BUF_LEN);
}

#[test]
fn filled_through_a_raw_address_reads_back_in_both_halves() {
    let mut buf = new(VALID_BUF_LEN).expect("should allocate buffer");
    let mut ring = vec![0u8; VALID_BUF_LEN];
    let start = buf.as_mut_ptr(0) - buf.base();
    for i in 0..VALID_BUF_LEN {
        ring[shown_at(&buf, start + i)] = (i % 256) as u8;
    }
    for i in 0..VALID_BUF_LEN {
        assert_eq!(ring[shown_at(&buf, buf.index(i))], (i % 256) as u8);
        assert_eq!(ring[shown_at(&buf, buf.index(i + VALID_BUF_LEN))], (i % 256) as u8);
    }
}

#[test]
fn alias_law_on_a_small_ring() {
    let buf = MagicBuffer::new(8, 1, Ok(BASE)).expect("should build");
    for i in 0..8usize {
        let mut ring = vec![0u8; 8];
        ring[shown_at(&buf, buf.index(i))] = 7;
        assert_eq!(ring[shown_at(&buf, buf.index(i))], 7);
        assert_eq!(ring[shown_at(&buf, buf.index(i + 8))], 7);
        assert_eq!(buf.index(i), buf.index(i + 8));
        let mut ring = vec![0u8; 8];
        ring[shown_at(&buf, buf.index(i + 8))] = 9;
        assert_eq!(ring[shown_at(&buf, buf.index(i))], 9);
    }
}

#[test]
fn negative_index_law_on_a_small_ring() {
    let buf = MagicBuffer::new(8, 1, Ok(BASE)).expect("should build");
    for i in 1..=8usize {
        let offset = buf.index_signed(-(i as isize));
        assert_eq!(offset, 8 - i % 8);
        assert_eq!(shown_at(&buf, offset), shown_at(&buf, buf.index(8 - i % 8)));
    }
    assert_eq!(buf.index_signed(-1), 7);
    assert_eq!(buf.index_signed(-8), 8);
    assert_eq!(buf.index_signed(-9), 7);
    assert_eq!(buf.index_signed(-16), 8);
    assert_eq!(buf.index_signed(5), 5);
    assert_eq!(buf.index_signed(13), 5);
    assert_eq!(buf.index_signed(isize::MAX), 7);
    assert_eq!(buf.index_signed(isize::MIN), 8);
    assert_eq!(buf.index_signed(isize::MIN + 1), 1);
}

#[test]
fn whole_buffer_views_are_as_long_as_the_ring() {
    let buf = new(VALID_BUF_LEN).expect("should allocate buffer");
    let n = VALID_BUF_LEN;
    assert_eq!(buf.index_range_full().len, n);
    assert_eq!(buf.index_range(0, n).len, n);
    assert_eq!(buf.index_range_to(n + 1).len, n);
    assert_eq!(buf.index_range_from(1).len, n);
    assert_eq!(buf.index_range_to_inclusive(n).len, n);
    assert_eq!(buf.deref().len, n);
}

#[test]
fn window_starts_are_exact() {
    let buf = new(VALID_BUF_LEN).expect("should allocate buffer");
    let n = VALID_BUF_LEN;
    assert_eq!(buf.index_range(n + 3, n + 10), Window { start: 3, len: 7 });
    assert_eq!(buf.index_range(5, 5), Window { start: 5, len: 0 });
    assert_eq!(buf.index_range(n - 1, 2 * n - 1), Window { start: n - 1, len: n });
    assert_eq!(buf.index_range_to(n), Window { start: 0, len: n });
    assert_eq!(buf.index_range_to(2 * n + 9), Window { start: 9, len: n });
    assert_eq!(buf.index_range_to_inclusive(n - 1), Window { start: 0, len: n });
    assert_eq!(buf.index_range_to_inclusive(2 * n - 1), Window { start: 0, len: n });
    assert_eq!(buf.index_range_to_inclusive(n + 4), Window { start: 5, len: n });
    assert_eq!(buf.index_range_from(3 * n + 2), Window { start: 2, len: n });
    assert_eq!(buf.index_range_full(), Window { start: 0, len: n });
    assert_eq!(buf.deref(), Window { start: 0, len: n });
}

#[test]
fn wrap_around_slice_shows_the_upper_half_first() {
    let buf = new(VALID_BUF_LEN).expect("should allocate buffer");
    let n = VALID_BUF_LEN;
    let mut ring = vec![0u8; n];
    for i in 0..n {
        ring[i] = (i % 251) as u8;
    }
    let slice = buf.index_range_from(n / 2);
    assert_eq!(slice.len, n);
    let bytes = shown(&buf, &ring, slice);
    assert_eq!(bytes.len(), n);
    assert_eq!(&bytes[..n / 2], &ring[n / 2..]);
    assert_eq!(&bytes[n / 2..], &ring[..n / 2]);
}

#[test]
fn range_longer_than_the_ring_is_out_of_bounds() {
    let buf = new(VALID_BUF_LEN).expect("should allocate buffer");
    assert_eq!(buf.checked_index_range(0, VALID_BUF_LEN + 1), None);
    assert_eq!(buf.checked_index_range(7, VALID_BUF_LEN + 8), None);
    assert_eq!(
        buf.checked_index_range(7, VALID_BUF_LEN + 7),
        Some(Window { start: 7, len: VALID_BUF_LEN })
    );
    assert_eq!(
        buf.checked_index_range(0, VALID_BUF_LEN),
        Some(Window { start: 0, len: VALID_BUF_LEN })
    );
}

#[test]
fn reverse_range_is_empty() {
    let buf = new(VALID_BUF_LEN).expect("should allocate buffer");
    let slice = buf.index_range(10, 3);
    assert_eq!(slice.len, 0);
    assert_eq!(slice, Window { start: 0, len: 0 });
    assert_eq!(buf.checked_index_range(usize::MAX, 0), Some(Window { start: 0, len: 0 }));
    let ring = vec![1u8; VALID_BUF_LEN];
    assert!(shown(&buf, &ring, slice).is_empty());
}

#[test]
fn dropping_a_buffer_does_not_disturb_the_next() {
    let first = new(VALID_BUF_LEN).expect("should allocate buffer");
    let free = magic_buf_free(&first);
    assert_eq!(
        free,
        State::Free { base: BASE, len: VALID_BUF_LEN, window: 2 * VALID_BUF_LEN }
    );
    assert_eq!(run(Step::Call(free)), Step::Released);
    let second = new(VALID_BUF_LEN).expect("should allocate buffer again");
    assert_eq!(second.len(), VALID_BUF_LEN);
    assert_eq!(run(Step::Call(magic_buf_free(&second))), Step::Released);
}

fn can_cross_threads<T: Send + Sync>() {}

#[test]
fn handles_can_cross_threads() {
    can_cross_threads::<MagicBuffer>();
    can_cross_threads::<magic_buffer::InfiniteBuffer>();
}
