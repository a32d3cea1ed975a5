//! The handle of one double mapping.

use vstd::prelude::*;
use vstd::arithmetic::power2::is_pow2;
use crate::addressing::{
    inside,
    lemma_offset_inside,
    lemma_windows_inside,
    offset_of,
    range,
    range_from,
    range_full,
    range_to,
    range_to_inclusive,
    Window,
};
use crate::error::MagicBufferError;
use crate::length::{lemma_mask_is_mod, rejection, valid_len, validate};

verus! {

/// A ring of `len` bytes whose pages are mapped twice, back to back, from
/// `base` on. The handle owns the mapping: it is the only one for it, and it
/// is given back when the handle is dropped.
#[derive(Debug)]
pub struct MagicBuffer {
    base: usize,
    len: usize,
    mask: usize,
}

impl MagicBuffer {
    /// The length is a power of two, the mask is the length less one, and the
    /// whole window lies inside the address space.
    #[verifier::type_invariant]
    pub closed spec fn wf(&self) -> bool {
        &&& is_pow2(self.len as int)
        &&& self.mask == self.len - 1
        &&& self.base + 2 * self.len <= usize::MAX
    }

    /// The length of the ring.
    pub closed spec fn spec_len(&self) -> usize {
        self.len
    }

    /// The address at which the window starts.
    pub closed spec fn spec_base(&self) -> usize {
        self.base
    }

    /// What follows from [`MagicBuffer::wf`] of the length and the base.
    pub proof fn lemma_wf(&self)
        requires
            self.wf(),
        ensures
            is_pow2(self.len() as int),
            self.len() > 0,
            self.base() + 2 * self.len() <= usize::MAX,
    {
        reveal(is_pow2);
    }

    /// The handle of the double mapping of `len` bytes that the platform has
    /// placed at `mapped`, or the reason why there is none. The length is
    /// judged first: where it is not a power of two or not a multiple of
    /// `min_len`, the result says so, whatever `mapped` holds. A valid length
    /// that could not be mapped passes the platform's error on.
    pub fn new(len: usize, min_len: usize, mapped: Result<usize, MagicBufferError>) -> (r: Result<
        MagicBuffer,
        MagicBufferError,
    >)
        requires
            min_len > 0,
            rejection(len as int, min_len as int) is None ==> (mapped matches Ok(base) ==> base + 2
                * len <= usize::MAX),
        ensures
            r is Ok <==> valid_len(len as int, min_len as int) && mapped is Ok,
            match rejection(len as int, min_len as int) {
                Some(reason) => r matches Err(MagicBufferError::InvalidLen { msg }) && msg@
                    == reason,
                None => match mapped {
                    Ok(base) => r matches Ok(buffer) && buffer.wf() && buffer.len() == len
                        && buffer.base() == base,
                    Err(e) => r == Err::<MagicBuffer, MagicBufferError>(e),
                },
            },
    {
        match validate(len, min_len) {
            Err(e) => Err(e),
            Ok(()) => match mapped {
                Err(e) => Err(e),
                Ok(base) => {
                    proof {
                        reveal(is_pow2);
                    }
                    Ok(MagicBuffer { base, len, mask: len - 1 })
                },
            },
        }
    }

    /// The smallest length that can be mapped: the page size, or the larger
    /// of the page size and the allocation granularity where the platform
    /// reports both.
    pub fn min_len(page_size: usize, granularity: Option<usize>) -> (min: usize)
        ensures
            min == match granularity {
                Some(g) => if g > page_size {
                    g
                } else {
                    page_size
                },
                None => page_size,
            },
            is_pow2(page_size as int) && (granularity matches Some(g) ==> is_pow2(g as int))
                ==> is_pow2(min as int),
    {
        match granularity {
            Some(g) => if g > page_size {
                g
            } else {
                page_size
            },
            None => page_size,
        }
    }

    /// The length of the ring.
    #[verifier::when_used_as_spec(spec_len)]
    pub fn len(&self) -> (len: usize)
        ensures
            len == self.spec_len(),
    {
        self.len
    }

    /// The address at which the window starts.
    #[verifier::when_used_as_spec(spec_base)]
    pub fn base(&self) -> (base: usize)
        ensures
            base == self.spec_base(),
    {
        self.base
    }

    /// `v` modulo the length of the ring.
    pub fn fast_mod(&self, v: usize) -> (r: usize)
        ensures
            r == v % self.len(),
            r < self.len(),
    {
        proof {
            use_type_invariant(self);
            lemma_mask_is_mod(v, self.len);
        }
        v & self.mask
    }

    /// The address of the byte at position `offset` of the ring. From there
    /// on, `len` bytes can be read without leaving the mapping.
    pub fn as_ptr(&self, offset: usize) -> (addr: usize)
        ensures
            addr == self.base() + offset % self.len(),
            self.base() <= addr,
            addr + self.len() <= self.base() + 2 * self.len(),
            self.base() + 2 * self.len() <= usize::MAX,
    {
        proof {
            use_type_invariant(self);
        }
        self.base + self.fast_mod(offset)
    }

    /// The address of the byte at position `offset` of the ring. From there
    /// on, `len` bytes can be read and written without leaving the mapping.
    pub fn as_mut_ptr(&mut self, offset: usize) -> (addr: usize)
        ensures
            *final(self) == *old(self),
            addr == old(self).base() + offset % old(self).len(),
            old(self).base() <= addr,
            addr + old(self).len() <= old(self).base() + 2 * old(self).len(),
            old(self).base() + 2 * old(self).len() <= usize::MAX,
    {
        self.as_ptr(offset)
    }

    /// The address of the run of `len` bytes that starts `offset` bytes above
    /// the base. A run that lies inside the double mapping lies inside the
    /// address space.
    pub fn as_slice(&self, offset: usize, len: usize) -> (addr: usize)
        requires
            offset + len <= 2 * self.len(),
        ensures
            addr == self.base() + offset,
            addr + len <= self.base() + 2 * self.len(),
            self.base() + 2 * self.len() <= usize::MAX,
    {
        proof {
            use_type_invariant(self);
        }
        self.base + offset
    }

    /// The address of the run of `len` bytes that starts `offset` bytes above
    /// the base, for a writer.
    pub fn as_slice_mut(&mut self, offset: usize, len: usize) -> (addr: usize)
        requires
            offset + len <= 2 * old(self).len(),
        ensures
            *final(self) == *old(self),
            addr == old(self).base() + offset,
            addr + len <= old(self).base() + 2 * old(self).len(),
            old(self).base() + 2 * old(self).len() <= usize::MAX,
    {
        self.as_slice(offset, len)
    }

    /// The offset in the window at which position `index` is read and written.
    pub fn index(&self, index: usize) -> (offset: usize)
        ensures
            offset == offset_of(self.len() as int, index as int),
            offset < self.len(),
    {
        self.fast_mod(index)
    }

    /// The offset in the window at which the signed position `index` is read
    /// and written: a negative position counts back from the end of the lower
    /// half.
    pub fn index_signed(&self, index: isize) -> (offset: usize)
        ensures
            offset == offset_of(self.len() as int, index as int),
            offset <= self.len(),
            index >= 0 ==> offset < self.len(),
    {
        proof {
            use_type_invariant(self);
            lemma_offset_inside(self.len as int, index as int);
        }
        if index < 0 {
            let below: usize = (-(index + 1)) as usize;
            let back: usize = below + 1;
            self.len - self.fast_mod(back)
        } else {
            self.fast_mod(index as usize)
        }
    }

    /// The window of the positions `start .. end`, which is empty where `end`
    /// lies before `start`. A window longer than the ring does not exist.
    pub fn index_range(&self, start: usize, end: usize) -> (w: Window)
        requires
            end - start <= self.len(),
        ensures
            w@ == range(self.len() as int, start as int, end as int),
            inside(self.len() as int, w@),
            start >= end ==> w.len == 0,
    {
        proof {
            use_type_invariant(self);
            lemma_windows_inside(self.len as int, start as int, end as int);
        }
        if start > end {
            Window { start: 0, len: 0 }
        } else {
            Window { start: self.fast_mod(start), len: end - start }
        }
    }

    /// The window of the positions `start .. end`, or `None` where it would
    /// be longer than the ring.
    pub fn checked_index_range(&self, start: usize, end: usize) -> (w: Option<Window>)
        ensures
            end - start > self.len() <==> w is None,
            w matches Some(window) ==> window@ == range(self.len() as int, start as int, end as int)
                && inside(self.len() as int, window@),
    {
        if start <= end && end - start > self.len {
            None
        } else {
            Some(self.index_range(start, end))
        }
    }

    /// The window of the whole ring that begins at position `start`.
    pub fn index_range_from(&self, start: usize) -> (w: Window)
        ensures
            w@ == range_from(self.len() as int, start as int),
            inside(self.len() as int, w@),
            w.len == self.len(),
    {
        proof {
            use_type_invariant(self);
            lemma_windows_inside(self.len as int, start as int, 0);
        }
        Window { start: self.fast_mod(start), len: self.len }
    }

    /// The window of the whole ring that ends before position `end`. A run
    /// of `len` positions cannot end before position `len`.
    pub fn index_range_to(&self, end: usize) -> (w: Window)
        requires
            end >= self.len(),
        ensures
            w@ == range_to(self.len() as int, end as int),
            inside(self.len() as int, w@),
            w.len == self.len(),
    {
        proof {
            use_type_invariant(self);
            lemma_windows_inside(self.len as int, 0, end as int);
        }
        Window { start: self.fast_mod(end - self.len), len: self.len }
    }

    /// The window of the whole ring that ends with position `end`. A run of
    /// `len` positions cannot end before position `len - 1`.
    pub fn index_range_to_inclusive(&self, end: usize) -> (w: Window)
        requires
            end + 1 >= self.len(),
        ensures
            w@ == range_to_inclusive(self.len() as int, end as int),
            inside(self.len() as int, w@),
            w.len == self.len(),
    {
        proof {
            use_type_invariant(self);
            lemma_windows_inside(self.len as int, 0, end as int);
        }
        Window { start: self.fast_mod(end - (self.len - 1)), len: self.len }
    }

    /// The window of the whole ring in its own order.
    pub fn index_range_full(&self) -> (w: Window)
        ensures
            w@ == range_full(self.len() as int),
            inside(self.len() as int, w@),
            w.len == self.len(),
    {
        proof {
            use_type_invariant(self);
            lemma_windows_inside(self.len as int, 0, 0);
        }
        Window { start: 0, len: self.len }
    }

    /// The window that the buffer stands for where a slice is expected: the
    /// whole ring in its own order.
    pub fn deref(&self) -> (w: Window)
        ensures
            w@ == range_full(self.len() as int),
            inside(self.len() as int, w@),
            w.len == self.len(),
    {
        self.index_range_full()
    }
}

} // verus!
