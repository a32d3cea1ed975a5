//! The plain handle of a double mapping made of two views: it knows where
//! the views stand and how long the ring is, and nothing of positions.

use vstd::prelude::*;
use vstd::arithmetic::power2::is_pow2;
use crate::error::MagicBufferError;
use crate::length::{rejection, valid_len, validate};
use crate::protocol::Protocol;
use crate::windows::{release, State};

verus! {

/// A ring of `len` bytes that is mapped as a view at `base` and as a second
/// view of the same section right above it.
#[derive(Debug)]
pub struct InfiniteBuffer {
    base: usize,
    len: usize,
}

impl InfiniteBuffer {
    /// The length is a power of two and both views lie inside the address
    /// space.
    #[verifier::type_invariant]
    pub closed spec fn wf(&self) -> bool {
        &&& is_pow2(self.len as int)
        &&& self.base + 2 * self.len <= usize::MAX
    }

    /// The length of the ring.
    pub closed spec fn spec_len(&self) -> usize {
        self.len
    }

    /// The address of the lower view.
    pub closed spec fn spec_base(&self) -> usize {
        self.base
    }

    /// The handle of the two views of `len` bytes that the platform has
    /// placed at `mapped`, or the reason why there is none. The length is
    /// judged first: where it is not a power of two or not a multiple of
    /// `granularity`, the result says so, whatever `mapped` holds. A valid
    /// length that could not be mapped passes the platform's error on.
    pub fn new(len: usize, granularity: usize, mapped: Result<usize, MagicBufferError>) -> (r:
        Result<InfiniteBuffer, MagicBufferError>)
        requires
            granularity > 0,
            rejection(len as int, granularity as int) is None ==> (mapped matches Ok(base) ==> base
                + 2 * len <= usize::MAX),
        ensures
            r is Ok <==> valid_len(len as int, granularity as int) && mapped is Ok,
            match rejection(len as int, granularity as int) {
                Some(reason) => r matches Err(MagicBufferError::InvalidLen { msg }) && msg@
                    == reason,
                None => match mapped {
                    Ok(base) => r matches Ok(buffer) && buffer.wf() && buffer.len() == len
                        && buffer.base() == base,
                    Err(e) => r == Err::<InfiniteBuffer, MagicBufferError>(e),
                },
            },
    {
        match validate(len, granularity) {
            Err(e) => Err(e),
            Ok(()) => match mapped {
                Err(e) => Err(e),
                Ok(base) => Ok(InfiniteBuffer { base, len }),
            },
        }
    }

    /// The length of the ring.
    #[verifier::when_used_as_spec(spec_len)]
    pub fn len(&self) -> (len: usize)
        ensures
            len == self.spec_len(),
    {
        self.len
    }

    /// The address of the lower view.
    #[verifier::when_used_as_spec(spec_base)]
    pub fn base(&self) -> (base: usize)
        ensures
            base == self.spec_base(),
            base + 2 * self.len() <= usize::MAX,
    {
        proof {
            use_type_invariant(self);
        }
        self.base
    }

    /// Begins the release of both views: the upper one is unmapped first,
    /// then the lower one.
    pub fn release(&self) -> (state: State)
        ensures
            state == (State::FreeUpper {
                base: self.base(),
                upper: (self.base() + self.len()) as usize,
                len: self.len(),
            }),
            state.wf(),
            state.held() == State::double_mapping(self.base(), self.len()),
    {
        proof {
            use_type_invariant(self);
            reveal(is_pow2);
        }
        release(self.base, self.len)
    }
}

} // verus!
