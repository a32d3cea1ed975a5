//! The double mapping built from one virtual-memory entry.
//!
//! A region of `2 * len` bytes is allocated wherever the kernel finds room,
//! its lower half is allocated again in place so that it can be named, a
//! memory entry is made for that half, and the entry is mapped a second time
//! over the upper half. The region is allocated in one piece before its
//! upper half is replaced, so nothing else can be placed between the halves.
//! Once the first allocation stands, every failure gives the whole region
//! back.

use vstd::prelude::*;
use crate::protocol::{calls, lemma_run_unfolds, run, Protocol, Step};
use crate::MagicBuffer;

verus! {

/// A call to the kernel, with its arguments.
#[derive(Clone, Copy, Debug, PartialEq, Eq, Structural)]
pub enum Action {
    /// Allocate `size` bytes anywhere. Answered with the address.
    Allocate { size: usize },
    /// Allocate `size` bytes at exactly `addr`, over what is there. Answered
    /// with the address.
    AllocateLower { addr: usize, size: usize },
    /// Make a readable and writable memory entry for the `size` bytes at
    /// `addr`. Answered with the entry.
    MakeEntry { addr: usize, size: usize },
    /// Map the `size` bytes at `source` a second time at exactly `target`,
    /// over what is there, shared and not inherited. Answered with the
    /// address.
    RemapUpper { target: usize, size: usize, source: usize },
    /// Give the name of a memory entry back.
    ReleaseEntry { entry: u32 },
    /// Deallocate `size` bytes at `addr`.
    Deallocate { addr: usize, size: usize },
}

/// How the kernel answered a call.
#[derive(Clone, Copy, Debug, PartialEq, Eq, Structural)]
pub enum Reply {
    /// The call failed.
    Failed,
    /// The call succeeded and returned nothing of interest.
    Done,
    /// The call succeeded and returned this address.
    Address(usize),
    /// The call succeeded and returned this memory entry.
    Entry(u32),
}

impl Reply {
    /// The answer of a call that returns `success` when it has succeeded.
    pub fn from_status(returned: i32, success: i32) -> (reply: Reply)
        ensures
            reply == if returned == success {
                Reply::Done
            } else {
                Reply::Failed
            },
    {
        if returned == success {
            Reply::Done
        } else {
            Reply::Failed
        }
    }

    /// The answer of a call that returns `success` and leaves an address
    /// behind when it has succeeded.
    pub fn from_address(returned: i32, success: i32, addr: usize) -> (reply: Reply)
        ensures
            reply == if returned == success {
                Reply::Address(addr)
            } else {
                Reply::Failed
            },
    {
        if returned == success {
            Reply::Address(addr)
        } else {
            Reply::Failed
        }
    }

    /// The answer of a call that returns `success` and leaves a memory entry
    /// behind when it has succeeded.
    pub fn from_entry(returned: i32, success: i32, entry: u32) -> (reply: Reply)
        ensures
            reply == if returned == success {
                Reply::Entry(entry)
            } else {
                Reply::Failed
            },
    {
        if returned == success {
            Reply::Entry(entry)
        } else {
            Reply::Failed
        }
    }
}

/// Where an allocation or a release stands: which call is under way, and what
/// the calls before it have acquired. `len` is the length of the ring,
/// `window` the length of the whole region, `base` its address and `upper`
/// the address of its upper half.
#[derive(Clone, Copy, Debug, PartialEq, Eq, Structural)]
pub enum State {
    /// Allocating the whole region.
    Allocate { len: usize, window: usize },
    /// Allocating the lower half again, in place.
    Lower { base: usize, upper: usize, len: usize, window: usize },
    /// Making the memory entry of the lower half.
    Entry { base: usize, upper: usize, len: usize, window: usize },
    /// Mapping the lower half over the upper half.
    Remap { entry: u32, base: usize, upper: usize, len: usize, window: usize },
    /// Giving the entry back after the upper half could not be mapped.
    ReleaseRefused { entry: u32, base: usize, window: usize },
    /// Deallocating the region after a refusal.
    DeallocateRefused { base: usize, window: usize },
    /// Giving the entry back once both halves are mapped.
    ReleaseMapped { entry: u32, base: usize, len: usize, window: usize },
    /// Deallocating the region of a buffer that is dropped.
    Free { base: usize, len: usize, window: usize },
}

/// What the task holds of the kernel on behalf of one buffer.
pub struct Held {
    /// The allocated region: its address and its length.
    pub window: Option<(usize, usize)>,
    /// The name of the memory entry.
    pub entry: Option<u32>,
    /// Whether the upper half of the region shows the same bytes as the lower.
    pub mirrored: bool,
}

impl Protocol for State {
    type Action = Action;

    type Reply = Reply;

    type Held = Held;

    /// The region is twice the ring, it lies inside the address space, and
    /// its upper half starts one ring length above its base.
    open spec fn wf(self) -> bool {
        match self {
            State::Allocate { len, window } => window == 2 * len,
            State::Lower { base, upper, len, window } => {
                &&& window == 2 * len
                &&& upper == base + len
                &&& base + window <= usize::MAX
            },
            State::Entry { base, upper, len, window } => {
                &&& window == 2 * len
                &&& upper == base + len
                &&& base + window <= usize::MAX
            },
            State::Remap { entry, base, upper, len, window } => {
                &&& window == 2 * len
                &&& upper == base + len
                &&& base + window <= usize::MAX
            },
            State::ReleaseRefused { entry, base, window } => base + window <= usize::MAX,
            State::DeallocateRefused { base, window } => base + window <= usize::MAX,
            State::ReleaseMapped { entry, base, len, window } => {
                &&& window == 2 * len
                &&& base + window <= usize::MAX
            },
            State::Free { base, len, window } => {
                &&& window == 2 * len
                &&& base + window <= usize::MAX
            },
        }
    }

    open spec fn ring(self) -> usize {
        match self {
            State::Allocate { len, window } => len,
            State::Lower { base, upper, len, window } => len,
            State::Entry { base, upper, len, window } => len,
            State::Remap { entry, base, upper, len, window } => len,
            State::ReleaseRefused { entry, base, window } => 0,
            State::DeallocateRefused { base, window } => 0,
            State::ReleaseMapped { entry, base, len, window } => len,
            State::Free { base, len, window } => len,
        }
    }

    open spec fn pending(self) -> Action {
        match self {
            State::Allocate { len, window } => Action::Allocate { size: window },
            State::Lower { base, upper, len, window } => Action::AllocateLower {
                addr: base,
                size: len,
            },
            State::Entry { base, upper, len, window } => Action::MakeEntry {
                addr: base,
                size: len,
            },
            State::Remap { entry, base, upper, len, window } => Action::RemapUpper {
                target: upper,
                size: len,
                source: base,
            },
            State::ReleaseRefused { entry, base, window } => Action::ReleaseEntry { entry },
            State::DeallocateRefused { base, window } => Action::Deallocate {
                addr: base,
                size: window,
            },
            State::ReleaseMapped { entry, base, len, window } => Action::ReleaseEntry { entry },
            State::Free { base, len, window } => Action::Deallocate { addr: base, size: window },
        }
    }

    open spec fn held(self) -> Held {
        match self {
            State::Allocate { len, window } => Self::nothing(),
            State::Lower { base, upper, len, window } => Held {
                window: Some((base, window)),
                ..Self::nothing()
            },
            State::Entry { base, upper, len, window } => Held {
                window: Some((base, window)),
                ..Self::nothing()
            },
            State::Remap { entry, base, upper, len, window } => Held {
                window: Some((base, window)),
                entry: Some(entry),
                ..Self::nothing()
            },
            State::ReleaseRefused { entry, base, window } => Held {
                window: Some((base, window)),
                entry: Some(entry),
                ..Self::nothing()
            },
            State::DeallocateRefused { base, window } => Held {
                window: Some((base, window)),
                ..Self::nothing()
            },
            State::ReleaseMapped { entry, base, len, window } => Held {
                entry: Some(entry),
                ..Self::double_mapping(base, len)
            },
            State::Free { base, len, window } => Self::double_mapping(base, len),
        }
    }

    open spec fn calls_left(self) -> nat {
        match self {
            State::Allocate { len, window } => 5,
            State::Lower { base, upper, len, window } => 4,
            State::Entry { base, upper, len, window } => 3,
            State::Remap { entry, base, upper, len, window } => 2,
            State::ReleaseRefused { entry, base, window } => 1,
            State::DeallocateRefused { base, window } => 0,
            State::ReleaseMapped { entry, base, len, window } => 0,
            State::Free { base, len, window } => 0,
        }
    }

    open spec fn refused(self) -> bool {
        self is ReleaseRefused || self is DeallocateRefused
    }

    open spec fn releasing(self) -> bool {
        self is Free
    }

    /// Once the region is allocated, any failure to acquire gives back what
    /// is held, last acquired first, and ends in a refusal. A region that
    /// does not lie inside the address space counts as not allocated. A
    /// failure to give something back ends in `Abort`.
    open spec fn next(self, reply: Reply) -> Step<State> {
        match self {
            State::Allocate { len, window } => match reply {
                Reply::Address(base) => if base + window <= usize::MAX && len <= window {
                    Step::Call(State::Lower { base, upper: (base + len) as usize, len, window })
                } else {
                    Step::Refused
                },
                _ => Step::Refused,
            },
            State::Lower { base, upper, len, window } => match reply {
                Reply::Address(at) => Step::Call(State::Entry { base, upper, len, window }),
                _ => Step::Call(State::DeallocateRefused { base, window }),
            },
            State::Entry { base, upper, len, window } => match reply {
                Reply::Entry(entry) => Step::Call(
                    State::Remap { entry, base, upper, len, window },
                ),
                _ => Step::Call(State::DeallocateRefused { base, window }),
            },
            State::Remap { entry, base, upper, len, window } => match reply {
                Reply::Address(at) => Step::Call(State::ReleaseMapped { entry, base, len, window }),
                _ => Step::Call(State::ReleaseRefused { entry, base, window }),
            },
            State::ReleaseRefused { entry, base, window } => match reply {
                Reply::Done => Step::Call(State::DeallocateRefused { base, window }),
                _ => Step::Abort,
            },
            State::DeallocateRefused { base, window } => match reply {
                Reply::Done => Step::Refused,
                _ => Step::Abort,
            },
            State::ReleaseMapped { entry, base, len, window } => match reply {
                Reply::Done => Step::Mapped(base),
                _ => Step::Abort,
            },
            State::Free { base, len, window } => match reply {
                Reply::Done => Step::Released,
                _ => Step::Abort,
            },
        }
    }

    /// A ring whose double does not fit the address space is refused before
    /// anything is asked of the kernel.
    open spec fn first(len: usize) -> Step<State> {
        if 2 * len <= usize::MAX {
            Step::Call(State::Allocate { len, window: (2 * len) as usize })
        } else {
            Step::Refused
        }
    }

    /// A call that failed changes nothing, and so does one that names what
    /// is not held. A region counts as allocated only where it lies inside
    /// the address space.
    open spec fn effect(held: Held, action: Action, reply: Reply) -> Held {
        match (action, reply) {
            (Action::Allocate { size }, Reply::Address(base)) => if base + size <= usize::MAX {
                Held { window: Some((base, size)), ..held }
            } else {
                held
            },
            (Action::MakeEntry { addr, size }, Reply::Entry(entry)) => Held {
                entry: Some(entry),
                ..held
            },
            (Action::RemapUpper { target, size, source }, Reply::Address(at)) => Held {
                mirrored: true,
                ..held
            },
            (Action::ReleaseEntry { entry }, Reply::Done) => if held.entry == Some(entry) {
                Held { entry: None, ..held }
            } else {
                held
            },
            (Action::Deallocate { addr, size }, Reply::Done) => if held.window == Some(
                (addr, size),
            ) {
                Held { window: None, mirrored: false, ..held }
            } else {
                held
            },
            _ => held,
        }
    }

    open spec fn nothing() -> Held {
        Held { window: None, entry: None, mirrored: false }
    }

    /// A region of `2 * len` bytes at `base` whose halves show the same
    /// bytes; no memory entry.
    open spec fn double_mapping(base: usize, len: usize) -> Held {
        Held { window: Some((base, (2 * len) as usize)), entry: None, mirrored: true }
    }

    fn action(&self) -> (action: Action) {
        match *self {
            State::Allocate { window, .. } => Action::Allocate { size: window },
            State::Lower { base, len, .. } => Action::AllocateLower { addr: base, size: len },
            State::Entry { base, len, .. } => Action::MakeEntry { addr: base, size: len },
            State::Remap { base, upper, len, .. } => Action::RemapUpper {
                target: upper,
                size: len,
                source: base,
            },
            State::ReleaseRefused { entry, .. } => Action::ReleaseEntry { entry },
            State::DeallocateRefused { base, window } => Action::Deallocate {
                addr: base,
                size: window,
            },
            State::ReleaseMapped { entry, .. } => Action::ReleaseEntry { entry },
            State::Free { base, window, .. } => Action::Deallocate { addr: base, size: window },
        }
    }

    fn resume(self, reply: Reply) -> (step: Step<State>) {
        match self {
            State::Allocate { len, window } => match reply {
                Reply::Address(base) => {
                    if len <= window && base <= usize::MAX - window {
                        Step::Call(State::Lower { base, upper: base + len, len, window })
                    } else {
                        Step::Refused
                    }
                },
                _ => Step::Refused,
            },
            State::Lower { base, upper, len, window } => match reply {
                Reply::Address(_) => Step::Call(State::Entry { base, upper, len, window }),
                _ => Step::Call(State::DeallocateRefused { base, window }),
            },
            State::Entry { base, upper, len, window } => match reply {
                Reply::Entry(entry) => Step::Call(
                    State::Remap { entry, base, upper, len, window },
                ),
                _ => Step::Call(State::DeallocateRefused { base, window }),
            },
            State::Remap { entry, base, len, window, .. } => match reply {
                Reply::Address(_) => Step::Call(State::ReleaseMapped { entry, base, len, window }),
                _ => Step::Call(State::ReleaseRefused { entry, base, window }),
            },
            State::ReleaseRefused { base, window, .. } => match reply {
                Reply::Done => Step::Call(State::DeallocateRefused { base, window }),
                _ => Step::Abort,
            },
            State::DeallocateRefused { .. } => match reply {
                Reply::Done => Step::Refused,
                _ => Step::Abort,
            },
            State::ReleaseMapped { base, .. } => match reply {
                Reply::Done => Step::Mapped(base),
                _ => Step::Abort,
            },
            State::Free { .. } => match reply {
                Reply::Done => Step::Released,
                _ => Step::Abort,
            },
        }
    }

    proof fn lemma_first_accounts(len: usize) {
    }

    proof fn lemma_step_accounts(self, reply: Reply) {
    }
}

/// Begins the allocation of a double mapping of `len` bytes.
pub fn voodoo_buf_alloc(len: usize) -> (step: Step<State>)
    ensures
        step == State::first(len),
        step matches Step::Call(state) ==> state.wf(),
{
    match len.checked_mul(2) {
        Some(window) => Step::Call(State::Allocate { len, window }),
        None => Step::Refused,
    }
}

/// Begins the release of the double mapping of `buffer`: its whole region is
/// deallocated in one call.
pub fn voodoo_buf_free(buffer: &MagicBuffer) -> (state: State)
    ensures
        state == (State::Free {
            base: buffer.base(),
            len: buffer.len(),
            window: (2 * buffer.len()) as usize,
        }),
        state.wf(),
        state.held() == State::double_mapping(buffer.base(), buffer.len()),
{
    let base = buffer.as_ptr(0);
    State::Free { base, len: buffer.len(), window: 2 * buffer.len() }
}

/// The upper half is only ever mapped into a region that is held, at the
/// address where its lower half ends; and only what is held is given back.
pub proof fn lemma_calls_stay_inside(state: State)
    requires
        state.wf(),
    ensures
        match state.pending() {
            Action::Allocate { size } => state.held() == State::nothing(),
            Action::AllocateLower { addr, size } => state.held().window == Some(
                (addr, (2 * size) as usize),
            ),
            Action::MakeEntry { addr, size } => state.held().window == Some(
                (addr, (2 * size) as usize),
            ),
            Action::RemapUpper { target, size, source } => {
                &&& target == source + size
                &&& state.held().window == Some((source, (2 * size) as usize))
            },
            Action::ReleaseEntry { entry } => state.held().entry == Some(entry),
            Action::Deallocate { addr, size } => state.held().window == Some((addr, size)),
        },
{
}

/// Where the kernel grants every call, the region is mapped in five calls:
/// it is allocated, its lower half is allocated again and given an entry,
/// the lower half is mapped over the upper half, and the entry is given
/// back.
pub proof fn lemma_granted_calls(len: usize, base: usize, lower: usize, entry: u32, at: usize)
    requires
        base + 2 * len <= usize::MAX,
    ensures
        ({
            let replies = seq![
                Reply::Address(base),
                Reply::Address(lower),
                Reply::Entry(entry),
                Reply::Address(at),
                Reply::Done,
            ];
            &&& run(State::first(len), replies) == Step::<State>::Mapped(base)
            &&& calls(State::first(len), replies) == seq![
                Action::Allocate { size: (2 * len) as usize },
                Action::AllocateLower { addr: base, size: len },
                Action::MakeEntry { addr: base, size: len },
                Action::RemapUpper { target: (base + len) as usize, size: len, source: base },
                Action::ReleaseEntry { entry },
            ]
        }),
{
    let window = (2 * len) as usize;
    let upper = (base + len) as usize;
    let r4 = seq![Reply::Done];
    let r3 = seq![Reply::Address(at)] + r4;
    let r2 = seq![Reply::Entry(entry)] + r3;
    let r1 = seq![Reply::Address(lower)] + r2;
    let r0 = seq![Reply::Address(base)] + r1;
    lemma_run_unfolds(State::Allocate { len, window }, Reply::Address(base), r1);
    lemma_run_unfolds(State::Lower { base, upper, len, window }, Reply::Address(lower), r2);
    lemma_run_unfolds(State::Entry { base, upper, len, window }, Reply::Entry(entry), r3);
    lemma_run_unfolds(State::Remap { entry, base, upper, len, window }, Reply::Address(at), r4);
    lemma_run_unfolds(State::ReleaseMapped { entry, base, len, window }, Reply::Done, Seq::empty());
    assert(r4 =~= seq![Reply::Done] + Seq::empty());
    assert(r0 =~= seq![
        Reply::Address(base),
        Reply::Address(lower),
        Reply::Entry(entry),
        Reply::Address(at),
        Reply::Done,
    ]);
    assert(calls(State::first(len), r0) =~= seq![
        Action::Allocate { size: window },
        Action::AllocateLower { addr: base, size: len },
        Action::MakeEntry { addr: base, size: len },
        Action::RemapUpper { target: upper, size: len, source: base },
        Action::ReleaseEntry { entry },
    ]);
}

/// Where the lower half cannot be mapped over the upper half, what was
/// acquired is given back, last acquired first: the entry, then the region.
pub proof fn lemma_refused_calls(len: usize, base: usize, entry: u32, refusal: Reply)
    requires
        base + 2 * len <= usize::MAX,
        !(refusal is Address),
    ensures
        ({
            let state = State::Remap {
                entry,
                base,
                upper: (base + len) as usize,
                len,
                window: (2 * len) as usize,
            };
            let replies = seq![refusal, Reply::Done, Reply::Done];
            &&& run(Step::Call(state), replies) == Step::<State>::Refused
            &&& calls(Step::Call(state), replies) == seq![
                Action::RemapUpper { target: (base + len) as usize, size: len, source: base },
                Action::ReleaseEntry { entry },
                Action::Deallocate { addr: base, size: (2 * len) as usize },
            ]
        }),
{
    let window = (2 * len) as usize;
    let upper = (base + len) as usize;
    let r2 = seq![Reply::Done];
    let r1 = seq![Reply::Done] + r2;
    let r0 = seq![refusal] + r1;
    let remap = State::Remap { entry, base, upper, len, window };
    lemma_run_unfolds(remap, refusal, r1);
    lemma_run_unfolds(State::ReleaseRefused { entry, base, window }, Reply::Done, r2);
    lemma_run_unfolds(State::DeallocateRefused { base, window }, Reply::Done, Seq::empty());
    assert(r2 =~= seq![Reply::Done] + Seq::empty());
    assert(r0 =~= seq![refusal, Reply::Done, Reply::Done]);
    assert(calls(Step::Call(remap), r0) =~= seq![
        Action::RemapUpper { target: upper, size: len, source: base },
        Action::ReleaseEntry { entry },
        Action::Deallocate { addr: base, size: window },
    ]);
}

} // verus!
