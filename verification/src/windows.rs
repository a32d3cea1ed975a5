//! The double mapping built from a placeholder that is split and replaced.
//!
//! `2 * len` bytes of address space are reserved as one placeholder, the
//! placeholder is split into two halves, a section of `len` bytes is created
//! in the paging file, and a view of the section replaces each half. The two
//! views land on addresses that were reserved in one piece, so nothing else
//! can be placed between them. Whatever was acquired when a call fails is
//! given back, last acquired first.

use vstd::prelude::*;
use crate::protocol::{calls, lemma_run_unfolds, run, Protocol, Step};
use crate::MagicBuffer;

verus! {

/// A call to the operating system, with its arguments.
#[derive(Clone, Copy, Debug, PartialEq, Eq, Structural)]
pub enum Action {
    /// Reserve `size` bytes of address space, without access, as a
    /// placeholder. Answered with the address.
    ReservePlaceholder { size: usize },
    /// Split the placeholder at `addr` so that its first `size` bytes become
    /// a placeholder of their own.
    SplitPlaceholder { addr: usize, size: usize },
    /// Create a readable and writable section of `size` bytes in the paging
    /// file. Answered with the section.
    CreateSection { size: usize },
    /// Map a readable and writable view of `size` bytes of `section` in
    /// place of the placeholder at `addr`. Answered with the address.
    MapView { section: isize, addr: usize, size: usize },
    /// Release the placeholder at `addr`.
    ReleasePlaceholder { addr: usize },
    /// Unmap the view at `addr`.
    UnmapView { addr: usize },
    /// Close `section`.
    CloseSection { section: isize },
}

/// How the operating system answered a call.
#[derive(Clone, Copy, Debug, PartialEq, Eq, Structural)]
pub enum Reply {
    /// The call failed.
    Failed,
    /// The call succeeded and returned nothing of interest.
    Done,
    /// The call succeeded and returned this address.
    Address(usize),
    /// The call succeeded and returned this section.
    Section(isize),
}

impl Reply {
    /// The answer of a call that returns `failure` when it has failed.
    pub fn from_status(returned: i32, failure: i32) -> (reply: Reply)
        ensures
            reply == if returned == failure {
                Reply::Failed
            } else {
                Reply::Done
            },
    {
        if returned == failure {
            Reply::Failed
        } else {
            Reply::Done
        }
    }

    /// The answer of a call that returns an address, or null when it has
    /// failed.
    pub fn from_address(returned: usize) -> (reply: Reply)
        ensures
            reply == if returned == 0 {
                Reply::Failed
            } else {
                Reply::Address(returned)
            },
    {
        if returned == 0 {
            Reply::Failed
        } else {
            Reply::Address(returned)
        }
    }

    /// The answer of a call that returns a section, or null when it has
    /// failed.
    pub fn from_section(returned: isize) -> (reply: Reply)
        ensures
            reply == if returned == 0 {
                Reply::Failed
            } else {
                Reply::Section(returned)
            },
    {
        if returned == 0 {
            Reply::Failed
        } else {
            Reply::Section(returned)
        }
    }
}

/// Where an allocation or a release stands: which call is under way, and what
/// the calls before it have acquired. `len` is the length of the ring, `base`
/// the address of the lower half and `upper` that of the upper half.
#[derive(Clone, Copy, Debug, PartialEq, Eq, Structural)]
pub enum State {
    /// Reserving the placeholder of `window` bytes.
    Reserve { len: usize, window: usize },
    /// Splitting the placeholder.
    Split { base: usize, upper: usize, len: usize, window: usize },
    /// Creating the section.
    Section { base: usize, upper: usize, len: usize },
    /// Replacing the lower placeholder by a view.
    MapLower { section: isize, base: usize, upper: usize, len: usize },
    /// Replacing the upper placeholder by a view.
    MapUpper { section: isize, base: usize, upper: usize, len: usize },
    /// Closing the section once both views stand.
    CloseMapped { section: isize, base: usize, upper: usize, len: usize },
    /// Releasing the placeholder that could not be split.
    ReleaseWhole { base: usize, window: usize },
    /// Closing the section after the lower view was refused.
    CloseRefused { section: isize, base: usize, upper: usize },
    /// Releasing the upper placeholder; the lower one follows.
    ReleaseUpper { base: usize, upper: usize },
    /// Releasing the lower placeholder, the last thing held.
    ReleaseLower { base: usize },
    /// Unmapping the lower view after the upper view was refused.
    UnmapRefused { section: isize, base: usize, upper: usize },
    /// Closing the section after the lower view was unmapped.
    CloseUnmapped { section: isize, upper: usize },
    /// Releasing the upper placeholder, the last thing held.
    ReleaseLast { upper: usize },
    /// Unmapping the upper view of a buffer that is dropped.
    FreeUpper { base: usize, upper: usize, len: usize },
    /// Unmapping the lower view of a buffer that is dropped.
    FreeLower { base: usize, len: usize },
}

/// What stands at one half of the reservation.
pub enum Half {
    /// Nothing of this buffer.
    Absent,
    /// A placeholder at this address.
    Placeholder(usize),
    /// A view of the section at this address.
    View(usize),
}

/// What the process holds of the operating system on behalf of one buffer.
pub struct Held {
    /// The placeholder that is not split yet: its address and its length.
    pub whole: Option<(usize, usize)>,
    /// What stands at the lower half.
    pub lower: Half,
    /// What stands at the upper half.
    pub upper: Half,
    /// The open section.
    pub section: Option<isize>,
}

impl Protocol for State {
    type Action = Action;

    type Reply = Reply;

    type Held = Held;

    /// The ring is not empty, the reservation is twice the ring and lies
    /// inside the address space, and its upper half starts one ring length
    /// above its base.
    open spec fn wf(self) -> bool {
        match self {
            State::Reserve { len, window } => window == 2 * len && len > 0,
            State::Split { base, upper, len, window } => {
                &&& len > 0
                &&& window == 2 * len
                &&& upper == base + len
                &&& upper + len <= usize::MAX
            },
            State::Section { base, upper, len } => {
                &&& len > 0
                &&& upper == base + len
                &&& upper + len <= usize::MAX
            },
            State::MapLower { section, base, upper, len } => {
                &&& len > 0
                &&& upper == base + len
                &&& upper + len <= usize::MAX
            },
            State::MapUpper { section, base, upper, len } => {
                &&& len > 0
                &&& upper == base + len
                &&& upper + len <= usize::MAX
            },
            State::CloseMapped { section, base, upper, len } => {
                &&& len > 0
                &&& upper == base + len
                &&& upper + len <= usize::MAX
            },
            State::ReleaseWhole { base, window } => true,
            State::CloseRefused { section, base, upper } => base < upper,
            State::ReleaseUpper { base, upper } => base < upper,
            State::ReleaseLower { base } => true,
            State::UnmapRefused { section, base, upper } => base < upper,
            State::CloseUnmapped { section, upper } => true,
            State::ReleaseLast { upper } => true,
            State::FreeUpper { base, upper, len } => {
                &&& len > 0
                &&& upper == base + len
                &&& upper + len <= usize::MAX
            },
            State::FreeLower { base, len } => true,
        }
    }

    open spec fn ring(self) -> usize {
        match self {
            State::Reserve { len, window } => len,
            State::Split { base, upper, len, window } => len,
            State::Section { base, upper, len } => len,
            State::MapLower { section, base, upper, len } => len,
            State::MapUpper { section, base, upper, len } => len,
            State::CloseMapped { section, base, upper, len } => len,
            State::FreeUpper { base, upper, len } => len,
            State::FreeLower { base, len } => len,
            _ => 0,
        }
    }

    open spec fn pending(self) -> Action {
        match self {
            State::Reserve { len, window } => Action::ReservePlaceholder { size: window },
            State::Split { base, upper, len, window } => Action::SplitPlaceholder {
                addr: base,
                size: len,
            },
            State::Section { base, upper, len } => Action::CreateSection { size: len },
            State::MapLower { section, base, upper, len } => Action::MapView {
                section,
                addr: base,
                size: len,
            },
            State::MapUpper { section, base, upper, len } => Action::MapView {
                section,
                addr: upper,
                size: len,
            },
            State::CloseMapped { section, base, upper, len } => Action::CloseSection { section },
            State::ReleaseWhole { base, window } => Action::ReleasePlaceholder { addr: base },
            State::CloseRefused { section, base, upper } => Action::CloseSection { section },
            State::ReleaseUpper { base, upper } => Action::ReleasePlaceholder { addr: upper },
            State::ReleaseLower { base } => Action::ReleasePlaceholder { addr: base },
            State::UnmapRefused { section, base, upper } => Action::UnmapView { addr: base },
            State::CloseUnmapped { section, upper } => Action::CloseSection { section },
            State::ReleaseLast { upper } => Action::ReleasePlaceholder { addr: upper },
            State::FreeUpper { base, upper, len } => Action::UnmapView { addr: upper },
            State::FreeLower { base, len } => Action::UnmapView { addr: base },
        }
    }

    open spec fn held(self) -> Held {
        match self {
            State::Reserve { len, window } => Self::nothing(),
            State::Split { base, upper, len, window } => Held {
                whole: Some((base, window)),
                ..Self::nothing()
            },
            State::Section { base, upper, len } => Held {
                lower: Half::Placeholder(base),
                upper: Half::Placeholder(upper),
                ..Self::nothing()
            },
            State::MapLower { section, base, upper, len } => Held {
                lower: Half::Placeholder(base),
                upper: Half::Placeholder(upper),
                section: Some(section),
                ..Self::nothing()
            },
            State::MapUpper { section, base, upper, len } => Held {
                lower: Half::View(base),
                upper: Half::Placeholder(upper),
                section: Some(section),
                ..Self::nothing()
            },
            State::CloseMapped { section, base, upper, len } => Held {
                section: Some(section),
                ..Self::double_mapping(base, len)
            },
            State::ReleaseWhole { base, window } => Held {
                whole: Some((base, window)),
                ..Self::nothing()
            },
            State::CloseRefused { section, base, upper } => Held {
                lower: Half::Placeholder(base),
                upper: Half::Placeholder(upper),
                section: Some(section),
                ..Self::nothing()
            },
            State::ReleaseUpper { base, upper } => Held {
                lower: Half::Placeholder(base),
                upper: Half::Placeholder(upper),
                ..Self::nothing()
            },
            State::ReleaseLower { base } => Held {
                lower: Half::Placeholder(base),
                ..Self::nothing()
            },
            State::UnmapRefused { section, base, upper } => Held {
                lower: Half::View(base),
                upper: Half::Placeholder(upper),
                section: Some(section),
                ..Self::nothing()
            },
            State::CloseUnmapped { section, upper } => Held {
                upper: Half::Placeholder(upper),
                section: Some(section),
                ..Self::nothing()
            },
            State::ReleaseLast { upper } => Held {
                upper: Half::Placeholder(upper),
                ..Self::nothing()
            },
            State::FreeUpper { base, upper, len } => Self::double_mapping(base, len),
            State::FreeLower { base, len } => Held { lower: Half::View(base), ..Self::nothing() },
        }
    }

    open spec fn calls_left(self) -> nat {
        match self {
            State::Reserve { len, window } => 7,
            State::Split { base, upper, len, window } => 6,
            State::Section { base, upper, len } => 5,
            State::MapLower { section, base, upper, len } => 4,
            State::MapUpper { section, base, upper, len } => 3,
            State::CloseMapped { section, base, upper, len } => 0,
            State::ReleaseWhole { base, window } => 0,
            State::CloseRefused { section, base, upper } => 2,
            State::ReleaseUpper { base, upper } => 1,
            State::ReleaseLower { base } => 0,
            State::UnmapRefused { section, base, upper } => 2,
            State::CloseUnmapped { section, upper } => 1,
            State::ReleaseLast { upper } => 0,
            State::FreeUpper { base, upper, len } => 1,
            State::FreeLower { base, len } => 0,
        }
    }

    open spec fn refused(self) -> bool {
        ||| self is ReleaseWhole
        ||| self is CloseRefused
        ||| self is ReleaseUpper
        ||| self is ReleaseLower
        ||| self is UnmapRefused
        ||| self is CloseUnmapped
        ||| self is ReleaseLast
    }

    open spec fn releasing(self) -> bool {
        self is FreeUpper || self is FreeLower
    }

    /// Any failure to acquire gives back what is held, last acquired first,
    /// and ends in a refusal. A placeholder that does not lie inside the
    /// address space counts as not reserved. A failure to give something
    /// back ends in `Abort`.
    open spec fn next(self, reply: Reply) -> Step<State> {
        match self {
            State::Reserve { len, window } => match reply {
                Reply::Address(base) => if base + window <= usize::MAX && len <= window {
                    Step::Call(State::Split { base, upper: (base + len) as usize, len, window })
                } else {
                    Step::Refused
                },
                _ => Step::Refused,
            },
            State::Split { base, upper, len, window } => match reply {
                Reply::Done => Step::Call(State::Section { base, upper, len }),
                _ => Step::Call(State::ReleaseWhole { base, window }),
            },
            State::Section { base, upper, len } => match reply {
                Reply::Section(section) => Step::Call(
                    State::MapLower { section, base, upper, len },
                ),
                _ => Step::Call(State::ReleaseUpper { base, upper }),
            },
            State::MapLower { section, base, upper, len } => match reply {
                Reply::Address(at) => Step::Call(State::MapUpper { section, base, upper, len }),
                _ => Step::Call(State::CloseRefused { section, base, upper }),
            },
            State::MapUpper { section, base, upper, len } => match reply {
                Reply::Address(at) => Step::Call(State::CloseMapped { section, base, upper, len }),
                _ => Step::Call(State::UnmapRefused { section, base, upper }),
            },
            State::CloseMapped { section, base, upper, len } => match reply {
                Reply::Done => Step::Mapped(base),
                _ => Step::Abort,
            },
            State::ReleaseWhole { base, window } => match reply {
                Reply::Done => Step::Refused,
                _ => Step::Abort,
            },
            State::CloseRefused { section, base, upper } => match reply {
                Reply::Done => Step::Call(State::ReleaseUpper { base, upper }),
                _ => Step::Abort,
            },
            State::ReleaseUpper { base, upper } => match reply {
                Reply::Done => Step::Call(State::ReleaseLower { base }),
                _ => Step::Abort,
            },
            State::ReleaseLower { base } => match reply {
                Reply::Done => Step::Refused,
                _ => Step::Abort,
            },
            State::UnmapRefused { section, base, upper } => match reply {
                Reply::Done => Step::Call(State::CloseUnmapped { section, upper }),
                _ => Step::Abort,
            },
            State::CloseUnmapped { section, upper } => match reply {
                Reply::Done => Step::Call(State::ReleaseLast { upper }),
                _ => Step::Abort,
            },
            State::ReleaseLast { upper } => match reply {
                Reply::Done => Step::Refused,
                _ => Step::Abort,
            },
            State::FreeUpper { base, upper, len } => match reply {
                Reply::Done => Step::Call(State::FreeLower { base, len }),
                _ => Step::Abort,
            },
            State::FreeLower { base, len } => match reply {
                Reply::Done => Step::Released,
                _ => Step::Abort,
            },
        }
    }

    /// A ring whose double does not fit the address space is refused before
    /// anything is asked of the system.
    open spec fn first(len: usize) -> Step<State> {
        if 2 * len <= usize::MAX {
            Step::Call(State::Reserve { len, window: (2 * len) as usize })
        } else {
            Step::Refused
        }
    }

    /// A call that failed changes nothing, and so does one that names what
    /// is not held. A placeholder counts as reserved only where it lies
    /// inside the address space.
    open spec fn effect(held: Held, action: Action, reply: Reply) -> Held {
        match (action, reply) {
            (Action::ReservePlaceholder { size }, Reply::Address(base)) => if base + size
                <= usize::MAX {
                Held { whole: Some((base, size)), ..held }
            } else {
                held
            },
            (Action::SplitPlaceholder { addr, size }, Reply::Done) => if held.whole == Some(
                (addr, (2 * size) as usize),
            ) {
                Held {
                    whole: None,
                    lower: Half::Placeholder(addr),
                    upper: Half::Placeholder((addr + size) as usize),
                    ..held
                }
            } else {
                held
            },
            (Action::CreateSection { size }, Reply::Section(section)) => Held {
                section: Some(section),
                ..held
            },
            (Action::MapView { section, addr, size }, Reply::Address(at)) => if held.lower
                == Half::Placeholder(addr) {
                Held { lower: Half::View(addr), ..held }
            } else if held.upper == Half::Placeholder(addr) {
                Held { upper: Half::View(addr), ..held }
            } else {
                held
            },
            (Action::ReleasePlaceholder { addr }, Reply::Done) => if held.whole matches Some(whole)
                && whole.0 == addr {
                Held { whole: None, ..held }
            } else if held.lower == Half::Placeholder(addr) {
                Held { lower: Half::Absent, ..held }
            } else if held.upper == Half::Placeholder(addr) {
                Held { upper: Half::Absent, ..held }
            } else {
                held
            },
            (Action::UnmapView { addr }, Reply::Done) => if held.lower == Half::View(addr) {
                Held { lower: Half::Absent, ..held }
            } else if held.upper == Half::View(addr) {
                Held { upper: Half::Absent, ..held }
            } else {
                held
            },
            (Action::CloseSection { section }, Reply::Done) => if held.section == Some(section) {
                Held { section: None, ..held }
            } else {
                held
            },
            _ => held,
        }
    }

    open spec fn nothing() -> Held {
        Held { whole: None, lower: Half::Absent, upper: Half::Absent, section: None }
    }

    /// A view of `len` bytes at `base` and a view of the same section right
    /// above it; no placeholder and no open section.
    open spec fn double_mapping(base: usize, len: usize) -> Held {
        Held {
            whole: None,
            lower: Half::View(base),
            upper: Half::View((base + len) as usize),
            section: None,
        }
    }

    fn action(&self) -> (action: Action) {
        match *self {
            State::Reserve { window, .. } => Action::ReservePlaceholder { size: window },
            State::Split { base, len, .. } => Action::SplitPlaceholder { addr: base, size: len },
            State::Section { len, .. } => Action::CreateSection { size: len },
            State::MapLower { section, base, len, .. } => Action::MapView {
                section,
                addr: base,
                size: len,
            },
            State::MapUpper { section, upper, len, .. } => Action::MapView {
                section,
                addr: upper,
                size: len,
            },
            State::CloseMapped { section, .. } => Action::CloseSection { section },
            State::ReleaseWhole { base, .. } => Action::ReleasePlaceholder { addr: base },
            State::CloseRefused { section, .. } => Action::CloseSection { section },
            State::ReleaseUpper { upper, .. } => Action::ReleasePlaceholder { addr: upper },
            State::ReleaseLower { base } => Action::ReleasePlaceholder { addr: base },
            State::UnmapRefused { base, .. } => Action::UnmapView { addr: base },
            State::CloseUnmapped { section, .. } => Action::CloseSection { section },
            State::ReleaseLast { upper } => Action::ReleasePlaceholder { addr: upper },
            State::FreeUpper { upper, .. } => Action::UnmapView { addr: upper },
            State::FreeLower { base, .. } => Action::UnmapView { addr: base },
        }
    }

    fn resume(self, reply: Reply) -> (step: Step<State>) {
        match self {
            State::Reserve { len, window } => match reply {
                Reply::Address(base) => {
                    if len <= window && base <= usize::MAX - window {
                        Step::Call(State::Split { base, upper: base + len, len, window })
                    } else {
                        Step::Refused
                    }
                },
                _ => Step::Refused,
            },
            State::Split { base, upper, len, window } => match reply {
                Reply::Done => Step::Call(State::Section { base, upper, len }),
                _ => Step::Call(State::ReleaseWhole { base, window }),
            },
            State::Section { base, upper, len } => match reply {
                Reply::Section(section) => Step::Call(
                    State::MapLower { section, base, upper, len },
                ),
                _ => Step::Call(State::ReleaseUpper { base, upper }),
            },
            State::MapLower { section, base, upper, len } => match reply {
                Reply::Address(_) => Step::Call(State::MapUpper { section, base, upper, len }),
                _ => Step::Call(State::CloseRefused { section, base, upper }),
            },
            State::MapUpper { section, base, upper, len } => match reply {
                Reply::Address(_) => Step::Call(State::CloseMapped { section, base, upper, len }),
                _ => Step::Call(State::UnmapRefused { section, base, upper }),
            },
            State::CloseMapped { base, .. } => match reply {
                Reply::Done => Step::Mapped(base),
                _ => Step::Abort,
            },
            State::ReleaseWhole { .. } => match reply {
                Reply::Done => Step::Refused,
                _ => Step::Abort,
            },
            State::CloseRefused { base, upper, .. } => match reply {
                Reply::Done => Step::Call(State::ReleaseUpper { base, upper }),
                _ => Step::Abort,
            },
            State::ReleaseUpper { base, .. } => match reply {
                Reply::Done => Step::Call(State::ReleaseLower { base }),
                _ => Step::Abort,
            },
            State::ReleaseLower { .. } => match reply {
                Reply::Done => Step::Refused,
                _ => Step::Abort,
            },
            State::UnmapRefused { section, upper, .. } => match reply {
                Reply::Done => Step::Call(State::CloseUnmapped { section, upper }),
                _ => Step::Abort,
            },
            State::CloseUnmapped { upper, .. } => match reply {
                Reply::Done => Step::Call(State::ReleaseLast { upper }),
                _ => Step::Abort,
            },
            State::ReleaseLast { .. } => match reply {
                Reply::Done => Step::Refused,
                _ => Step::Abort,
            },
            State::FreeUpper { base, len, .. } => match reply {
                Reply::Done => Step::Call(State::FreeLower { base, len }),
                _ => Step::Abort,
            },
            State::FreeLower { .. } => match reply {
                Reply::Done => Step::Released,
                _ => Step::Abort,
            },
        }
    }

    proof fn lemma_first_accounts(len: usize) {
    }

    proof fn lemma_step_accounts(self, reply: Reply) {
    }
}

/// Begins the allocation of a double mapping of `len` bytes.
pub fn magic_buf_alloc(len: usize) -> (step: Step<State>)
    ensures
        step == State::first(len),
        len > 0 ==> (step matches Step::Call(state) ==> state.wf()),
{
    match len.checked_mul(2) {
        Some(window) => Step::Call(State::Reserve { len, window }),
        None => Step::Refused,
    }
}

/// Begins the release of the two views of `len` bytes at `base`: the upper
/// view is unmapped first, then the lower one.
pub(crate) fn release(base: usize, len: usize) -> (state: State)
    requires
        len > 0,
        base + 2 * len <= usize::MAX,
    ensures
        state == (State::FreeUpper { base, upper: (base + len) as usize, len }),
        state.wf(),
        state.held() == State::double_mapping(base, len),
{
    State::FreeUpper { base, upper: base + len, len }
}

/// Begins the release of the double mapping of `buffer`: the upper view is
/// unmapped first, then the lower one.
pub fn magic_buf_free(buffer: &MagicBuffer) -> (state: State)
    ensures
        state == (State::FreeUpper {
            base: buffer.base(),
            upper: (buffer.base() + buffer.len()) as usize,
            len: buffer.len(),
        }),
        state.wf(),
        state.held() == State::double_mapping(buffer.base(), buffer.len()),
{
    let base = buffer.as_ptr(0);
    proof {
        use_type_invariant(buffer);
        buffer.lemma_wf();
    }
    release(base, buffer.len())
}

/// A view only ever replaces a placeholder that is held, the upper view only
/// once the lower view stands; and only what is held is given back.
pub proof fn lemma_calls_stay_inside(state: State)
    requires
        state.wf(),
    ensures
        match state.pending() {
            Action::ReservePlaceholder { size } => state.held() == State::nothing(),
            Action::SplitPlaceholder { addr, size } => state.held().whole == Some(
                (addr, (2 * size) as usize),
            ),
            Action::CreateSection { size } => state.held().section is None,
            Action::MapView { section, addr, size } => {
                &&& state.held().section == Some(section)
                &&& state.held().lower == Half::Placeholder(addr) || (state.held().upper
                    == Half::Placeholder(addr) && state.held().lower == Half::View(
                    (addr - size) as usize,
                ))
            },
            Action::ReleasePlaceholder { addr } => {
                ||| state.held().whole matches Some(whole) && whole.0 == addr
                ||| state.held().lower == Half::Placeholder(addr)
                ||| state.held().upper == Half::Placeholder(addr)
            },
            Action::UnmapView { addr } => {
                ||| state.held().lower == Half::View(addr)
                ||| state.held().upper == Half::View(addr)
            },
            Action::CloseSection { section } => state.held().section == Some(section),
        },
{
}

/// Where the system grants every call, both views stand after six calls:
/// the placeholder is reserved and split, the section is created, a view
/// replaces the lower half and then the upper half, and the section is
/// closed.
pub proof fn lemma_granted_calls(len: usize, base: usize, section: isize, lower: usize, at: usize)
    requires
        len > 0,
        base + 2 * len <= usize::MAX,
    ensures
        ({
            let replies = seq![
                Reply::Address(base),
                Reply::Done,
                Reply::Section(section),
                Reply::Address(lower),
                Reply::Address(at),
                Reply::Done,
            ];
            &&& run(State::first(len), replies) == Step::<State>::Mapped(base)
            &&& calls(State::first(len), replies) == seq![
                Action::ReservePlaceholder { size: (2 * len) as usize },
                Action::SplitPlaceholder { addr: base, size: len },
                Action::CreateSection { size: len },
                Action::MapView { section, addr: base, size: len },
                Action::MapView { section, addr: (base + len) as usize, size: len },
                Action::CloseSection { section },
            ]
        }),
{
    let window = (2 * len) as usize;
    let upper = (base + len) as usize;
    let r5 = seq![Reply::Done];
    let r4 = seq![Reply::Address(at)] + r5;
    let r3 = seq![Reply::Address(lower)] + r4;
    let r2 = seq![Reply::Section(section)] + r3;
    let r1 = seq![Reply::Done] + r2;
    let r0 = seq![Reply::Address(base)] + r1;
    lemma_run_unfolds(State::Reserve { len, window }, Reply::Address(base), r1);
    lemma_run_unfolds(State::Split { base, upper, len, window }, Reply::Done, r2);
    lemma_run_unfolds(State::Section { base, upper, len }, Reply::Section(section), r3);
    lemma_run_unfolds(State::MapLower { section, base, upper, len }, Reply::Address(lower), r4);
    lemma_run_unfolds(State::MapUpper { section, base, upper, len }, Reply::Address(at), r5);
    lemma_run_unfolds(
        State::CloseMapped { section, base, upper, len },
        Reply::Done,
        Seq::empty(),
    );
    assert(r5 =~= seq![Reply::Done] + Seq::empty());
    assert(r0 =~= seq![
        Reply::Address(base),
        Reply::Done,
        Reply::Section(section),
        Reply::Address(lower),
        Reply::Address(at),
        Reply::Done,
    ]);
    assert(calls(State::first(len), r0) =~= seq![
        Action::ReservePlaceholder { size: window },
        Action::SplitPlaceholder { addr: base, size: len },
        Action::CreateSection { size: len },
        Action::MapView { section, addr: base, size: len },
        Action::MapView { section, addr: upper, size: len },
        Action::CloseSection { section },
    ]);
}

/// Where the upper view is refused, what was acquired is given back, last
/// acquired first: the lower view is unmapped, the section is closed, and
/// the upper placeholder is released.
pub proof fn lemma_refused_calls(len: usize, base: usize, section: isize, refusal: Reply)
    requires
        len > 0,
        base + 2 * len <= usize::MAX,
        !(refusal is Address),
    ensures
        ({
            let upper = (base + len) as usize;
            let state = State::MapUpper { section, base, upper, len };
            let replies = seq![refusal, Reply::Done, Reply::Done, Reply::Done];
            &&& run(Step::Call(state), replies) == Step::<State>::Refused
            &&& calls(Step::Call(state), replies) == seq![
                Action::MapView { section, addr: upper, size: len },
                Action::UnmapView { addr: base },
                Action::CloseSection { section },
                Action::ReleasePlaceholder { addr: upper },
            ]
        }),
{
    let upper = (base + len) as usize;
    let r3 = seq![Reply::Done];
    let r2 = seq![Reply::Done] + r3;
    let r1 = seq![Reply::Done] + r2;
    let r0 = seq![refusal] + r1;
    let map = State::MapUpper { section, base, upper, len };
    lemma_run_unfolds(map, refusal, r1);
    lemma_run_unfolds(State::UnmapRefused { section, base, upper }, Reply::Done, r2);
    lemma_run_unfolds(State::CloseUnmapped { section, upper }, Reply::Done, r3);
    lemma_run_unfolds(State::ReleaseLast { upper }, Reply::Done, Seq::empty());
    assert(r3 =~= seq![Reply::Done] + Seq::empty());
    assert(r0 =~= seq![refusal, Reply::Done, Reply::Done, Reply::Done]);
    assert(calls(Step::Call(map), r0) =~= seq![
        Action::MapView { section, addr: upper, size: len },
        Action::UnmapView { addr: base },
        Action::CloseSection { section },
        Action::ReleasePlaceholder { addr: upper },
    ]);
}

} // verus!
