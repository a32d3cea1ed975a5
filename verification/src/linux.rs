//! The double mapping built from a file descriptor.
//!
//! An anonymous shared file of `len` bytes is created, a window of `2 * len`
//! bytes is mapped from it at an address that the system chooses, and the
//! upper half of that window is then mapped again, fixed, onto the start of
//! the file. Because the window is reserved in one piece before its upper half
//! is replaced, nothing else can be placed between the two halves.

use vstd::prelude::*;
use crate::protocol::{calls, lemma_run_unfolds, run, Protocol, Step};
use crate::MagicBuffer;

verus! {

/// A call to the operating system, with its arguments.
#[derive(Clone, Copy, Debug, PartialEq, Eq, Structural)]
pub enum Action {
    /// Create an anonymous memory file. Answered with the descriptor.
    CreateMemfd,
    /// Create a temporary file, for systems without anonymous memory files.
    /// Answered with the descriptor.
    CreateTempFile,
    /// Remove the name of the temporary file; the descriptor stays open.
    UnlinkTempFile,
    /// Set the size of the file behind `fd` to `len` bytes.
    Truncate { fd: i32, len: usize },
    /// Map `len` bytes of `fd`, readable, writable and shared, wherever the
    /// system finds room. Answered with the address.
    MapWindow { fd: i32, len: usize },
    /// Map the first `len` bytes of `fd`, readable, writable and shared, at
    /// exactly `addr`, over what is mapped there. Answered with the address.
    MapUpperHalf { fd: i32, addr: usize, len: usize },
    /// Unmap `len` bytes at `addr`.
    Unmap { addr: usize, len: usize },
    /// Close `fd`.
    Close { fd: i32 },
}

/// How the operating system answered a call.
#[derive(Clone, Copy, Debug, PartialEq, Eq, Structural)]
pub enum Reply {
    /// The call failed.
    Failed,
    /// The call failed because the system does not implement it.
    Unsupported,
    /// The call succeeded and returned nothing of interest.
    Done,
    /// The call succeeded and returned this descriptor.
    Descriptor(i32),
    /// The call succeeded and returned this address.
    Address(usize),
}

impl Reply {
    /// The answer of a call that returns a descriptor, or `-1` and an error
    /// number. `unsupported` is the error number that stands for a call
    /// that the system does not implement.
    pub fn from_descriptor(returned: i64, errno: i32, unsupported: i32) -> (reply: Reply)
        ensures
            reply == if returned != -1 {
                Reply::Descriptor(returned as i32)
            } else if errno == unsupported {
                Reply::Unsupported
            } else {
                Reply::Failed
            },
    {
        if returned != -1 {
            Reply::Descriptor(#[verifier::truncate] (returned as i32))
        } else if errno == unsupported {
            Reply::Unsupported
        } else {
            Reply::Failed
        }
    }

    /// The answer of a call that returns `0` when it has succeeded.
    pub fn from_status(returned: i32) -> (reply: Reply)
        ensures
            reply == if returned == 0 {
                Reply::Done
            } else {
                Reply::Failed
            },
    {
        if returned == 0 {
            Reply::Done
        } else {
            Reply::Failed
        }
    }

    /// The answer of a call that returns an address, or the address `failed`
    /// when it has failed.
    pub fn from_address(returned: usize, failed: usize) -> (reply: Reply)
        ensures
            reply == if returned == failed {
                Reply::Failed
            } else {
                Reply::Address(returned)
            },
    {
        if returned == failed {
            Reply::Failed
        } else {
            Reply::Address(returned)
        }
    }
}

/// Where an allocation or a release stands: which call is under way, and what
/// the calls before it have acquired. `len` is the length of the ring,
/// `window` the length of the whole mapping, `base` its address and `upper`
/// the address of its upper half.
#[derive(Clone, Copy, Debug, PartialEq, Eq, Structural)]
pub enum State {
    /// Creating the anonymous memory file.
    Memfd { len: usize, window: usize },
    /// Creating a temporary file instead.
    TempFile { len: usize, window: usize },
    /// Removing the temporary file's name.
    Unlink { fd: i32, len: usize, window: usize },
    /// Sizing the file.
    Truncate { fd: i32, len: usize, window: usize },
    /// Mapping the whole window.
    Reserve { fd: i32, len: usize, window: usize },
    /// Mapping the upper half of the window again.
    Mirror { fd: i32, base: usize, upper: usize, len: usize, window: usize },
    /// Unmapping the window after the upper half could not be mapped.
    UnmapRefused { fd: i32, base: usize, window: usize },
    /// Closing the descriptor after a refusal.
    CloseRefused { fd: i32 },
    /// Closing the descriptor once both halves are mapped.
    CloseMapped { fd: i32, base: usize, len: usize, window: usize },
    /// Unmapping the window of a buffer that is dropped.
    Free { base: usize, len: usize, window: usize },
}

/// What the process holds of the operating system on behalf of one buffer.
pub struct Held {
    /// The open descriptor of the file.
    pub descriptor: Option<i32>,
    /// Whether the file still has a name in the file system.
    pub linked: bool,
    /// The mapped window: its address and its length.
    pub window: Option<(usize, usize)>,
    /// Whether the upper half of the window shows the same bytes as the lower.
    pub mirrored: bool,
}

impl Protocol for State {
    type Action = Action;

    type Reply = Reply;

    type Held = Held;

    /// The window is twice the ring, it lies inside the address space, and
    /// its upper half starts one ring length above its base.
    open spec fn wf(self) -> bool {
        match self {
            State::Memfd { len, window } => window == 2 * len,
            State::TempFile { len, window } => window == 2 * len,
            State::Unlink { fd, len, window } => window == 2 * len,
            State::Truncate { fd, len, window } => window == 2 * len,
            State::Reserve { fd, len, window } => window == 2 * len,
            State::Mirror { fd, base, upper, len, window } => {
                &&& window == 2 * len
                &&& upper == base + len
                &&& base + window <= usize::MAX
            },
            State::UnmapRefused { fd, base, window } => base + window <= usize::MAX,
            State::CloseRefused { fd } => true,
            State::CloseMapped { fd, base, len, window } => {
                &&& window == 2 * len
                &&& base + window <= usize::MAX
            },
            State::Free { base, len, window } => {
                &&& window == 2 * len
                &&& base + window <= usize::MAX
            },
        }
    }

    open spec fn ring(self) -> usize {
        match self {
            State::Memfd { len, window } => len,
            State::TempFile { len, window } => len,
            State::Unlink { fd, len, window } => len,
            State::Truncate { fd, len, window } => len,
            State::Reserve { fd, len, window } => len,
            State::Mirror { fd, base, upper, len, window } => len,
            State::UnmapRefused { fd, base, window } => 0,
            State::CloseRefused { fd } => 0,
            State::CloseMapped { fd, base, len, window } => len,
            State::Free { base, len, window } => len,
        }
    }

    open spec fn pending(self) -> Action {
        match self {
            State::Memfd { len, window } => Action::CreateMemfd,
            State::TempFile { len, window } => Action::CreateTempFile,
            State::Unlink { fd, len, window } => Action::UnlinkTempFile,
            State::Truncate { fd, len, window } => Action::Truncate { fd, len },
            State::Reserve { fd, len, window } => Action::MapWindow { fd, len: window },
            State::Mirror { fd, base, upper, len, window } => Action::MapUpperHalf {
                fd,
                addr: upper,
                len,
            },
            State::UnmapRefused { fd, base, window } => Action::Unmap { addr: base, len: window },
            State::CloseRefused { fd } => Action::Close { fd },
            State::CloseMapped { fd, base, len, window } => Action::Close { fd },
            State::Free { base, len, window } => Action::Unmap { addr: base, len: window },
        }
    }

    open spec fn held(self) -> Held {
        match self {
            State::Memfd { len, window } => Self::nothing(),
            State::TempFile { len, window } => Self::nothing(),
            State::Unlink { fd, len, window } => Held {
                descriptor: Some(fd),
                linked: true,
                ..Self::nothing()
            },
            State::Truncate { fd, len, window } => Held { descriptor: Some(fd), ..Self::nothing() },
            State::Reserve { fd, len, window } => Held { descriptor: Some(fd), ..Self::nothing() },
            State::Mirror { fd, base, upper, len, window } => Held {
                descriptor: Some(fd),
                window: Some((base, window)),
                ..Self::nothing()
            },
            State::UnmapRefused { fd, base, window } => Held {
                descriptor: Some(fd),
                window: Some((base, window)),
                ..Self::nothing()
            },
            State::CloseRefused { fd } => Held { descriptor: Some(fd), ..Self::nothing() },
            State::CloseMapped { fd, base, len, window } => Held {
                descriptor: Some(fd),
                ..Self::double_mapping(base, len)
            },
            State::Free { base, len, window } => Self::double_mapping(base, len),
        }
    }

    open spec fn calls_left(self) -> nat {
        match self {
            State::Memfd { len, window } => 7,
            State::TempFile { len, window } => 6,
            State::Unlink { fd, len, window } => 5,
            State::Truncate { fd, len, window } => 4,
            State::Reserve { fd, len, window } => 3,
            State::Mirror { fd, base, upper, len, window } => 2,
            State::UnmapRefused { fd, base, window } => 1,
            State::CloseRefused { fd } => 0,
            State::CloseMapped { fd, base, len, window } => 0,
            State::Free { base, len, window } => 0,
        }
    }

    open spec fn refused(self) -> bool {
        self is UnmapRefused || self is CloseRefused
    }

    open spec fn releasing(self) -> bool {
        self is Free
    }

    /// A missing anonymous memory file falls back to a temporary file. Any
    /// other failure to acquire gives back what is held, last acquired first,
    /// and ends in a refusal. A window that does not lie inside the address
    /// space counts as not mapped. A failure to give something back ends in
    /// `Abort`.
    open spec fn next(self, reply: Reply) -> Step<State> {
        match self {
            State::Memfd { len, window } => match reply {
                Reply::Descriptor(fd) => Step::Call(State::Truncate { fd, len, window }),
                Reply::Unsupported => Step::Call(State::TempFile { len, window }),
                _ => Step::Refused,
            },
            State::TempFile { len, window } => match reply {
                Reply::Descriptor(fd) => Step::Call(State::Unlink { fd, len, window }),
                _ => Step::Refused,
            },
            State::Unlink { fd, len, window } => match reply {
                Reply::Done => Step::Call(State::Truncate { fd, len, window }),
                _ => Step::Abort,
            },
            State::Truncate { fd, len, window } => match reply {
                Reply::Done => Step::Call(State::Reserve { fd, len, window }),
                _ => Step::Call(State::CloseRefused { fd }),
            },
            State::Reserve { fd, len, window } => match reply {
                Reply::Address(base) => if base + window <= usize::MAX && len <= window {
                    Step::Call(
                        State::Mirror { fd, base, upper: (base + len) as usize, len, window },
                    )
                } else {
                    Step::Call(State::CloseRefused { fd })
                },
                _ => Step::Call(State::CloseRefused { fd }),
            },
            State::Mirror { fd, base, upper, len, window } => match reply {
                Reply::Address(at) => Step::Call(State::CloseMapped { fd, base, len, window }),
                _ => Step::Call(State::UnmapRefused { fd, base, window }),
            },
            State::UnmapRefused { fd, base, window } => match reply {
                Reply::Done => Step::Call(State::CloseRefused { fd }),
                _ => Step::Abort,
            },
            State::CloseRefused { fd } => match reply {
                Reply::Done => Step::Refused,
                _ => Step::Abort,
            },
            State::CloseMapped { fd, base, len, window } => match reply {
                Reply::Done => Step::Mapped(base),
                _ => Step::Abort,
            },
            State::Free { base, len, window } => match reply {
                Reply::Done => Step::Released,
                _ => Step::Abort,
            },
        }
    }

    /// A ring whose double does not fit the address space is refused before
    /// anything is asked of the system.
    open spec fn first(len: usize) -> Step<State> {
        if 2 * len <= usize::MAX {
            Step::Call(State::Memfd { len, window: (2 * len) as usize })
        } else {
            Step::Refused
        }
    }

    /// A call that failed changes nothing, and so does one that names what
    /// is not held. A window counts as mapped only where it lies inside the
    /// address space.
    open spec fn effect(held: Held, action: Action, reply: Reply) -> Held {
        match (action, reply) {
            (Action::CreateMemfd, Reply::Descriptor(fd)) => Held { descriptor: Some(fd), ..held },
            (Action::CreateTempFile, Reply::Descriptor(fd)) => Held {
                descriptor: Some(fd),
                linked: true,
                ..held
            },
            (Action::UnlinkTempFile, Reply::Done) => Held { linked: false, ..held },
            (Action::MapWindow { fd, len }, Reply::Address(base)) => if base + len <= usize::MAX {
                Held { window: Some((base, len)), ..held }
            } else {
                held
            },
            (Action::MapUpperHalf { fd, addr, len }, Reply::Address(at)) => Held {
                mirrored: true,
                ..held
            },
            (Action::Unmap { addr, len }, Reply::Done) => if held.window == Some((addr, len)) {
                Held { window: None, mirrored: false, ..held }
            } else {
                held
            },
            (Action::Close { fd }, Reply::Done) => if held.descriptor == Some(fd) {
                Held { descriptor: None, ..held }
            } else {
                held
            },
            _ => held,
        }
    }

    open spec fn nothing() -> Held {
        Held { descriptor: None, linked: false, window: None, mirrored: false }
    }

    /// A window of `2 * len` bytes at `base` whose halves show the same
    /// bytes; no descriptor and no name.
    open spec fn double_mapping(base: usize, len: usize) -> Held {
        Held {
            descriptor: None,
            linked: false,
            window: Some((base, (2 * len) as usize)),
            mirrored: true,
        }
    }

    fn action(&self) -> (action: Action) {
        match *self {
            State::Memfd { .. } => Action::CreateMemfd,
            State::TempFile { .. } => Action::CreateTempFile,
            State::Unlink { .. } => Action::UnlinkTempFile,
            State::Truncate { fd, len, .. } => Action::Truncate { fd, len },
            State::Reserve { fd, window, .. } => Action::MapWindow { fd, len: window },
            State::Mirror { fd, upper, len, .. } => Action::MapUpperHalf { fd, addr: upper, len },
            State::UnmapRefused { base, window, .. } => Action::Unmap { addr: base, len: window },
            State::CloseRefused { fd } => Action::Close { fd },
            State::CloseMapped { fd, .. } => Action::Close { fd },
            State::Free { base, window, .. } => Action::Unmap { addr: base, len: window },
        }
    }

    fn resume(self, reply: Reply) -> (step: Step<State>) {
        match self {
            State::Memfd { len, window } => match reply {
                Reply::Descriptor(fd) => Step::Call(State::Truncate { fd, len, window }),
                Reply::Unsupported => Step::Call(State::TempFile { len, window }),
                _ => Step::Refused,
            },
            State::TempFile { len, window } => match reply {
                Reply::Descriptor(fd) => Step::Call(State::Unlink { fd, len, window }),
                _ => Step::Refused,
            },
            State::Unlink { fd, len, window } => match reply {
                Reply::Done => Step::Call(State::Truncate { fd, len, window }),
                _ => Step::Abort,
            },
            State::Truncate { fd, len, window } => match reply {
                Reply::Done => Step::Call(State::Reserve { fd, len, window }),
                _ => Step::Call(State::CloseRefused { fd }),
            },
            State::Reserve { fd, len, window } => match reply {
                Reply::Address(base) => {
                    if len <= window && base <= usize::MAX - window {
                        Step::Call(State::Mirror { fd, base, upper: base + len, len, window })
                    } else {
                        Step::Call(State::CloseRefused { fd })
                    }
                },
                _ => Step::Call(State::CloseRefused { fd }),
            },
            State::Mirror { fd, base, len, window, .. } => match reply {
                Reply::Address(_) => Step::Call(State::CloseMapped { fd, base, len, window }),
                _ => Step::Call(State::UnmapRefused { fd, base, window }),
            },
            State::UnmapRefused { fd, .. } => match reply {
                Reply::Done => Step::Call(State::CloseRefused { fd }),
                _ => Step::Abort,
            },
            State::CloseRefused { .. } => match reply {
                Reply::Done => Step::Refused,
                _ => Step::Abort,
            },
            State::CloseMapped { base, .. } => match reply {
                Reply::Done => Step::Mapped(base),
                _ => Step::Abort,
            },
            State::Free { .. } => match reply {
                Reply::Done => Step::Released,
                _ => Step::Abort,
            },
        }
    }

    proof fn lemma_first_accounts(len: usize) {
    }

    proof fn lemma_step_accounts(self, reply: Reply) {
    }
}

/// Begins the allocation of a double mapping of `len` bytes.
pub fn magic_buf_alloc(len: usize) -> (step: Step<State>)
    ensures
        step == State::first(len),
        step matches Step::Call(state) ==> state.wf(),
{
    match len.checked_mul(2) {
        Some(window) => Step::Call(State::Memfd { len, window }),
        None => Step::Refused,
    }
}

/// Begins the release of the double mapping of `buffer`: its whole window is
/// unmapped in one call.
pub fn magic_buf_free(buffer: &MagicBuffer) -> (state: State)
    ensures
        state == (State::Free {
            base: buffer.base(),
            len: buffer.len(),
            window: (2 * buffer.len()) as usize,
        }),
        state.wf(),
        state.held() == State::double_mapping(buffer.base(), buffer.len()),
{
    let base = buffer.as_ptr(0);
    State::Free { base, len: buffer.len(), window: 2 * buffer.len() }
}

/// The upper half is only ever mapped into a window that is held, at the
/// address where its lower half ends, from the descriptor that the window was
/// mapped from; and only what is held is sized, unlinked or given back.
pub proof fn lemma_calls_stay_inside(state: State)
    requires
        state.wf(),
    ensures
        match state.pending() {
            Action::CreateMemfd => state.held() == State::nothing(),
            Action::CreateTempFile => state.held() == State::nothing(),
            Action::UnlinkTempFile => state.held().linked,
            Action::Truncate { fd, len } => state.held().descriptor == Some(fd),
            Action::MapWindow { fd, len } => {
                &&& state.held().descriptor == Some(fd)
                &&& state.held().window is None
            },
            Action::MapUpperHalf { fd, addr, len } => {
                &&& state.held().descriptor == Some(fd)
                &&& state.held().window == Some(((addr - len) as usize, (2 * len) as usize))
            },
            Action::Unmap { addr, len } => state.held().window == Some((addr, len)),
            Action::Close { fd } => state.held().descriptor == Some(fd),
        },
{
}

/// Where the system grants every call, the window is mapped in five calls:
/// the memory file is created and sized, the whole window is mapped from it,
/// its upper half is mapped again, and the descriptor is closed.
pub proof fn lemma_granted_calls(len: usize, fd: i32, base: usize, at: usize)
    requires
        base + 2 * len <= usize::MAX,
    ensures
        ({
            let replies = seq![
                Reply::Descriptor(fd),
                Reply::Done,
                Reply::Address(base),
                Reply::Address(at),
                Reply::Done,
            ];
            &&& run(State::first(len), replies) == Step::<State>::Mapped(base)
            &&& calls(State::first(len), replies) == seq![
                Action::CreateMemfd,
                Action::Truncate { fd, len },
                Action::MapWindow { fd, len: (2 * len) as usize },
                Action::MapUpperHalf { fd, addr: (base + len) as usize, len },
                Action::Close { fd },
            ]
        }),
{
    let window = (2 * len) as usize;
    let upper = (base + len) as usize;
    let r4 = seq![Reply::Done];
    let r3 = seq![Reply::Address(at)] + r4;
    let r2 = seq![Reply::Address(base)] + r3;
    let r1 = seq![Reply::Done] + r2;
    let r0 = seq![Reply::Descriptor(fd)] + r1;
    lemma_run_unfolds(State::Memfd { len, window }, Reply::Descriptor(fd), r1);
    lemma_run_unfolds(State::Truncate { fd, len, window }, Reply::Done, r2);
    lemma_run_unfolds(State::Reserve { fd, len, window }, Reply::Address(base), r3);
    lemma_run_unfolds(State::Mirror { fd, base, upper, len, window }, Reply::Address(at), r4);
    lemma_run_unfolds(State::CloseMapped { fd, base, len, window }, Reply::Done, Seq::empty());
    assert(r4 =~= seq![Reply::Done] + Seq::empty());
    assert(r0 =~= seq![
        Reply::Descriptor(fd),
        Reply::Done,
        Reply::Address(base),
        Reply::Address(at),
        Reply::Done,
    ]);
    assert(calls(State::first(len), r0) =~= seq![
        Action::CreateMemfd,
        Action::Truncate { fd, len },
        Action::MapWindow { fd, len: window },
        Action::MapUpperHalf { fd, addr: upper, len },
        Action::Close { fd },
    ]);
}

/// Where the upper half cannot be mapped, what was acquired is given back,
/// last acquired first: the window is unmapped, then the descriptor is
/// closed.
pub proof fn lemma_refused_calls(len: usize, fd: i32, base: usize, refusal: Reply)
    requires
        base + 2 * len <= usize::MAX,
        !(refusal is Address),
    ensures
        ({
            let state = State::Mirror {
                fd,
                base,
                upper: (base + len) as usize,
                len,
                window: (2 * len) as usize,
            };
            let replies = seq![refusal, Reply::Done, Reply::Done];
            &&& run(Step::Call(state), replies) == Step::<State>::Refused
            &&& calls(Step::Call(state), replies) == seq![
                Action::MapUpperHalf { fd, addr: (base + len) as usize, len },
                Action::Unmap { addr: base, len: (2 * len) as usize },
                Action::Close { fd },
            ]
        }),
{
    let window = (2 * len) as usize;
    let upper = (base + len) as usize;
    let r2 = seq![Reply::Done];
    let r1 = seq![Reply::Done] + r2;
    let r0 = seq![refusal] + r1;
    let mirror = State::Mirror { fd, base, upper, len, window };
    lemma_run_unfolds(mirror, refusal, r1);
    lemma_run_unfolds(State::UnmapRefused { fd, base, window }, Reply::Done, r2);
    lemma_run_unfolds(State::CloseRefused { fd }, Reply::Done, Seq::empty());
    assert(r2 =~= seq![Reply::Done] + Seq::empty());
    assert(r0 =~= seq![refusal, Reply::Done, Reply::Done]);
    assert(calls(Step::Call(mirror), r0) =~= seq![
        Action::MapUpperHalf { fd, addr: upper, len },
        Action::Unmap { addr: base, len: window },
        Action::Close { fd },
    ]);
}

} // verus!
