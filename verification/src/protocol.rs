//! What the three ways of building a double mapping have in common.
//!
//! A double mapping is built and torn down by a handful of system calls, each
//! of which may fail. A [`Protocol`] decides which call comes next, given how
//! the calls so far were answered; the caller makes the call and comes back
//! with the answer. The protocol never calls the system itself.
//!
//! Beside the order of the calls, a protocol keeps an account of what the
//! process holds of the system, and states what each call is taken to do to
//! it. The laws of this file hold of every protocol that keeps its account
//! step by step: a refused allocation leaves nothing behind, a successful one
//! leaves the double mapping and nothing else, and every run comes to an end.

use vstd::prelude::*;
use crate::error::MagicBufferError;

verus! {

/// What comes next in a run of a protocol whose states are `S`.
#[derive(Debug, PartialEq, Eq, Structural)]
pub enum Step<S> {
    /// Make the call `state.action()` and go on with `state.resume(reply)`.
    Call(S),
    /// The allocation is over: both halves are mapped, from this address on.
    Mapped(usize),
    /// The allocation is over: the system refused, and [`MagicBufferError::OOM`]
    /// is what the caller gets.
    Refused,
    /// The release is over.
    Released,
    /// A resource could not be given back. The address space is in an unknown
    /// state and the process must not go on.
    Abort,
}

impl<S> Step<S> {
    /// How the allocation ended, if it has: with the address of the double
    /// mapping, or out of memory.
    pub fn result(&self) -> (r: Option<Result<usize, MagicBufferError>>)
        ensures
            r == match *self {
                Step::Mapped(base) => Some(Ok::<usize, MagicBufferError>(base)),
                Step::Refused => Some(Err::<usize, MagicBufferError>(MagicBufferError::OOM)),
                _ => None,
            },
    {
        match self {
            Step::Mapped(base) => Some(Ok(*base)),
            Step::Refused => Some(Err(MagicBufferError::OOM)),
            _ => None,
        }
    }
}

/// The states of one way of building and releasing a double mapping. A state
/// says which call is under way and remembers what the calls before it have
/// acquired.
pub trait Protocol: Sized {
    /// A call to the system, with its arguments.
    type Action;

    /// How the system answered a call.
    type Reply;

    /// What the process holds of the system on behalf of one buffer.
    type Held;

    /// The lengths and addresses of the state fit together.
    spec fn wf(self) -> bool;

    /// The length of the ring that the state works on, as long as the
    /// allocation is not refused.
    spec fn ring(self) -> usize;

    /// The call that is under way.
    spec fn pending(self) -> Self::Action;

    /// What the process holds while the call is under way.
    spec fn held(self) -> Self::Held;

    /// How many calls can still follow the one under way.
    spec fn calls_left(self) -> nat;

    /// Whether the allocation has been refused and the state gives back what
    /// was acquired.
    spec fn refused(self) -> bool;

    /// Whether the state belongs to the release of a finished double mapping.
    spec fn releasing(self) -> bool;

    /// The step after this state, once its call was answered with `reply`.
    spec fn next(self, reply: Self::Reply) -> Step<Self>;

    /// The first step of an allocation of `len` bytes.
    spec fn first(len: usize) -> Step<Self>;

    /// What a call that was answered with `reply` does to what the process
    /// holds.
    spec fn effect(held: Self::Held, action: Self::Action, reply: Self::Reply) -> Self::Held;

    /// Holding nothing.
    spec fn nothing() -> Self::Held;

    /// Holding the finished double mapping of `len` bytes at `base`, and
    /// nothing else.
    spec fn double_mapping(base: usize, len: usize) -> Self::Held;

    /// The call to make in this state.
    fn action(&self) -> (action: Self::Action)
        ensures
            action == self.pending(),
    ;

    /// Goes on after the call of this state was answered with `reply`.
    fn resume(self, reply: Self::Reply) -> (step: Step<Self>)
        ensures
            step == self.next(reply),
            self.wf() ==> (step matches Step::Call(after) ==> after.wf()),
    ;

    /// An allocation begins with nothing held, and with a state that fits
    /// together unless the ring is empty.
    proof fn lemma_first_accounts(len: usize)
        ensures
            match Self::first(len) {
                Step::Call(state) => {
                    &&& len > 0 ==> state.wf()
                    &&& state.ring() == len
                    &&& state.held() == Self::nothing()
                    &&& !state.refused()
                    &&& !state.releasing()
                },
                Step::Refused => 2 * len > usize::MAX,
                _ => false,
            },
    ;

    /// One step keeps the account: what the next state says is held is what
    /// the call has left; a refusal leaves nothing; success leaves the
    /// double mapping and nothing else; a release leaves nothing.
    proof fn lemma_step_accounts(self, reply: Self::Reply)
        requires
            self.wf(),
        ensures
            match self.next(reply) {
                Step::Call(after) => {
                    &&& after.wf()
                    &&& after.held() == Self::effect(self.held(), self.pending(), reply)
                    &&& after.calls_left() < self.calls_left()
                    &&& after.releasing() == self.releasing()
                    &&& self.refused() ==> after.refused()
                    &&& !after.refused() ==> after.ring() == self.ring()
                },
                Step::Mapped(base) => {
                    &&& Self::effect(self.held(), self.pending(), reply) == Self::double_mapping(
                        base,
                        self.ring(),
                    )
                    &&& base + 2 * self.ring() <= usize::MAX
                    &&& !self.refused()
                    &&& !self.releasing()
                },
                Step::Refused => {
                    &&& Self::effect(self.held(), self.pending(), reply) == Self::nothing()
                    &&& !self.releasing()
                },
                Step::Released => {
                    &&& Self::effect(self.held(), self.pending(), reply) == Self::nothing()
                    &&& self.releasing()
                },
                Step::Abort => true,
            },
    ;
}

/// Where `step` has got to after the answers `replies`, taken in order.
/// Answers that come after the end are ignored.
pub open spec fn run<P: Protocol>(step: Step<P>, replies: Seq<P::Reply>) -> Step<P>
    decreases replies.len(),
{
    if replies.len() == 0 {
        step
    } else {
        match step {
            Step::Call(state) => run(state.next(replies[0]), replies.drop_first()),
            _ => step,
        }
    }
}

/// The calls that a run makes, in order: one for each answer, up to its end.
pub open spec fn calls<P: Protocol>(step: Step<P>, replies: Seq<P::Reply>) -> Seq<P::Action>
    decreases replies.len(),
{
    if replies.len() == 0 {
        Seq::empty()
    } else {
        match step {
            Step::Call(state) => seq![state.pending()] + calls(
                state.next(replies[0]),
                replies.drop_first(),
            ),
            _ => Seq::empty(),
        }
    }
}

/// What the process holds after the calls of a run, if it held `held` before.
pub open spec fn holdings<P: Protocol>(
    step: Step<P>,
    held: P::Held,
    replies: Seq<P::Reply>,
) -> P::Held
    decreases replies.len(),
{
    if replies.len() == 0 {
        held
    } else {
        match step {
            Step::Call(state) => holdings(
                state.next(replies[0]),
                P::effect(held, state.pending(), replies[0]),
                replies.drop_first(),
            ),
            _ => held,
        }
    }
}

/// A run that is over stays where it is, whatever is answered.
pub proof fn lemma_run_settled<P: Protocol>(step: Step<P>, held: P::Held, replies: Seq<P::Reply>)
    requires
        !(step is Call),
    ensures
        run(step, replies) == step,
        holdings(step, held, replies) == held,
        calls(step, replies) == Seq::<P::Action>::empty(),
{
}

/// A run whose first answer is `reply` makes the call of its state and goes
/// on from the next step with the other answers.
pub proof fn lemma_run_unfolds<P: Protocol>(state: P, reply: P::Reply, rest: Seq<P::Reply>)
    ensures
        run(Step::Call(state), seq![reply] + rest) == run(state.next(reply), rest),
        calls(Step::Call(state), seq![reply] + rest) == seq![state.pending()] + calls(
            state.next(reply),
            rest,
        ),
        holdings(Step::Call(state), state.held(), seq![reply] + rest) == holdings(
            state.next(reply),
            P::effect(state.held(), state.pending(), reply),
            rest,
        ),
{
    let replies = seq![reply] + rest;
    assert(replies[0] == reply);
    assert(replies.drop_first() =~= rest);
}

/// Whatever the system answers, a run that ends in a refusal or a release
/// holds nothing, a run that ends in success holds the double mapping at the
/// address it returns and nothing else, and a run that is still under way
/// holds what its state says. Once an allocation is refused it cannot
/// succeed any more.
pub proof fn lemma_run_accounts<P: Protocol>(state: P, replies: Seq<P::Reply>)
    requires
        state.wf(),
    ensures
        match run(Step::Call(state), replies) {
            Step::Call(after) => {
                &&& after.wf()
                &&& holdings(Step::Call(state), state.held(), replies) == after.held()
                &&& after.releasing() == state.releasing()
                &&& state.refused() ==> after.refused()
                &&& !after.refused() ==> after.ring() == state.ring()
            },
            Step::Mapped(base) => {
                &&& holdings(Step::Call(state), state.held(), replies) == P::double_mapping(
                    base,
                    state.ring(),
                )
                &&& base + 2 * state.ring() <= usize::MAX
                &&& !state.refused()
                &&& !state.releasing()
            },
            Step::Refused => {
                &&& holdings(Step::Call(state), state.held(), replies) == P::nothing()
                &&& !state.releasing()
            },
            Step::Released => {
                &&& holdings(Step::Call(state), state.held(), replies) == P::nothing()
                &&& state.releasing()
            },
            Step::Abort => true,
        },
    decreases replies.len(),
{
    if replies.len() > 0 {
        let reply = replies[0];
        let rest = replies.drop_first();
        state.lemma_step_accounts(reply);
        match state.next(reply) {
            Step::Call(after) => {
                lemma_run_accounts(after, rest);
            },
            other => {
                lemma_run_settled(other, P::effect(state.held(), state.pending(), reply), rest);
            },
        }
    }
}

/// An allocation that the system refuses leaves nothing behind, whichever
/// call it refuses; one that succeeds leaves the double mapping of `len`
/// bytes at the address it returns, inside the address space, and nothing
/// else.
pub proof fn lemma_alloc_accounts<P: Protocol>(len: usize, replies: Seq<P::Reply>)
    requires
        len > 0,
    ensures
        match run(P::first(len), replies) {
            Step::Call(after) => holdings(P::first(len), P::nothing(), replies) == after.held(),
            Step::Mapped(base) => {
                &&& holdings(P::first(len), P::nothing(), replies) == P::double_mapping(base, len)
                &&& base + 2 * len <= usize::MAX
            },
            Step::Refused => holdings(P::first(len), P::nothing(), replies) == P::nothing(),
            Step::Released => false,
            Step::Abort => true,
        },
{
    P::lemma_first_accounts(len);
    match P::first(len) {
        Step::Call(state) => {
            lemma_run_accounts(state, replies);
        },
        other => {
            lemma_run_settled(other, P::nothing(), replies);
        },
    }
}

/// Every run comes to an end: after more answers than its state has calls
/// left, no call is under way.
pub proof fn lemma_run_ends<P: Protocol>(state: P, replies: Seq<P::Reply>)
    requires
        state.wf(),
        replies.len() > state.calls_left(),
    ensures
        !(run(Step::Call(state), replies) is Call),
    decreases replies.len(),
{
    let reply = replies[0];
    let rest = replies.drop_first();
    state.lemma_step_accounts(reply);
    match state.next(reply) {
        Step::Call(after) => {
            lemma_run_ends(after, rest);
        },
        other => {
            lemma_run_settled(other, P::nothing(), rest);
        },
    }
}

} // verus!
