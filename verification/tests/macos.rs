use magic_buffer::macos::{voodoo_buf_alloc, voodoo_buf_free, Action, Reply, State};
use magic_buffer::protocol::{Protocol, Step};
use magic_buffer::{MagicBuffer, MagicBufferError};

const LEN: usize = 1 << 14;
const BASE: usize = 0x5000_0000;

/// What a task holds, kept by hand as the calls are answered.
#[derive(Clone, Debug, Default, PartialEq)]
struct Task {
    regions: Vec<(usize, usize)>,
    entries: Vec<u32>,
    mirrored: Vec<usize>,
}

impl Task {
    fn answer(&mut self, action: Action, reply: Reply) {
        match (action, reply) {
            (Action::Allocate { size }, Reply::Address(base)) => {
                if base.checked_add(size).is_some() {
                    self.regions.push((base, size));
                }
            },
            (Action::AllocateLower { addr, size }, Reply::Address(_)) => {
                assert!(self.regions.contains(&(addr, 2 * size)));
            },
            (Action::MakeEntry { addr, size }, Reply::Entry(entry)) => {
                assert!(self.regions.contains(&(addr, 2 * size)));
                self.entries.push(entry);
            },
            (Action::RemapUpper { target, size, source }, Reply::Address(_)) => {
                assert_eq!(target, source + size);
                assert!(self.regions.contains(&(source, 2 * size)));
                self.mirrored.push(source);
            },
            (Action::ReleaseEntry { entry }, Reply::Done) => {
                let at = self.entries.iter().position(|e| *e == entry);
                self.entries.remove(at.expect("only a held entry is released"));
            },
            (Action::Deallocate { addr, size }, Reply::Done) => {
                let at = self.regions.iter().position(|r| *r == (addr, size));
                self.regions.remove(at.expect("only an allocated region is deallocated"));
                self.mirrored.retain(|base| *base != addr);
            },
            _ => {},
        }
    }
}

fn drive(
    mut step: Step<State>,
    mut kernel: impl FnMut(Action) -> Reply,
) -> (Step<State>, Vec<Action>, Task) {
    let mut calls = Vec::new();
    let mut task = Task::default();
    loop {
        match step {
            Step::Call(state) => {
                let action = state.action();
                let reply = kernel(action);
                task.answer(action, reply);
                calls.push(action);
                step = state.resume(reply);
            },
            over => return (over, calls, task),
        }
    }
}

fn grant(action: Action) -> Reply {
    match action {
        Action::Allocate { .. } => Reply::Address(BASE),
        Action::AllocateLower { addr, .. } => Reply::Address(addr),
        Action::MakeEntry { .. } => Reply::Entry(0x1903),
        Action::RemapUpper { target, .. } => Reply::Address(target),
        Action::ReleaseEntry { .. } | Action::Deallocate { .. } => Reply::Done,
    }
}

fn grant_but(n: usize, reply: Reply) -> impl FnMut(Action) -> Reply {
    let mut seen = 0;
    move |action| {
        seen += 1;
        if seen == n + 1 {
            reply
        } else {
            grant(action)
        }
    }
}

#[test]
fn macos_maps_in_five_calls() {
    let (end, calls, task) = drive(voodoo_buf_alloc(LEN), grant);
    assert_eq!(end, Step::Mapped(BASE));
    assert_eq!(
        calls,
        vec![
            Action::Allocate { size: 2 * LEN },
            Action::AllocateLower { addr: BASE, size: LEN },
            Action::MakeEntry { addr: BASE, size: LEN },
            Action::RemapUpper { target: BASE + LEN, size: LEN, source: BASE },
            Action::ReleaseEntry { entry: 0x1903 },
        ]
    );
    assert_eq!(task, Task { regions: vec![(BASE, 2 * LEN)], entries: vec![], mirrored: vec![BASE] });
    assert!(matches!(end.result(), Some(Ok(BASE))));
}

#[test]
fn macos_refuses_without_a_region() {
    let (end, calls, task) = drive(voodoo_buf_alloc(LEN), grant_but(0, Reply::Failed));
    assert_eq!(end, Step::Refused);
    assert_eq!(calls, vec![Action::Allocate { size: 2 * LEN }]);
    assert_eq!(task, Task::default());
    assert!(matches!(end.result(), Some(Err(MagicBufferError::OOM))));
}

#[test]
fn macos_deallocates_when_the_lower_half_is_refused() {
    let (end, calls, task) = drive(voodoo_buf_alloc(LEN), grant_but(1, Reply::Failed));
    assert_eq!(end, Step::Refused);
    assert_eq!(
        calls,
        vec![
            Action::Allocate { size: 2 * LEN },
            Action::AllocateLower { addr: BASE, size: LEN },
            Action::Deallocate { addr: BASE, size: 2 * LEN },
        ]
    );
    assert_eq!(task, Task::default());
}

#[test]
fn macos_deallocates_when_the_entry_is_refused() {
    let (end, calls, task) = drive(voodoo_buf_alloc(LEN), grant_but(2, Reply::Failed));
    assert_eq!(end, Step::Refused);
    assert_eq!(
        calls,
        vec![
            Action::Allocate { size: 2 * LEN },
            Action::AllocateLower { addr: BASE, size: LEN },
            Action::MakeEntry { addr: BASE, size: LEN },
            Action::Deallocate { addr: BASE, size: 2 * LEN },
        ]
    );
    assert_eq!(task, Task::default());
}

#[test]
fn macos_releases_and_deallocates_when_the_remap_is_refused() {
    let (end, calls, task) = drive(voodoo_buf_alloc(LEN), grant_but(3, Reply::Failed));
    assert_eq!(end, Step::Refused);
    assert_eq!(
        calls,
        vec![
            Action::Allocate { size: 2 * LEN },
            Action::AllocateLower { addr: BASE, size: LEN },
            Action::MakeEntry { addr: BASE, size: LEN },
            Action::RemapUpper { target: BASE + LEN, size: LEN, source: BASE },
            Action::ReleaseEntry { entry: 0x1903 },
            Action::Deallocate { addr: BASE, size: 2 * LEN },
        ]
    );
    assert_eq!(task, Task::default());
}

#[test]
fn macos_aborts_when_a_release_fails() {
    let (end, _, _) = drive(voodoo_buf_alloc(LEN), grant_but(4, Reply::Failed));
    assert_eq!(end, Step::Abort);
    let release = State::ReleaseRefused { entry: 9, base: BASE, window: 2 * LEN };
    assert_eq!(release.resume(Reply::Failed), Step::Abort);
    let deallocate = State::DeallocateRefused { base: BASE, window: 2 * LEN };
    assert_eq!(release.resume(Reply::Done), Step::Call(deallocate));
    assert_eq!(deallocate.resume(Reply::Failed), Step::Abort);
    assert_eq!(deallocate.resume(Reply::Done), Step::Refused);
    assert!(Step::<State>::Abort.result().is_none());
}

#[test]
fn macos_refuses_what_does_not_fit() {
    assert_eq!(voodoo_buf_alloc(usize::MAX / 2 + 1), Step::Refused);
    let allocate = State::Allocate { len: LEN, window: 2 * LEN };
    assert_eq!(voodoo_buf_alloc(LEN), Step::Call(allocate));
    assert_eq!(allocate.resume(Reply::Address(usize::MAX - LEN)), Step::Refused);
    assert_eq!(
        allocate.resume(Reply::Address(usize::MAX - 2 * LEN)),
        Step::Call(State::Lower {
            base: usize::MAX - 2 * LEN,
            upper: usize::MAX - LEN,
            len: LEN,
            window: 2 * LEN,
        })
    );
}

#[test]
fn macos_free_deallocates_the_whole_region() {
    let buf = MagicBuffer::new(LEN, 4096, Ok(BASE)).expect("should build");
    let state = voodoo_buf_free(&buf);
    assert_eq!(state, State::Free { base: BASE, len: LEN, window: 2 * LEN });
    assert_eq!(state.action(), Action::Deallocate { addr: BASE, size: 2 * LEN });
    assert_eq!(state.resume(Reply::Done), Step::Released);
    assert_eq!(state.resume(Reply::Failed), Step::Abort);
}

fn answers(
    depth: usize,
    step: Step<State>,
    task: Task,
    calls: usize,
    check: &mut dyn FnMut(Step<State>, &Task, usize),
) {
    let state = match step {
        Step::Call(state) => state,
        over => return check(over, &task, calls),
    };
    assert!(depth > 0, "an allocation takes at most six calls");
    for reply in [
        Reply::Failed,
        Reply::Done,
        Reply::Entry(5),
        Reply::Address(BASE),
        Reply::Address(usize::MAX - LEN),
    ] {
        let mut after = task.clone();
        after.answer(state.action(), reply);
        answers(depth - 1, state.resume(reply), after, calls + 1, check);
    }
}

#[test]
fn macos_no_run_leaks() {
    let mut longest = 0;
    let mut ends = [0usize; 3];
    answers(6, voodoo_buf_alloc(LEN), Task::default(), 0, &mut |end, task, calls| {
        if calls > longest {
            longest = calls;
        }
        match end {
            Step::Refused => {
                ends[0] += 1;
                assert_eq!(*task, Task::default());
            },
            Step::Mapped(base) => {
                ends[1] += 1;
                assert_eq!(
                    *task,
                    Task { regions: vec![(base, 2 * LEN)], entries: vec![], mirrored: vec![base] }
                );
            },
            Step::Abort => ends[2] += 1,
            other => panic!("an allocation cannot end in {:?}", other),
        }
    });
    assert!(ends.iter().all(|n| *n > 0));
    assert_eq!(longest, 6);
}

#[test]
fn macos_answers_are_read_as_the_calls_return_them() {
    assert_eq!(Reply::from_status(0, 0), Reply::Done);
    assert_eq!(Reply::from_status(3, 0), Reply::Failed);
    assert_eq!(Reply::from_address(0, 0, BASE), Reply::Address(BASE));
    assert_eq!(Reply::from_address(3, 0, BASE), Reply::Failed);
    assert_eq!(Reply::from_entry(0, 0, 0x1903), Reply::Entry(0x1903));
    assert_eq!(Reply::from_entry(5, 0, 0x1903), Reply::Failed);
}
