//! The wake flag and the single-task executor.
//!
//! The flag is one volatile word. A wake notification sets it, and only the
//! executor clears it. The executor itself is a transition function: the
//! caller polls the computation, waits for events and feeds what happened
//! back in, and the function answers what to do next.

use vcell::VolatileCell;
use vstd::prelude::*;

verus! {

/// `vcell::VolatileCell`, a cell whose reads and writes are volatile. Its
/// inside is not visible here; `cell_word` names what it holds.
#[verifier::external_type_specification]
#[verifier::external_body]
#[verifier::reject_recursive_types(T)]
pub struct ExVolatileCell<T>(VolatileCell<T>);

/// The word that a volatile cell holds.
pub uninterp spec fn cell_word(cell: VolatileCell<u32>) -> u32;

/// Calls `VolatileCell::new`. Trusted: the new cell holds the word that it
/// was made with.
#[verifier::external_body]
fn cell_new(word: u32) -> (cell: VolatileCell<u32>)
    ensures
        cell_word(cell) == word,
{
    VolatileCell::new(word)
}

/// Calls `VolatileCell::get`. Trusted: the volatile read hands back a copy
/// of the word in the cell. Every write in this crate goes through
/// `cell_set`, which needs the cell exclusively, so nothing changes the word
/// behind a shared reference.
#[verifier::external_body]
fn cell_get(cell: &VolatileCell<u32>) -> (word: u32)
    ensures
        word == cell_word(*cell),
{
    cell.get()
}

/// Calls `VolatileCell::set`. Trusted: after the volatile write the cell
/// holds the given word.
#[verifier::external_body]
fn cell_set(cell: &mut VolatileCell<u32>, word: u32)
    ensures
        cell_word(*final(cell)) == word,
{
    cell.set(word)
}

/// The wake flag: pending once a wake notification has arrived, cleared
/// otherwise.
pub struct SevWaker {
    flag: VolatileCell<u32>,
}

impl SevWaker {
    /// A wake notification has arrived since the flag was last cleared.
    pub closed spec fn is_pending(&self) -> bool {
        cell_word(self.flag) != 0
    }

    /// A flag that starts cleared.
    pub fn new() -> (waker: Self)
        ensures
            !waker.is_pending(),
    {
        SevWaker { flag: cell_new(0) }
    }

    /// Reads the flag.
    pub fn pending(&self) -> (pending: bool)
        ensures
            pending == self.is_pending(),
    {
        cell_get(&self.flag) != 0
    }

    /// Clears the flag. Only the executor does this, before each poll.
    pub fn clear(&mut self)
        ensures
            !final(self).is_pending(),
    {
        cell_set(&mut self.flag, 0)
    }

    /// Records a wake notification.
    pub fn wake_by_ref(&mut self)
        ensures
            final(self).is_pending(),
    {
        cell_set(&mut self.flag, 1)
    }
}

/// What the executor is told.
#[derive(Clone, Copy, Debug)]
pub enum Event<R> {
    /// A wake notification arrived.
    Wake,
    /// The outstanding poll completed with a result.
    Ready(R),
    /// The outstanding poll reported that the computation is not ready.
    Pending,
    /// The wait primitive returned, with or without a wake.
    Resumed,
}

/// Where the executor stands.
#[derive(Clone, Copy, Debug)]
pub enum Stage<R> {
    /// The flag was cleared and a poll is outstanding.
    Poll,
    /// The computation was not ready and no wake has been observed yet.
    Wait,
    /// The computation completed.
    Done(R),
}

/// What the caller does next.
#[derive(Clone, Copy, Debug, PartialEq, Eq, Structural)]
pub enum Action {
    /// Clear the flag that the wake producers set, then poll the
    /// computation once.
    Poll,
    /// Run the low-power wait primitive once.
    Wait,
    /// Hand the result to the caller of the executor.
    Return,
}

/// The executor as a value: its stage and its flag.
pub struct ExecState<R> {
    pub stage: Stage<R>,
    pub pending: bool,
}

/// The state in which every run starts: flag cleared, first poll outstanding.
pub open spec fn initial_state<R>() -> ExecState<R> {
    ExecState { stage: Stage::Poll, pending: false }
}

/// The action that a stage asks for.
pub open spec fn action_of<R>(stage: Stage<R>) -> Action {
    match stage {
        Stage::Poll => Action::Poll,
        Stage::Wait => Action::Wait,
        Stage::Done(_) => Action::Return,
    }
}

/// The result, once there is one.
pub open spec fn result_of<R>(stage: Stage<R>) -> Option<R> {
    match stage {
        Stage::Done(r) => Some(r),
        _ => None,
    }
}

/// One transition. Entering `Poll` clears the flag; a wake only sets it. An
/// event that does not belong to the stage changes nothing.
pub open spec fn next<R>(s: ExecState<R>, e: Event<R>) -> ExecState<R> {
    match s.stage {
        Stage::Done(_) => s,
        Stage::Poll => match e {
            Event::Wake => ExecState { stage: Stage::Poll, pending: true },
            Event::Ready(r) => ExecState { stage: Stage::Done(r), pending: s.pending },
            Event::Pending => if s.pending {
                ExecState { stage: Stage::Poll, pending: false }
            } else {
                ExecState { stage: Stage::Wait, pending: false }
            },
            Event::Resumed => s,
        },
        Stage::Wait => match e {
            Event::Wake => ExecState { stage: Stage::Wait, pending: true },
            Event::Resumed => if s.pending {
                ExecState { stage: Stage::Poll, pending: false }
            } else {
                s
            },
            _ => s,
        },
    }
}

/// The state after a whole script of events.
pub open spec fn run<R>(s: ExecState<R>, events: Seq<Event<R>>) -> ExecState<R>
    decreases events.len(),
{
    if events.len() == 0 {
        s
    } else {
        next(run(s, events.drop_last()), events.last())
    }
}

/// The event is an answer of the computation that the stage takes.
pub open spec fn takes_answer<R>(s: ExecState<R>, e: Event<R>) -> bool {
    s.stage is Poll && (e is Ready || e is Pending)
}

/// How many polls a script of events completes.
pub open spec fn polls<R>(s: ExecState<R>, events: Seq<Event<R>>) -> nat
    decreases events.len(),
{
    if events.len() == 0 {
        0
    } else {
        let before = polls(s, events.drop_last());
        if takes_answer(run(s, events.drop_last()), events.last()) {
            before + 1
        } else {
            before
        }
    }
}

/// The executor: the flag and the stage.
pub struct Executor<R> {
    waker: SevWaker,
    stage: Stage<R>,
}

impl<R> Executor<R> {
    pub closed spec fn view(&self) -> ExecState<R> {
        ExecState { stage: self.stage, pending: self.waker.is_pending() }
    }

    /// An executor with its flag cleared and its first poll outstanding.
    pub fn new() -> (executor: Self)
        ensures
            executor@ == initial_state::<R>(),
    {
        Executor { waker: SevWaker::new(), stage: Stage::Poll }
    }

    /// What the caller does next.
    pub fn action(&self) -> (action: Action)
        ensures
            action == action_of(self@.stage),
    {
        match &self.stage {
            Stage::Poll => Action::Poll,
            Stage::Wait => Action::Wait,
            Stage::Done(_) => Action::Return,
        }
    }

    /// Takes one event and answers what to do next.
    pub fn step(&mut self, event: Event<R>) -> (action: Action)
        ensures
            final(self)@ == next(old(self)@, event),
            action == action_of(final(self)@.stage),
    {
        let at = self.action();
        match at {
            Action::Return => {},
            Action::Poll => match event {
                Event::Wake => self.waker.wake_by_ref(),
                Event::Ready(r) => {
                    self.stage = Stage::Done(r);
                },
                Event::Pending => {
                    if !self.waker.pending() {
                        self.stage = Stage::Wait;
                    }
                    self.waker.clear();
                },
                Event::Resumed => {},
            },
            Action::Wait => match event {
                Event::Wake => self.waker.wake_by_ref(),
                Event::Resumed => {
                    if self.waker.pending() {
                        self.waker.clear();
                        self.stage = Stage::Poll;
                    }
                },
                _ => {},
            },
        }
        self.action()
    }

    /// The result, once the computation has completed.
    pub fn result(self) -> (result: Option<R>)
        ensures
            result == result_of(self@.stage),
    {
        match self.stage {
            Stage::Done(r) => Some(r),
            _ => None,
        }
    }
}

/// What a run of the executor over a script gave.
#[derive(Clone, Copy, Debug)]
pub struct Completion<R> {
    /// The computation's result, if the script reached it.
    pub result: Option<R>,
    /// How many polls completed.
    pub polls: usize,
}

/// Drives the executor over a script of events, from the initial state: the
/// result that the computation completed with, if it did, and the number of
/// polls that took place.
pub fn run_future<R: Copy>(events: &Vec<Event<R>>) -> (done: Completion<R>)
    ensures
        done.result == result_of(run(initial_state::<R>(), events@).stage),
        done.polls == polls(initial_state::<R>(), events@),
{
    let mut executor: Executor<R> = Executor::new();
    let mut count: usize = 0;
    let mut i: usize = 0;
    while i < events.len()
        invariant
            i <= events.len(),
            count <= i,
            executor@ == run(initial_state::<R>(), events@.take(i as int)),
            count == polls(initial_state::<R>(), events@.take(i as int)),
        decreases events.len() - i,
    {
        let event = events[i];
        proof {
            assert(events@.take(i + 1).drop_last() =~= events@.take(i as int));
        }
        let polling = matches!(executor.action(), Action::Poll);
        let answer = matches!(event, Event::Ready(_) | Event::Pending);
        if polling && answer {
            count = count + 1;
        }
        executor.step(event);
        i = i + 1;
    }
    proof {
        assert(events@.take(i as int) =~= events@);
    }
    Completion { result: executor.result(), polls: count }
}

/// The event belongs to the stage: an answer while a poll is outstanding, a
/// resume while waiting, a wake at any time.
pub open spec fn accepts<R>(s: ExecState<R>, e: Event<R>) -> bool {
    e is Wake || match s.stage {
        Stage::Poll => e is Ready || e is Pending,
        Stage::Wait => e is Resumed,
        Stage::Done(_) => false,
    }
}

/// Every event of the script belongs to the stage in which it arrives.
pub open spec fn admissible<R>(s: ExecState<R>, events: Seq<Event<R>>) -> bool
    decreases events.len(),
{
    events.len() == 0 || (admissible(s, events.drop_last()) && accepts(
        run(s, events.drop_last()),
        events.last(),
    ))
}

/// The state after `count` wake notifications in a row.
pub open spec fn woken<R>(s: ExecState<R>, count: nat) -> ExecState<R>
    decreases count,
{
    if count == 0 {
        s
    } else {
        next(woken(s, (count - 1) as nat), Event::Wake)
    }
}

/// The state after a script in which `extra[i]` further wake notifications
/// arrive just before the event `events[i]`.
pub open spec fn run_with_wakes<R>(
    s: ExecState<R>,
    events: Seq<Event<R>>,
    extra: Seq<nat>,
) -> ExecState<R>
    recommends
        extra.len() == events.len(),
    decreases events.len(),
{
    if events.len() == 0 {
        s
    } else {
        next(
            woken(run_with_wakes(s, events.drop_last(), extra.drop_last()), extra.last()),
            events.last(),
        )
    }
}

/// `t` is where `s` is or further: it has the same result, or it polls where
/// `s` still waits, or it stands at the same stage and has seen every wake
/// that `s` has seen.
pub open spec fn ahead<R>(s: ExecState<R>, t: ExecState<R>) -> bool {
    match s.stage {
        Stage::Done(_) => t.stage == s.stage,
        Stage::Poll => t.stage is Poll && (s.pending ==> t.pending),
        Stage::Wait => t.stage is Poll || (t.stage is Wait && (s.pending ==> t.pending)),
    }
}

/// Wake notifications never move a state back.
pub proof fn lemma_woken_ahead<R>(s: ExecState<R>, t: ExecState<R>, count: nat)
    requires
        ahead(s, t),
    ensures
        ahead(s, woken(t, count)),
        count > 0 ==> woken(t, count) == next(t, Event::Wake),
    decreases count,
{
    if count > 0 {
        lemma_woken_ahead(s, t, (count - 1) as nat);
    }
}

/// Spurious wake notifications do not change the result. Take a script in
/// which every event belongs to its stage, and add any number of wake
/// notifications before each of its events: if the script completes the
/// computation, so does the script with the extra wakes, with the same result.
pub proof fn lemma_spurious_wakes_keep_result<R>(
    s: ExecState<R>,
    events: Seq<Event<R>>,
    extra: Seq<nat>,
)
    requires
        admissible(s, events),
        extra.len() == events.len(),
    ensures
        ahead(run(s, events), run_with_wakes(s, events, extra)),
        run(s, events).stage is Done ==> run_with_wakes(s, events, extra).stage == run(
            s,
            events,
        ).stage,
    decreases events.len(),
{
    if events.len() > 0 {
        lemma_spurious_wakes_keep_result(s, events.drop_last(), extra.drop_last());
        lemma_woken_ahead(
            run(s, events.drop_last()),
            run_with_wakes(s, events.drop_last(), extra.drop_last()),
            extra.last(),
        );
    }
}

/// A result, once there, stays: no event changes the state after completion.
pub proof fn lemma_done_is_final<R>(s: ExecState<R>, events: Seq<Event<R>>)
    requires
        s.stage is Done,
    ensures
        run(s, events) == s,
    decreases events.len(),
{
    if events.len() > 0 {
        lemma_done_is_final(s, events.drop_last());
    }
}

/// No wake is lost. A wake that arrives after the flag was cleared is seen
/// at the next decision: a poll that reports not-ready is followed by
/// another poll, and a wait that resumes goes back to polling. Until then no
/// event but the one that starts the new poll takes the flag away.
pub proof fn lemma_no_lost_wake<R>(s: ExecState<R>, e: Event<R>)
    requires
        !(s.stage is Done),
    ensures
        next(s, Event::Wake).pending,
        next(s, Event::Wake).stage == s.stage,
        s.stage is Poll ==> next(next(s, Event::Wake), Event::Pending) == initial_state::<R>(),
        s.stage is Wait ==> next(next(s, Event::Wake), Event::Resumed) == initial_state::<R>(),
        s.pending ==> next(s, e).pending || next(s, e).stage is Done || next(s, e)
            == initial_state::<R>(),
{
}

/// How often a script makes the executor take an observed wake: it clears
/// the flag and polls again.
pub open spec fn repolls<R>(s: ExecState<R>, events: Seq<Event<R>>) -> nat
    decreases events.len(),
{
    if events.len() == 0 {
        0
    } else {
        let at = run(s, events.drop_last());
        let before = repolls(s, events.drop_last());
        if at.pending && !(at.stage is Done) && next(at, events.last()) == initial_state::<R>() {
            before + 1
        } else {
            before
        }
    }
}

/// A wake that has arrived is never dropped, whatever follows it: after any
/// script the flag is still pending, or the computation has completed, or
/// the executor has taken the wake and polled again. In particular it never
/// ends up waiting with the wake forgotten.
pub proof fn lemma_wake_is_observed<R>(s: ExecState<R>, events: Seq<Event<R>>)
    requires
        s.pending,
        !(s.stage is Done),
    ensures
        run(s, events).pending || run(s, events).stage is Done || repolls(s, events) > 0,
    decreases events.len(),
{
    if events.len() > 0 {
        lemma_wake_is_observed(s, events.drop_last());
    }
}

} // verus!
