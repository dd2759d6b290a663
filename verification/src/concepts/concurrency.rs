//! A bounded counter as a unit of execution: it announces each integer of a
//! half-open interval once, in order, and then completes. Two such units, one
//! spawned and one run by the initiator, never share state; the only ordering
//! between them is the join at the end.

use vstd::prelude::*;
use crate::render::{decimal, render_decimal};

verus! {

/// Which flow of control a unit belongs to.
#[derive(Clone, Copy, Debug, PartialEq, Eq, Structural)]
pub enum Origin {
    Spawned,
    Main,
}

/// One progress notification: the integer reached and the unit that reached it.
#[derive(Clone, Copy, Debug, PartialEq, Eq, Structural)]
pub struct Notice {
    pub origin: Origin,
    pub number: i32,
}

impl Notice {
    /// The line that announces this notification.
    pub open spec fn text(self) -> Seq<char> {
        "hi number "@ + decimal(self.number as int) + match self.origin {
            Origin::Spawned => " from the spawned thread!"@,
            Origin::Main => " from the main thread!"@,
        }
    }

    /// Renders the line that announces this notification.
    pub fn render(&self) -> (line: String)
        ensures
            line@ == self.text(),
    {
        let mut line = String::from_str("hi number ");
        let number = render_decimal(self.number as i64);
        line.append(number.as_str());
        match self.origin {
            Origin::Spawned => line.append(" from the spawned thread!"),
            Origin::Main => line.append(" from the main thread!"),
        }
        line
    }
}

/// Where a unit stands in its life.
#[derive(Clone, Copy, Debug, PartialEq, Eq, Structural)]
pub enum Phase {
    Running,
    Completed,
    Aborted,
}

/// What the driver of a unit has to do next.
#[derive(Clone, Copy, Debug, PartialEq, Eq, Structural)]
pub enum Action {
    /// Announce the notice, then suspend for the given number of milliseconds.
    Emit { notice: Notice, pause_millis: u64 },
    /// Nothing is left to do: the unit has ended.
    Stop,
}

/// The mathematical state of a unit: its interval, how many notices it has
/// emitted so far, and its phase.
pub struct CounterState {
    pub origin: Origin,
    pub start: i32,
    pub end: i32,
    pub pause_millis: u64,
    pub emitted: nat,
    pub phase: Phase,
}

impl CounterState {
    /// The number of integers in `[start, end)`.
    pub open spec fn total(self) -> nat {
        if self.start < self.end {
            (self.end - self.start) as nat
        } else {
            0
        }
    }

    /// A unit never emits more than its interval holds, and it completes only
    /// when it has emitted all of it.
    pub open spec fn wf(self) -> bool {
        &&& self.emitted <= self.total()
        &&& (self.phase is Completed ==> self.emitted == self.total())
    }

    /// The state in which a unit begins.
    pub open spec fn initial(origin: Origin, start: i32, end: i32, pause_millis: u64) -> Self {
        CounterState { origin, start, end, pause_millis, emitted: 0, phase: Phase::Running }
    }

    /// The `i`-th notice of the unit, counting from zero.
    pub open spec fn notice_at(self, i: int) -> Notice {
        Notice { origin: self.origin, number: (self.start + i) as i32 }
    }

    /// The first `n` notices of the unit, in the order in which it emits them.
    pub open spec fn prefix(self, n: nat) -> Seq<Notice> {
        Seq::new(n, |i: int| self.notice_at(i))
    }

    /// What the unit has emitted so far.
    pub open spec fn transcript(self) -> Seq<Notice> {
        self.prefix(self.emitted)
    }

    /// Whether one more step emits a notice.
    pub open spec fn emits_next(self) -> bool {
        self.phase is Running && self.emitted < self.total()
    }

    /// What the driver does for the `i`-th notice: announce it, then pause.
    pub open spec fn emission_at(self, i: int) -> Action {
        Action::Emit { notice: self.notice_at(i), pause_millis: self.pause_millis }
    }

    /// What one step asks of the driver.
    pub open spec fn action(self) -> Action {
        if self.emits_next() {
            self.emission_at(self.emitted as int)
        } else {
            Action::Stop
        }
    }

    /// The state after one step: a running unit emits its next notice, or
    /// completes when none is left; a unit that has ended stays as it is.
    pub open spec fn step(self) -> Self {
        if self.emits_next() {
            CounterState { emitted: self.emitted + 1, ..self }
        } else if self.phase is Running {
            CounterState { phase: Phase::Completed, ..self }
        } else {
            self
        }
    }

    /// The state after a fault: a running unit aborts, an ended one is unchanged.
    pub open spec fn fail(self) -> Self {
        if self.phase is Running {
            CounterState { phase: Phase::Aborted, ..self }
        } else {
            self
        }
    }

    /// What is still to be done for the notices not yet emitted, in order:
    /// nothing once the unit has ended.
    pub open spec fn rest(self) -> Seq<Action> {
        if self.phase is Running {
            Seq::new(
                (self.total() - self.emitted) as nat,
                |i: int| self.emission_at(self.emitted + i),
            )
        } else {
            Seq::empty()
        }
    }

    /// The state in which a running unit ends when nothing stops it: all
    /// emitted, completed. A unit that has ended stays as it is.
    pub open spec fn finish(self) -> Self {
        if self.phase is Running {
            CounterState { emitted: self.total(), phase: Phase::Completed, ..self }
        } else {
            self
        }
    }

    /// The state after `k` steps.
    pub open spec fn steps(self, k: nat) -> Self
        decreases k,
    {
        if k == 0 {
            self
        } else {
            self.steps((k - 1) as nat).step()
        }
    }
}

/// A unit of execution that counts through `[start, end)`.
pub struct Counter {
    origin: Origin,
    start: i32,
    end: i32,
    next: i32,
    pause_millis: u64,
    phase: Phase,
}

impl View for Counter {
    type V = CounterState;

    closed spec fn view(&self) -> CounterState {
        CounterState {
            origin: self.origin,
            start: self.start,
            end: self.end,
            pause_millis: self.pause_millis,
            emitted: (self.next - self.start) as nat,
            phase: self.phase,
        }
    }
}

impl Counter {
    #[verifier::type_invariant]
    spec fn inv(self) -> bool {
        &&& self.start <= self.next
        &&& self@.wf()
    }

    /// A unit at its beginning: running, nothing emitted yet.
    pub fn new(origin: Origin, start: i32, end: i32, pause_millis: u64) -> (unit: Counter)
        ensures
            unit@ == CounterState::initial(origin, start, end, pause_millis),
            unit@.wf(),
    {
        Counter { origin, start, end, next: start, pause_millis, phase: Phase::Running }
    }

    /// The flow of control that the unit belongs to.
    pub fn origin(&self) -> (origin: Origin)
        ensures
            origin == self@.origin,
    {
        self.origin
    }

    /// The phase that the unit is in. Every unit is well formed, whatever was
    /// done with it, and a caller learns so here.
    pub fn phase(&self) -> (phase: Phase)
        ensures
            phase == self@.phase,
            self@.wf(),
    {
        proof {
            use_type_invariant(self);
        }
        self.phase
    }

    /// The number of notices in the unit's whole interval.
    pub fn total(&self) -> (n: u64)
        ensures
            n == self@.total(),
    {
        if self.start < self.end {
            (self.end as i64 - self.start as i64) as u64
        } else {
            0
        }
    }

    /// The number of notices emitted so far.
    pub fn emitted(&self) -> (n: u64)
        ensures
            n == self@.emitted,
            self@.wf(),
    {
        proof {
            use_type_invariant(self);
        }
        (self.next as i64 - self.start as i64) as u64
    }

    /// Takes one step and says what the driver has to do for it.
    pub fn step(&mut self) -> (action: Action)
        ensures
            action == old(self)@.action(),
            final(self)@ == old(self)@.step(),
            final(self)@.wf(),
    {
        proof {
            use_type_invariant(&*self);
        }
        match self.phase {
            Phase::Running => {
                if self.next < self.end {
                    let notice = Notice { origin: self.origin, number: self.next };
                    self.next = self.next + 1;
                    Action::Emit { notice, pause_millis: self.pause_millis }
                } else {
                    self.phase = Phase::Completed;
                    Action::Stop
                }
            },
            _ => Action::Stop,
        }
    }

    /// Records a fault: a running unit aborts, an ended one stays as it is.
    pub fn fail(&mut self)
        ensures
            final(self)@ == old(self)@.fail(),
            final(self)@.wf(),
    {
        proof {
            use_type_invariant(&*self);
        }
        match self.phase {
            Phase::Running => {
                self.phase = Phase::Aborted;
            },
            _ => {},
        }
    }
}

impl Counter {
    /// Drives the unit to its end and returns, in order, what it asked of its
    /// driver on the way: one announcement and pause for each notice.
    pub fn run(&mut self) -> (actions: Vec<Action>)
        ensures
            actions@ == old(self)@.rest(),
            final(self)@ == old(self)@.finish(),
            final(self)@.wf(),
    {
        let ghost before = self@;
        let mut actions: Vec<Action> = Vec::new();
        proof {
            use_type_invariant(&*self);
        }
        loop
            invariant_except_break
                before.wf(),
                self@.wf(),
                self@ == (CounterState { emitted: self@.emitted, ..before }),
                before.emitted <= self@.emitted,
                before.phase is Running || self@.emitted == before.emitted,
                actions@ == Seq::new(
                    (self@.emitted - before.emitted) as nat,
                    |i: int| before.emission_at(before.emitted + i),
                ),
            ensures
                actions@ == before.rest(),
                self@ == before.finish(),
                self@.wf(),
            decreases self@.total() - self@.emitted,
        {
            let action = self.step();
            match action {
                Action::Emit { .. } => {
                    actions.push(action);
                    assert(actions@ =~= Seq::new(
                        (self@.emitted - before.emitted) as nat,
                        |i: int| before.emission_at(before.emitted + i),
                    ));
                },
                Action::Stop => {
                    assert(actions@ =~= before.rest());
                    break ;
                },
            }
        }
        actions
    }
}

/// What a join finds when it looks at a unit.
#[derive(Clone, Copy, Debug, PartialEq, Eq, Structural)]
pub enum Joined {
    /// The unit is still running: the join goes on waiting.
    Pending,
    /// The unit completed, having emitted this many notices.
    Finished { messages: u64 },
    /// The unit ended abnormally, which is fatal to the whole process.
    Failed,
}

/// What a join finds in the given state.
pub open spec fn join_outcome(unit: CounterState) -> Joined {
    match unit.phase {
        Phase::Running => Joined::Pending,
        Phase::Completed => Joined::Finished { messages: unit.emitted as u64 },
        Phase::Aborted => Joined::Failed,
    }
}

/// Begins a spawned unit over `[start, end)` that suspends for `delay_millis`
/// after each notice. The unit is returned at once, running and with nothing
/// emitted: whoever is given it drives it.
pub fn spawn_counter(start: i32, end: i32, delay_millis: u64) -> (unit: Counter)
    ensures
        unit@ == CounterState::initial(Origin::Spawned, start, end, delay_millis),
        unit@.wf(),
{
    Counter::new(Origin::Spawned, start, end, delay_millis)
}

/// Counts through `[start, end)` in the initiator's own flow of control and
/// returns, in order, what is to be done for it: each notice announced and
/// followed by a pause of `delay_millis`.
pub fn run_inline_counter(start: i32, end: i32, delay_millis: u64) -> (actions: Vec<Action>)
    ensures
        actions@ == CounterState::initial(Origin::Main, start, end, delay_millis).rest(),
{
    let mut unit = Counter::new(Origin::Main, start, end, delay_millis);
    unit.run()
}

/// Looks at a unit as a join does: it waits while the unit runs, returns once
/// the unit has completed, and fails if the unit aborted.
pub fn join(unit: &Counter) -> (outcome: Joined)
    ensures
        outcome == join_outcome(unit@),
        outcome is Finished ==> outcome->messages == unit@.total(),
{
    match unit.phase() {
        Phase::Running => Joined::Pending,
        Phase::Completed => Joined::Finished { messages: unit.emitted() },
        Phase::Aborted => Joined::Failed,
    }
}

/// Where a unit stands after `k` steps from its beginning, if no fault stops
/// it: it has emitted `k` notices, or its whole interval if that is less, in
/// order; it is running up to the step that follows its last notice, and
/// completed from then on.
pub proof fn lemma_steps_from_start(
    origin: Origin,
    start: i32,
    end: i32,
    pause_millis: u64,
    k: nat,
)
    ensures
        ({
            let unit = CounterState::initial(origin, start, end, pause_millis);
            let now = unit.steps(k);
            &&& now.wf()
            &&& now == (CounterState { emitted: now.emitted, phase: now.phase, ..unit })
            &&& now.emitted == if k <= unit.total() { k } else { unit.total() }
            &&& now.phase == if k <= unit.total() { Phase::Running } else { Phase::Completed }
        }),
    decreases k,
{
    if k > 0 {
        lemma_steps_from_start(origin, start, end, pause_millis, (k - 1) as nat);
    }
}

/// A unit over a non-empty interval emits exactly `end - start` notices before
/// it completes: however many steps it has taken, it is completed only if it has
/// emitted that many, one for each integer of the interval in order, and it
/// never emits more.
pub proof fn lemma_emits_whole_interval(
    origin: Origin,
    start: i32,
    end: i32,
    pause_millis: u64,
    k: nat,
)
    requires
        start < end,
    ensures
        ({
            let unit = CounterState::initial(origin, start, end, pause_millis);
            let now = unit.steps(k);
            &&& now.transcript().len() <= end - start
            &&& now.phase is Completed ==> now.transcript().len() == end - start
            &&& now.phase is Completed <==> k > end - start
            &&& forall|i: int|
                0 <= i < now.transcript().len() ==> #[trigger] now.transcript()[i] == (Notice {
                    origin,
                    number: (start + i) as i32,
                })
        }),
{
    lemma_steps_from_start(origin, start, end, pause_millis, k);
}

/// A join returns once, and only once, the unit has emitted its final notice:
/// while fewer steps were taken than the interval holds, and during the pause
/// that follows the last notice, the join waits; whenever it does not wait, the
/// whole interval has been emitted; and once the whole interval has been
/// emitted, one more step at most lets the join return with success.
pub proof fn lemma_join_follows_final_notice(
    origin: Origin,
    start: i32,
    end: i32,
    pause_millis: u64,
    k: nat,
)
    ensures
        ({
            let unit = CounterState::initial(origin, start, end, pause_millis);
            let now = unit.steps(k);
            &&& join_outcome(now) is Pending <==> k <= unit.total()
            &&& !(join_outcome(now) is Pending) ==> join_outcome(now) == (Joined::Finished {
                messages: unit.total() as u64,
            }) && now.emitted == unit.total()
            &&& now.emitted == unit.total() ==> join_outcome(now.step()) == (Joined::Finished {
                messages: unit.total() as u64,
            })
        }),
{
    lemma_steps_from_start(origin, start, end, pause_millis, k);
}

/// Whatever happened to a well-formed unit, a join that finds it completed
/// finds its whole interval emitted, and a fault never lets a join succeed
/// later.
pub proof fn lemma_join_of_any_unit(unit: CounterState)
    requires
        unit.wf(),
    ensures
        unit.step().wf(),
        unit.fail().wf(),
        join_outcome(unit) is Finished ==> unit.transcript() == unit.prefix(unit.total()),
        join_outcome(unit) is Failed ==> join_outcome(unit.step()) is Failed,
        !(join_outcome(unit.fail()) is Pending),
{
}

} // verus!
