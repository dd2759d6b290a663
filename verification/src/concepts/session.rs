//! One spawned unit and the initiator's own unit side by side, with the log
//! of everything that either has announced. The two may be stepped in any
//! order; nothing but the join relates them.

use vstd::prelude::*;
use crate::concepts::concurrency::{
    join, join_outcome, Action, Counter, CounterState, Joined, Notice, Origin,
};

verus! {

/// The notices of one unit among those of a log, in the log's order.
pub open spec fn notices_of(log: Seq<Notice>, origin: Origin) -> Seq<Notice> {
    log.filter(|n: Notice| n.origin == origin)
}

/// The mathematical state of a session.
pub struct SessionState {
    pub spawned: CounterState,
    pub main: CounterState,
    pub log: Seq<Notice>,
}

impl SessionState {
    /// Both units are well formed, each is of its own origin, and the log holds
    /// what each has emitted, in that unit's order: nothing twice, nothing
    /// missing, nothing else.
    pub open spec fn wf(self) -> bool {
        &&& self.spawned.wf()
        &&& self.main.wf()
        &&& self.spawned.origin == Origin::Spawned
        &&& self.main.origin == Origin::Main
        &&& notices_of(self.log, Origin::Spawned) == self.spawned.transcript()
        &&& notices_of(self.log, Origin::Main) == self.main.transcript()
    }

    /// The state in which a session begins: both units at their start, the log
    /// empty.
    pub open spec fn initial(
        spawn_start: i32,
        spawn_end: i32,
        inline_start: i32,
        inline_end: i32,
        delay_millis: u64,
    ) -> Self {
        SessionState {
            spawned: CounterState::initial(Origin::Spawned, spawn_start, spawn_end, delay_millis),
            main: CounterState::initial(Origin::Main, inline_start, inline_end, delay_millis),
            log: Seq::empty(),
        }
    }

    /// The unit of the given origin.
    pub open spec fn unit(self, who: Origin) -> CounterState {
        match who {
            Origin::Spawned => self.spawned,
            Origin::Main => self.main,
        }
    }

    /// The log after the unit `who` has taken one step.
    pub open spec fn log_after(self, who: Origin) -> Seq<Notice> {
        match self.unit(who).action() {
            Action::Emit { notice, .. } => self.log.push(notice),
            Action::Stop => self.log,
        }
    }

    /// The state after the unit `who` has taken one step: that unit has moved,
    /// the other has not, and what was emitted stands at the end of the log.
    pub open spec fn advance(self, who: Origin) -> Self {
        match who {
            Origin::Spawned => SessionState {
                spawned: self.spawned.step(),
                log: self.log_after(who),
                ..self
            },
            Origin::Main => SessionState {
                main: self.main.step(),
                log: self.log_after(who),
                ..self
            },
        }
    }

    /// The state after the units have stepped in the order that `schedule`
    /// gives.
    pub open spec fn replay(self, schedule: Seq<Origin>) -> Self
        decreases schedule.len(),
    {
        if schedule.len() == 0 {
            self
        } else {
            self.replay(schedule.drop_last()).advance(schedule.last())
        }
    }

    /// Whether the initiator is through: its own loop is over and its join has
    /// returned with success.
    pub open spec fn through(self) -> bool {
        self.main.phase is Completed && join_outcome(self.spawned) is Finished
    }
}

/// Appending a notice to a log appends it to its own unit's share and leaves
/// the other unit's share as it was.
pub proof fn lemma_notices_of_push(log: Seq<Notice>, notice: Notice, origin: Origin)
    ensures
        notices_of(log.push(notice), origin) == if notice.origin == origin {
            notices_of(log, origin).push(notice)
        } else {
            notices_of(log, origin)
        },
{
    reveal(Seq::filter);
    assert(log.push(notice).drop_last() =~= log);
}

/// A log is made up of the shares of the two units: its length is the sum of
/// theirs, and it holds each notice as often as the two shares together do.
pub proof fn lemma_log_is_its_shares(log: Seq<Notice>)
    ensures
        log.len() == notices_of(log, Origin::Spawned).len() + notices_of(log, Origin::Main).len(),
        log.to_multiset() == notices_of(log, Origin::Spawned).to_multiset().add(
            notices_of(log, Origin::Main).to_multiset(),
        ),
    decreases log.len(),
{
    broadcast use vstd::seq_lib::group_to_multiset_ensures;

    if log.len() == 0 {
        reveal(Seq::filter);
        assert(log.to_multiset() =~= notices_of(log, Origin::Spawned).to_multiset().add(
            notices_of(log, Origin::Main).to_multiset(),
        ));
    } else {
        let earlier = log.drop_last();
        let notice = log.last();
        assert(earlier.push(notice) =~= log);
        lemma_log_is_its_shares(earlier);
        lemma_notices_of_push(earlier, notice, Origin::Spawned);
        lemma_notices_of_push(earlier, notice, Origin::Main);
        assert(log.to_multiset() =~= notices_of(log, Origin::Spawned).to_multiset().add(
            notices_of(log, Origin::Main).to_multiset(),
        ));
    }
}

/// A step of either unit keeps a session well formed.
pub proof fn lemma_advance_keeps_wf(session: SessionState, who: Origin)
    requires
        session.wf(),
    ensures
        session.advance(who).wf(),
{
    let unit = session.unit(who);
    let next = session.advance(who);
    match unit.action() {
        Action::Emit { notice, .. } => {
            lemma_notices_of_push(session.log, notice, Origin::Spawned);
            lemma_notices_of_push(session.log, notice, Origin::Main);
            assert(unit.step().transcript() =~= unit.transcript().push(notice));
        },
        Action::Stop => {
            assert(unit.step().transcript() =~= unit.transcript());
        },
    }
}

/// Whatever the order in which the two units step, the session stays well
/// formed.
pub proof fn lemma_replay_keeps_wf(session: SessionState, schedule: Seq<Origin>)
    requires
        session.wf(),
    ensures
        session.replay(schedule).wf(),
    decreases schedule.len(),
{
    if schedule.len() > 0 {
        lemma_replay_keeps_wf(session, schedule.drop_last());
        lemma_advance_keeps_wf(session.replay(schedule.drop_last()), schedule.last());
    }
}

/// Once the initiator's loop is over and its join has returned, the log holds
/// as many notices as the two loops count together, whatever the order in which
/// the units stepped: the whole interval of each, nothing twice and nothing
/// missing.
pub proof fn lemma_observed_total(
    spawn_start: i32,
    spawn_end: i32,
    inline_start: i32,
    inline_end: i32,
    delay_millis: u64,
    schedule: Seq<Origin>,
)
    requires
        SessionState::initial(
            spawn_start,
            spawn_end,
            inline_start,
            inline_end,
            delay_millis,
        ).replay(schedule).through(),
    ensures
        ({
            let begun = SessionState::initial(
                spawn_start,
                spawn_end,
                inline_start,
                inline_end,
                delay_millis,
            );
            let ended = begun.replay(schedule);
            &&& ended.log.len() == begun.spawned.total() + begun.main.total()
            &&& notices_of(ended.log, Origin::Spawned) == begun.spawned.prefix(
                begun.spawned.total(),
            )
            &&& notices_of(ended.log, Origin::Main) == begun.main.prefix(begun.main.total())
            &&& ended.log.to_multiset() == begun.spawned.prefix(
                begun.spawned.total(),
            ).to_multiset().add(begun.main.prefix(begun.main.total()).to_multiset())
        }),
{
    let begun = SessionState::initial(
        spawn_start,
        spawn_end,
        inline_start,
        inline_end,
        delay_millis,
    );
    let ended = begun.replay(schedule);
    assert(begun.wf()) by {
        reveal(Seq::filter);
        assert(begun.spawned.transcript() =~= Seq::<Notice>::empty());
        assert(begun.main.transcript() =~= Seq::<Notice>::empty());
    }
    lemma_replay_keeps_wf(begun, schedule);
    lemma_replay_keeps_intervals(begun, schedule);
    lemma_log_is_its_shares(ended.log);
    assert(ended.spawned.transcript() =~= begun.spawned.prefix(begun.spawned.total()));
    assert(ended.main.transcript() =~= begun.main.prefix(begun.main.total()));
}

/// Stepping changes how far a unit has come, never its interval, its origin or
/// its pause.
pub proof fn lemma_replay_keeps_intervals(session: SessionState, schedule: Seq<Origin>)
    ensures
        ({
            let ended = session.replay(schedule);
            &&& ended.spawned == (CounterState {
                emitted: ended.spawned.emitted,
                phase: ended.spawned.phase,
                ..session.spawned
            })
            &&& ended.main == (CounterState {
                emitted: ended.main.emitted,
                phase: ended.main.phase,
                ..session.main
            })
        }),
    decreases schedule.len(),
{
    if schedule.len() > 0 {
        lemma_replay_keeps_intervals(session, schedule.drop_last());
    }
}

/// A session as it runs: the two units and the log of what they announced.
pub struct Session {
    spawned: Counter,
    main: Counter,
    log: Vec<Notice>,
}

impl View for Session {
    type V = SessionState;

    closed spec fn view(&self) -> SessionState {
        SessionState { spawned: self.spawned@, main: self.main@, log: self.log@ }
    }
}

impl Session {
    /// Begins a session: a spawned unit over `[spawn_start, spawn_end)`, the
    /// initiator's unit over `[inline_start, inline_end)`, both pausing for
    /// `delay_millis` after each notice, and an empty log.
    pub fn new(
        spawn_start: i32,
        spawn_end: i32,
        inline_start: i32,
        inline_end: i32,
        delay_millis: u64,
    ) -> (session: Session)
        ensures
            session@ == SessionState::initial(
                spawn_start,
                spawn_end,
                inline_start,
                inline_end,
                delay_millis,
            ),
            session@.wf(),
    {
        let spawned = Counter::new(Origin::Spawned, spawn_start, spawn_end, delay_millis);
        let main = Counter::new(Origin::Main, inline_start, inline_end, delay_millis);
        let log: Vec<Notice> = Vec::new();
        proof {
            reveal(Seq::filter);
            assert(spawned@.transcript() =~= Seq::<Notice>::empty());
            assert(main@.transcript() =~= Seq::<Notice>::empty());
        }
        Session { spawned, main, log }
    }

    /// Lets the unit `who` take one step, and records what it announced.
    pub fn advance(&mut self, who: Origin) -> (action: Action)
        requires
            old(self)@.wf(),
        ensures
            action == old(self)@.unit(who).action(),
            final(self)@ == old(self)@.advance(who),
            final(self)@.wf(),
    {
        proof {
            lemma_advance_keeps_wf(self@, who);
        }
        let action = match who {
            Origin::Spawned => self.spawned.step(),
            Origin::Main => self.main.step(),
        };
        match action {
            Action::Emit { notice, .. } => {
                self.log.push(notice);
            },
            Action::Stop => {},
        }
        action
    }

    /// Looks at the spawned unit as the initiator's join does.
    pub fn join(&self) -> (outcome: Joined)
        ensures
            outcome == join_outcome(self@.spawned),
            outcome is Finished ==> outcome->messages == self@.spawned.total(),
    {
        join(&self.spawned)
    }

    /// The number of notices announced so far, by either unit.
    pub fn observed(&self) -> (n: usize)
        requires
            self@.wf(),
        ensures
            n == self@.log.len(),
            n == self@.spawned.emitted + self@.main.emitted,
    {
        proof {
            lemma_log_is_its_shares(self@.log);
        }
        self.log.len()
    }

    /// Everything announced so far, in the order in which it was announced.
    pub fn log(&self) -> (log: &Vec<Notice>)
        ensures
            log@ == self@.log,
    {
        &self.log
    }
}

} // verus!
