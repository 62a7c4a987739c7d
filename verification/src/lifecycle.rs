//! The life of an application as a state machine over plain values: which
//! phase it is in, what the coordinator knows, and which units have returned.
//!
//! The runtime in `app` carries this state and moves it by the transitions
//! defined here; what holds of every run is proved here once.

use crate::report::{lemma_report_partitions, report_of, OutcomeModel, ReportModel};
use crate::shutdown::{ShutdownState, Signal, Slot};
use crate::tally::{count_of, lemma_count_all, lemma_count_push, lemma_count_update, lemma_count_zero};
use vstd::prelude::*;

verus! {

/// The phase of an application. It only ever moves to the next phase:
/// `Idle`, `Running`, `Draining`, `Stopped`.
#[derive(Clone, Copy, Debug, PartialEq, Eq, Structural)]
pub enum Phase {
    /// Units are being registered; nothing runs.
    Idle,
    /// Every unit has been started, and nobody has asked for a shutdown.
    Running,
    /// Cancellation has been requested, and some unit has yet to return.
    Draining,
    /// Every unit has returned.
    Stopped,
}

impl Phase {
    /// The place of the phase on its one path.
    pub open spec fn rank(self) -> nat {
        match self {
            Phase::Idle => 0,
            Phase::Running => 1,
            Phase::Draining => 2,
            Phase::Stopped => 3,
        }
    }
}

/// The phases in the order in which an application passes through them.
pub open spec fn phase_path() -> Seq<Phase> {
    seq![Phase::Idle, Phase::Running, Phase::Draining, Phase::Stopped]
}

/// The phases that an application in `phase` has been in, oldest first.
pub open spec fn path_to(phase: Phase) -> Seq<Phase> {
    phase_path().take(phase.rank() as int + 1)
}

/// The phase of a started application whose signal is `signal`.
pub open spec fn phase_of(signal: Signal) -> Phase {
    match signal {
        Signal::Active => Phase::Running,
        Signal::CancellationRequested => Phase::Draining,
        Signal::Drained => Phase::Stopped,
    }
}

/// The state of an application.
pub struct AppState {
    pub phase: Phase,
    pub shutdown: ShutdownState,
    /// The names of the registered units, by unit number.
    pub names: Seq<Seq<char>>,
    /// The outcomes of the units that have returned, in the order in which
    /// they returned.
    pub outcomes: Seq<OutcomeModel>,
}

impl AppState {
    /// The number of registered units.
    pub open spec fn size(self) -> nat {
        self.names.len()
    }

    /// Whether an outcome of `unit` is recorded.
    pub open spec fn has_outcome(self, unit: int) -> bool {
        exists|j: int| 0 <= j < self.outcomes.len() && #[trigger] self.outcomes[j].unit == unit
    }

    /// What holds of the state of every application, whatever was registered
    /// and whatever happened in whatever order.
    pub open spec fn inv(self) -> bool {
        &&& self.names.no_duplicates()
        &&& self.names.len() == self.shutdown.slots.len()
        &&& self.phase == Phase::Idle ==> {
            &&& forall|u: int| 0 <= u < self.shutdown.slots.len() ==> self.shutdown.slots[u] == Slot::Vacant
            &&& self.outcomes.len() == 0
            &&& self.shutdown.signal != Signal::Drained
        }
        &&& self.phase != Phase::Idle ==> {
            &&& self.phase == phase_of(self.shutdown.signal)
            &&& forall|u: int| 0 <= u < self.shutdown.slots.len() ==> self.shutdown.slots[u] != Slot::Vacant
            &&& self.shutdown.signal == Signal::Drained <==> self.shutdown.outstanding() == 0
        }
        &&& forall|j: int|
            0 <= j < self.outcomes.len() ==> {
                &&& 0 <= (#[trigger] self.outcomes[j]).unit < self.shutdown.slots.len()
                &&& self.shutdown.slots[self.outcomes[j].unit] == Slot::Returned
                &&& self.outcomes[j].name == self.names[self.outcomes[j].unit]
            }
        &&& forall|i: int, j: int|
            0 <= i < self.outcomes.len() && 0 <= j < self.outcomes.len() && i != j ==> (
            #[trigger] self.outcomes[i]).unit != (#[trigger] self.outcomes[j]).unit
        &&& forall|u: int|
            0 <= u < self.shutdown.slots.len() && #[trigger] self.shutdown.slots[u] == Slot::Returned
                ==> self.has_outcome(u)
        &&& self.outcomes.len() == count_of(self.shutdown.slots, Slot::Returned)
    }

    /// The state before anything is registered.
    pub open spec fn initial() -> AppState {
        AppState {
            phase: Phase::Idle,
            shutdown: ShutdownState { signal: Signal::Active, slots: Seq::empty() },
            names: Seq::empty(),
            outcomes: Seq::empty(),
        }
    }

    /// Whether a unit can be registered under `name`: nothing has been
    /// started, and the name is free.
    pub open spec fn can_register(self, name: Seq<char>) -> bool {
        self.phase == Phase::Idle && !self.names.contains(name)
    }

    /// The state after a unit was offered under `name`.
    pub open spec fn register(self, name: Seq<char>) -> AppState {
        if self.can_register(name) {
            AppState {
                phase: self.phase,
                shutdown: self.shutdown.with_unit(),
                names: self.names.push(name),
                outcomes: self.outcomes,
            }
        } else {
            self
        }
    }

    /// The state once the coordinator has been polled for the end of the
    /// drain and the phase has followed the signal.
    pub open spec fn settle(self) -> AppState {
        let shutdown = self.shutdown.drain();
        AppState {
            phase: phase_of(shutdown.signal),
            shutdown,
            names: self.names,
            outcomes: self.outcomes,
        }
    }

    /// The state after a request to start: from `Idle` every unit gets its
    /// guard and runs; in any other phase nothing changes.
    pub open spec fn start(self) -> AppState {
        if self.phase == Phase::Idle {
            AppState {
                phase: Phase::Running,
                shutdown: ShutdownState {
                    signal: self.shutdown.signal,
                    slots: Seq::new(self.shutdown.slots.len(), |u: int| Slot::Running),
                },
                names: self.names,
                outcomes: self.outcomes,
            }.settle()
        } else {
            self
        }
    }

    /// The state after a request to shut down. Before the start the request
    /// is kept, and the units will be started with cancellation requested.
    pub open spec fn cancel(self) -> AppState {
        let shutdown = self.shutdown.cancel();
        AppState {
            phase: if self.phase == Phase::Idle {
                Phase::Idle
            } else {
                phase_of(shutdown.signal)
            },
            shutdown,
            names: self.names,
            outcomes: self.outcomes,
        }
    }

    /// The state after the report that `unit` has returned, with the cause
    /// if it failed. The first report for a running unit is recorded, a
    /// failure requests cancellation, and the last unit to return ends the
    /// drain. Any other report changes nothing.
    pub open spec fn unit_returned(self, unit: int, failure: Option<Seq<char>>) -> AppState {
        if self.shutdown.is_live(unit) {
            let returned = self.shutdown.complete(unit);
            AppState {
                phase: self.phase,
                shutdown: if failure is Some {
                    returned.cancel()
                } else {
                    returned
                },
                names: self.names,
                outcomes: self.outcomes.push(
                    OutcomeModel { unit, name: self.names[unit], failure },
                ),
            }.settle()
        } else {
            self
        }
    }

    /// The report on the run so far.
    pub open spec fn report(self) -> ReportModel {
        report_of(self.outcomes)
    }
}

/// The path to a phase has no gap: it starts at `Idle`, each phase on it is
/// the successor of the one before, and it ends at the phase itself.
pub proof fn lemma_path_has_no_gap(phase: Phase)
    ensures
        path_to(phase).len() == phase.rank() + 1,
        forall|i: int| 0 <= i < path_to(phase).len() ==> (#[trigger] path_to(phase)[i]).rank() == i,
        path_to(phase).first() == Phase::Idle,
        path_to(phase).last() == phase,
{
}

/// The initial state is a state of an application.
pub proof fn lemma_initial_inv()
    ensures
        AppState::initial().inv(),
{
}

/// Registering keeps the invariant.
pub proof fn lemma_register_inv(s: AppState, name: Seq<char>)
    requires
        s.inv(),
    ensures
        s.register(name).inv(),
{
    if s.can_register(name) {
        let t = s.register(name);
        lemma_count_push(s.shutdown.slots, Slot::Vacant, Slot::Returned);
        assert forall|u: int| 0 <= u < t.shutdown.slots.len() implies t.shutdown.slots[u]
            == Slot::Vacant by {
            if u < s.shutdown.slots.len() {
                assert(t.shutdown.slots[u] == s.shutdown.slots[u]);
            }
        }
        assert forall|i: int, j: int|
            0 <= i < t.names.len() && 0 <= j < t.names.len() && i != j implies t.names[i]
            != t.names[j] by {
            if i < s.names.len() && j < s.names.len() {
            } else if i < s.names.len() {
                assert(s.names.contains(s.names[i]));
            } else {
                assert(s.names.contains(s.names[j]));
            }
        }
    }
}

/// Starting keeps the invariant.
pub proof fn lemma_start_inv(s: AppState)
    requires
        s.inv(),
    ensures
        s.start().inv(),
{
    if s.phase == Phase::Idle {
        let n = s.shutdown.slots.len();
        let slots = Seq::new(n, |u: int| Slot::Running);
        lemma_count_all(slots, Slot::Running);
        lemma_count_zero(slots, Slot::Returned);
        lemma_count_zero(slots, Slot::Running);
        lemma_count_zero(s.shutdown.slots, Slot::Returned);
        let t = s.start();
        assert(t.shutdown.slots == slots);
        if n > 0 {
            assert(slots[0] == Slot::Running);
        }
    }
}

/// A request to shut down keeps the invariant.
pub proof fn lemma_cancel_inv(s: AppState)
    requires
        s.inv(),
    ensures
        s.cancel().inv(),
{
    let t = s.cancel();
    assert(t.shutdown.slots == s.shutdown.slots);
    assert(t.outcomes == s.outcomes);
    assert forall|u: int|
        0 <= u < t.shutdown.slots.len() && #[trigger] t.shutdown.slots[u]
            == Slot::Returned implies t.has_outcome(u) by {
        assert(s.has_outcome(u));
    }
}

/// The report that a unit has returned keeps the invariant.
pub proof fn lemma_unit_returned_inv(s: AppState, unit: int, failure: Option<Seq<char>>)
    requires
        s.inv(),
    ensures
        s.unit_returned(unit, failure).inv(),
{
    if s.shutdown.is_live(unit) {
        let t = s.unit_returned(unit, failure);
        let slots = s.shutdown.slots.update(unit, Slot::Returned);
        assert(t.shutdown.slots == slots);
        lemma_count_update(s.shutdown.slots, unit, Slot::Returned, Slot::Returned);
        lemma_count_update(s.shutdown.slots, unit, Slot::Returned, Slot::Running);
        lemma_count_zero(s.shutdown.slots, Slot::Running);
        assert(s.phase != Phase::Idle);
        assert(s.shutdown.signal != Signal::Drained);
        let last = s.outcomes.len() as int;
        assert(t.outcomes[last].unit == unit);
        assert forall|j: int| 0 <= j < t.outcomes.len() implies {
            &&& 0 <= (#[trigger] t.outcomes[j]).unit < t.shutdown.slots.len()
            &&& t.shutdown.slots[t.outcomes[j].unit] == Slot::Returned
            &&& t.outcomes[j].name == t.names[t.outcomes[j].unit]
        } by {
            if j < last {
                assert(t.outcomes[j] == s.outcomes[j]);
            }
        }
        assert forall|i: int, j: int|
            0 <= i < t.outcomes.len() && 0 <= j < t.outcomes.len() && i != j implies (
        #[trigger] t.outcomes[i]).unit != (#[trigger] t.outcomes[j]).unit by {
            if i < last {
                assert(t.outcomes[i] == s.outcomes[i]);
            }
            if j < last {
                assert(t.outcomes[j] == s.outcomes[j]);
            }
        }
        assert forall|u: int|
            0 <= u < t.shutdown.slots.len() && #[trigger] t.shutdown.slots[u]
                == Slot::Returned implies t.has_outcome(u) by {
            if u == unit {
                assert(t.outcomes[last].unit == u);
            } else {
                assert(s.shutdown.slots[u] == Slot::Returned);
                assert(s.has_outcome(u));
                let j = choose|j: int| 0 <= j < s.outcomes.len() && #[trigger] s.outcomes[j].unit == u;
                assert(t.outcomes[j] == s.outcomes[j]);
            }
        }
    }
}

/// An application has stopped exactly if it was started and no execution is
/// outstanding; and then every unit has returned and has exactly one outcome,
/// so that the report counts every registered unit.
pub proof fn lemma_stopped_means_all_returned(s: AppState)
    requires
        s.inv(),
    ensures
        s.phase == Phase::Stopped <==> s.phase != Phase::Idle && s.shutdown.outstanding() == 0,
        s.phase == Phase::Stopped ==> {
            &&& forall|u: int| 0 <= u < s.size() ==> s.shutdown.slots[u] == Slot::Returned
            &&& forall|u: int| 0 <= u < s.size() ==> s.has_outcome(u)
            &&& s.outcomes.len() == s.size()
            &&& s.report().total == s.size()
            &&& s.report().succeeded.len() + s.report().failed.len() == s.size()
        },
{
    if s.phase == Phase::Stopped {
        lemma_count_zero(s.shutdown.slots, Slot::Running);
        assert forall|u: int| 0 <= u < s.size() implies s.shutdown.slots[u] == Slot::Returned by {
            assert(s.shutdown.slots[u] != Slot::Vacant);
            assert(s.shutdown.slots[u] != Slot::Running);
        }
        assert forall|u: int| 0 <= u < s.size() implies s.has_outcome(u) by {
            assert(s.shutdown.slots[u] == Slot::Returned);
        }
        lemma_count_all(s.shutdown.slots, Slot::Returned);
        lemma_report_partitions(s.outcomes);
    }
}

/// With no unit registered, a start leads straight to the end: the
/// application has stopped, and the report is empty and without a failure.
pub proof fn lemma_empty_run_stops_at_once(s: AppState)
    requires
        s.inv(),
        s.phase == Phase::Idle,
        s.size() == 0,
    ensures
        s.start().phase == Phase::Stopped,
        s.start().report().total == 0,
        s.start().report().succeeded == Seq::<Seq<char>>::empty(),
        s.start().report().failed == Seq::<(Seq<char>, Seq<char>)>::empty(),
{
    let slots = Seq::new(s.shutdown.slots.len(), |u: int| Slot::Running);
    assert(slots =~= Seq::<Slot>::empty());
}

/// A unit that returns with an error requests cancellation for all, and
/// touches no other unit: each sibling that was running still is, until it
/// returns by itself, and no outcome recorded before is lost.
pub proof fn lemma_failure_cancels_and_spares_siblings(s: AppState, unit: int, cause: Seq<char>)
    requires
        s.inv(),
        s.shutdown.is_live(unit),
    ensures
        s.unit_returned(unit, Some(cause)).shutdown.is_cancelled(),
        s.unit_returned(unit, Some(cause)).phase.rank() >= Phase::Draining.rank(),
        forall|other: int|
            0 <= other < s.size() && other != unit ==> s.unit_returned(
                unit,
                Some(cause),
            ).shutdown.slots[other] == s.shutdown.slots[other],
        s.unit_returned(unit, Some(cause)).outcomes == s.outcomes.push(
            OutcomeModel { unit, name: s.names[unit], failure: Some(cause) },
        ),
{
}

/// A unit that returns without an error leaves the signal alone unless it was
/// the last one to return.
pub proof fn lemma_success_keeps_signal(s: AppState, unit: int)
    requires
        s.inv(),
        s.shutdown.is_live(unit),
        s.shutdown.outstanding() > 1,
    ensures
        s.unit_returned(unit, None).shutdown.signal == s.shutdown.signal,
        s.unit_returned(unit, None).phase == s.phase,
{
    lemma_count_update(s.shutdown.slots, unit, Slot::Returned, Slot::Running);
}

/// No transition takes an application back to an earlier phase, and no
/// transition but the start leaves `Idle`.
pub proof fn lemma_phase_only_advances(s: AppState, name: Seq<char>, unit: int, failure: Option<Seq<char>>)
    requires
        s.inv(),
    ensures
        s.register(name).phase == s.phase,
        s.start().phase.rank() >= s.phase.rank(),
        s.cancel().phase.rank() >= s.phase.rank(),
        s.unit_returned(unit, failure).phase.rank() >= s.phase.rank(),
        s.phase == Phase::Idle ==> s.cancel().phase == Phase::Idle && s.unit_returned(
            unit,
            failure,
        ).phase == Phase::Idle,
        s.phase != Phase::Idle ==> s.start() == s,
{
    if s.phase != Phase::Idle && s.shutdown.is_live(unit) {
        lemma_count_zero(s.shutdown.slots, Slot::Running);
    }
}

/// Once an application has been started its registry is frozen: an offer to
/// register changes nothing. And nothing but registering changes the names.
pub proof fn lemma_registry_is_frozen_once_started(
    s: AppState,
    name: Seq<char>,
    unit: int,
    failure: Option<Seq<char>>,
)
    ensures
        s.phase != Phase::Idle ==> s.register(name) == s,
        s.start().names == s.names,
        s.cancel().names == s.names,
        s.unit_returned(unit, failure).names == s.names,
{
}

/// A name that is taken is refused: the state stays as it was, so that the
/// name still stands for the unit that had it first.
pub proof fn lemma_duplicate_changes_nothing(s: AppState, name: Seq<char>)
    requires
        s.names.contains(name),
    ensures
        s.register(name) == s,
{
}

} // verus!
