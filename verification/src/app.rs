//! The runtime: a registry bound to a shutdown coordinator, and the record of
//! how each unit returned.
//!
//! The runtime decides; the host acts. The host registers its units, calls
//! `start` and runs every unit with the guard issued for it, calls `cancel`
//! when an outside trigger asks for a shutdown, and calls `unit_returned`
//! each time a unit has returned. Each call says what the host has to do
//! next, and once the application has stopped, `report` gives the result.

use crate::lifecycle::{
    lemma_cancel_inv, lemma_register_inv, lemma_start_inv, lemma_unit_returned_inv, path_to,
    phase_of, AppState, Phase,
};
use crate::error::BootError;
use crate::plugin::Plugin;
use crate::registry::Registry;
use crate::report::{outcome_views, Outcome, OutcomeModel, RunReport};
use crate::shutdown::{Coordinator, Guard, ShutdownState, Signal, Slot};
use crate::tally::lemma_count_zero;
use std::sync::Arc;
use vstd::prelude::*;

verus! {

/// What the host has to do after it has reported an event.
#[derive(Clone, Copy, Debug, PartialEq, Eq, Structural)]
pub enum Action {
    /// Nothing new: wait for the next unit to return, or for a trigger.
    Wait,
    /// Cancellation has just been requested: tell every running unit, then
    /// wait for them to return.
    Broadcast,
    /// Every unit has returned: take the report.
    Finish,
}

/// The action that takes the host from the state `before` an event to the
/// state `after` it.
pub open spec fn action_between(before: AppState, after: AppState) -> Action {
    if after.phase == Phase::Stopped {
        Action::Finish
    } else if before.shutdown.signal == Signal::Active && after.shutdown.signal != Signal::Active {
        Action::Broadcast
    } else {
        Action::Wait
    }
}

/// What the host reports to the runtime while an application runs.
#[derive(Debug, PartialEq, Eq)]
pub enum Event {
    /// An outside trigger asks for a shutdown.
    ShutdownRequested,
    /// The unit behind the guard has returned, with this result.
    UnitReturned(Guard, Result<(), String>),
}

/// The state after `event` has been reported in state `s`.
pub open spec fn after_event(s: AppState, event: Event) -> AppState {
    match event {
        Event::ShutdownRequested => s.cancel(),
        Event::UnitReturned(guard, result) => s.unit_returned(
            guard.target() as int,
            failure_of(result),
        ),
    }
}

/// The cause of a failure, if `result` is one.
pub open spec fn failure_of(result: Result<(), String>) -> Option<Seq<char>> {
    match result {
        Ok(_) => None,
        Err(cause) => Some(cause@),
    }
}

/// The phase of a started application whose signal is `signal`.
fn phase_for(signal: Signal) -> (phase: Phase)
    ensures
        phase == phase_of(signal),
{
    match signal {
        Signal::Active => Phase::Running,
        Signal::CancellationRequested => Phase::Draining,
        Signal::Drained => Phase::Stopped,
    }
}

/// Moves from `from` to `target` one phase at a time, and notes each phase
/// that is entered.
fn advance(from: Phase, history: &mut Vec<Phase>, target: Phase) -> (reached: Phase)
    requires
        old(history)@ == path_to(from),
        from.rank() <= target.rank(),
    ensures
        final(history)@ == path_to(target),
        reached == target,
{
    let mut phase = from;
    while phase != target
        invariant
            history@ == path_to(phase),
            phase.rank() <= target.rank(),
        decreases target.rank() - phase.rank(),
    {
        phase = match phase {
            Phase::Idle => Phase::Running,
            Phase::Running => Phase::Draining,
            _ => Phase::Stopped,
        };
        history.push(phase);
        assert(history@ =~= path_to(phase));
    }
    phase
}

/// An application: its configuration, its units, and the state of its run.
pub struct App<C, T> {
    conf: Arc<C>,
    components: Registry<T>,
    shutdown: Coordinator,
    outcomes: Vec<Outcome>,
    phase: Phase,
    history: Vec<Phase>,
}

impl<C, T> View for App<C, T> {
    type V = AppState;

    closed spec fn view(&self) -> AppState {
        AppState {
            phase: self.phase,
            shutdown: self.shutdown@,
            names: self.components.names(),
            outcomes: outcome_views(self.outcomes@),
        }
    }
}

impl<C, T> App<C, T> {
    /// The configuration that the application was made with.
    pub closed spec fn configuration(&self) -> Arc<C> {
        self.conf
    }

    /// The registry of the application.
    pub closed spec fn registry(&self) -> Registry<T> {
        self.components
    }

    /// The phases that the application has entered, oldest first.
    pub closed spec fn trail(&self) -> Seq<Phase> {
        self.history@
    }

    /// The invariant of the type.
    pub closed spec fn wf(&self) -> bool {
        &&& self.components.wf()
        &&& self.shutdown.wf()
        &&& self@.inv()
        &&& self.history@ == path_to(self.phase)
    }

    /// What the invariant says to the outside: the state is one of an
    /// application, the registry is sound and holds the state's names, and
    /// the phases entered are those on the path to the present one, each
    /// once and none left out.
    pub proof fn lemma_wf(&self)
        requires
            self.wf(),
        ensures
            self@.inv(),
            self.registry().wf(),
            self.registry().names() == self@.names,
            self.trail() == path_to(self@.phase),
    {
    }

    /// Binds an empty registry to a fresh coordinator. Nothing runs yet.
    pub fn new(conf: Arc<C>) -> (app: Self)
        ensures
            app.wf(),
            app@ == AppState::initial(),
            app.configuration() == conf,
            app.registry().units() == Seq::<T>::empty(),
    {
        let mut history: Vec<Phase> = Vec::new();
        history.push(Phase::Idle);
        let app = App {
            conf,
            components: Registry::new(),
            shutdown: Coordinator::new(),
            outcomes: Vec::new(),
            phase: Phase::Idle,
            history,
        };
        proof {
            assert(app.history@ =~= path_to(Phase::Idle));
            assert(outcome_views(app.outcomes@) =~= Seq::<OutcomeModel>::empty());
            assert(app.shutdown@.slots =~= Seq::<Slot>::empty());
            assert(app@ == AppState::initial());
        }
        app
    }

    /// Binds `registry` to a fresh coordinator. Nothing runs yet, and more
    /// units can be registered.
    pub fn with_registry(conf: Arc<C>, registry: Registry<T>) -> (app: Self)
        requires
            registry.wf(),
        ensures
            app.wf(),
            app.configuration() == conf,
            app.registry() == registry,
            app@ == (AppState {
                phase: Phase::Idle,
                shutdown: ShutdownState {
                    signal: Signal::Active,
                    slots: Seq::new(registry.names().len(), |u: int| Slot::Vacant),
                },
                names: registry.names(),
                outcomes: Seq::empty(),
            }),
    {
        let n = registry.len();
        let mut shutdown = Coordinator::new();
        let mut unit: usize = 0;
        while unit < n
            invariant
                shutdown.wf(),
                unit <= n,
                shutdown@.signal == Signal::Active,
                shutdown@.slots =~= Seq::new(unit as nat, |u: int| Slot::Vacant),
            decreases n - unit,
        {
            let _ = shutdown.add_unit();
            unit = unit + 1;
        }
        let mut history: Vec<Phase> = Vec::new();
        history.push(Phase::Idle);
        let app = App {
            conf,
            components: registry,
            shutdown,
            outcomes: Vec::new(),
            phase: Phase::Idle,
            history,
        };
        proof {
            assert(app.history@ =~= path_to(Phase::Idle));
            assert(outcome_views(app.outcomes@) =~= Seq::<OutcomeModel>::empty());
            lemma_count_zero(app.shutdown@.slots, Slot::Returned);
        }
        app
    }

    /// The name of the runtime itself, as it stands in diagnostics.
    pub fn name(&self) -> (name: &'static str)
        ensures
            name@ == "App"@,
    {
        "App"
    }

    /// The configuration that the application was made with.
    pub fn conf(&self) -> (conf: &Arc<C>)
        ensures
            *conf == self.configuration(),
    {
        &self.conf
    }

    /// The registry, to read the units from.
    pub fn components(&self) -> (registry: &Registry<T>)
        ensures
            *registry == self.registry(),
    {
        &self.components
    }

    /// The phase that the application is in.
    pub fn phase(&self) -> (phase: Phase)
        ensures
            phase == self@.phase,
    {
        self.phase
    }

    /// The phases that the application has entered, oldest first.
    pub fn history(&self) -> (phases: &Vec<Phase>)
        ensures
            phases@ == self.trail(),
    {
        &self.history
    }

    /// Whether cancellation has been requested.
    pub fn is_cancelled(&self) -> (cancelled: bool)
        ensures
            cancelled == self@.shutdown.is_cancelled(),
    {
        self.shutdown.is_cancelled()
    }

    /// The number of units that are running.
    pub fn outstanding(&self) -> (n: usize)
        requires
            self.wf(),
        ensures
            n == self@.shutdown.outstanding(),
    {
        self.shutdown.outstanding()
    }

    /// The outcomes recorded so far, in the order in which the units
    /// returned.
    pub fn outcomes(&self) -> (outcomes: &Vec<Outcome>)
        ensures
            outcome_views(outcomes@) == self@.outcomes,
    {
        &self.outcomes
    }

    /// Registers `unit` under `name`. Once the application has been started
    /// the registry is frozen; a name that is taken is refused. Either way
    /// nothing changes.
    pub fn register(&mut self, name: String, unit: T) -> (result: Result<(), BootError>)
        requires
            old(self).wf(),
        ensures
            final(self).wf(),
            final(self).configuration() == old(self).configuration(),
            final(self)@ == old(self)@.register(name@),
            result is Ok <==> old(self)@.can_register(name@),
            result is Ok ==> final(self).registry().units() == old(self).registry().units().push(unit),
            result is Err ==> final(self).registry() == old(self).registry(),
            old(self)@.phase != Phase::Idle ==> result == Err::<(), BootError>(
                BootError::RegistryFrozen,
            ),
            old(self)@.phase == Phase::Idle && old(self)@.names.contains(name@) ==> (
            result matches Err(BootError::DuplicateComponent(taken)) && taken@ == name@),
    {
        if self.phase != Phase::Idle {
            return Err(BootError::RegistryFrozen);
        }
        let ghost state = self@;
        let ghost wanted = name@;
        match self.components.register(name, unit) {
            Ok(_) => {
                let _ = self.shutdown.add_unit();
                proof {
                    lemma_register_inv(state, wanted);
                    assert(self@ == state.register(wanted));
                }
                Ok(())
            },
            Err(e) => Err(e),
        }
    }

    /// Registers `unit` under the name that it gives itself: the unit's
    /// `name` is asked once, and what it gives is the name that is offered to
    /// the registry. Once the application has been started the registry is
    /// frozen; a name that is taken is refused. Either way nothing changes.
    pub fn with(&mut self, unit: T) -> (result: Result<(), BootError>) where T: Plugin
        requires
            old(self).wf(),
        ensures
            final(self).wf(),
            final(self).configuration() == old(self).configuration(),
            exists|name: &str|
                {
                    &&& #[trigger] call_ensures(T::name, (&unit,), name)
                    &&& final(self)@ == old(self)@.register(name@)
                    &&& result is Ok <==> old(self)@.can_register(name@)
                    &&& old(self)@.phase == Phase::Idle && old(self)@.names.contains(name@) ==> (
                    result matches Err(BootError::DuplicateComponent(taken)) && taken@ == name@)
                },
            result is Ok ==> final(self).registry().units() == old(self).registry().units().push(unit),
            result is Err ==> final(self).registry() == old(self).registry(),
            result == Err::<(), BootError>(BootError::RegistryFrozen) <==> old(self)@.phase
                != Phase::Idle,
    {
        let given = unit.name();
        let name = given.to_owned();
        let result = self.register(name, unit);
        proof {
            assert(call_ensures(T::name, (&unit,), given));
            assert(self@ == old(self)@.register(given@));
        }
        result
    }

    /// Follows the signal: polls the coordinator for the end of the drain and
    /// enters each phase up to the one that the signal stands for.
    fn settle(&mut self)
        requires
            old(self).shutdown.wf(),
            old(self).history@ == path_to(old(self).phase),
            old(self).phase.rank() <= phase_of(old(self).shutdown@.drain().signal).rank(),
        ensures
            final(self).shutdown.wf(),
            final(self).history@ == path_to(final(self).phase),
            final(self)@ == old(self)@.settle(),
            final(self).components == old(self).components,
            final(self).outcomes == old(self).outcomes,
            final(self).conf == old(self).conf,
    {
        let _ = self.shutdown.poll_all_drained();
        let target = phase_for(self.shutdown.signal());
        self.phase = advance(self.phase, &mut self.history, target);
    }

    /// Starts the run: issues one guard for each unit, by unit number. The
    /// host runs each unit with its guard. With no unit the application has
    /// stopped at once. A second start is refused and changes nothing.
    pub fn start(&mut self) -> (result: Result<Vec<Guard>, BootError>)
        requires
            old(self).wf(),
        ensures
            final(self).wf(),
            final(self).configuration() == old(self).configuration(),
            final(self)@ == old(self)@.start(),
            final(self).registry() == old(self).registry(),
            old(self)@.phase == Phase::Idle ==> {
                &&& result matches Ok(guards)
                &&& guards@.len() == old(self)@.size()
                &&& forall|u: int| 0 <= u < guards@.len() ==> (#[trigger] guards@[u]).target() == u
            },
            old(self)@.phase != Phase::Idle ==> result == Err::<Vec<Guard>, BootError>(
                BootError::AlreadyStarted,
            ),
    {
        if self.phase != Phase::Idle {
            return Err(BootError::AlreadyStarted);
        }
        let ghost state = self@;
        let n = self.shutdown.units();
        let mut guards: Vec<Guard> = Vec::new();
        let mut unit: usize = 0;
        while unit < n
            invariant
                self.shutdown.wf(),
                unit <= n,
                n == self.shutdown@.slots.len(),
                self.shutdown@.signal == state.shutdown.signal,
                self.shutdown@.signal != Signal::Drained,
                forall|u: int| 0 <= u < unit ==> self.shutdown@.slots[u] == Slot::Running,
                forall|u: int| unit <= u < n ==> self.shutdown@.slots[u] == Slot::Vacant,
                guards@.len() == unit,
                forall|u: int| 0 <= u < unit ==> (#[trigger] guards@[u]).target() == u,
                self.components == old(self).components,
                self.conf == old(self).conf,
                self.outcomes == old(self).outcomes,
                self.history == old(self).history,
                self.phase == old(self).phase,
            decreases n - unit,
        {
            match self.shutdown.new_guard_for(unit) {
                Some(guard) => {
                    guards.push(guard);
                },
                None => {},
            }
            unit = unit + 1;
        }
        proof {
            assert(self.shutdown@.slots =~= Seq::new(n as nat, |u: int| Slot::Running));
        }
        self.phase = advance(self.phase, &mut self.history, Phase::Running);
        self.settle();
        proof {
            lemma_start_inv(state);
            assert(self@ == state.start());
        }
        Ok(guards)
    }

    /// Requests a shutdown, as an outside trigger does. Returns whether this
    /// request moved the signal: then the host tells every running unit.
    /// Every later request changes nothing. A request that comes before the
    /// start is kept, and the units are started with cancellation requested.
    pub fn cancel(&mut self) -> (moved: bool)
        requires
            old(self).wf(),
        ensures
            final(self).wf(),
            final(self).configuration() == old(self).configuration(),
            final(self)@ == old(self)@.cancel(),
            final(self).registry() == old(self).registry(),
            moved == (old(self)@.shutdown.signal == Signal::Active),
    {
        let ghost state = self@;
        let moved = self.shutdown.cancel();
        if self.phase != Phase::Idle {
            let target = phase_for(self.shutdown.signal());
            self.phase = advance(self.phase, &mut self.history, target);
        }
        proof {
            lemma_cancel_inv(state);
            assert(self@ == state.cancel());
        }
        moved
    }

    /// Records that the unit behind `guard` has returned with `result`, and
    /// says what the host has to do next. A failure requests cancellation for
    /// the others, which go on until they return by themselves. The last unit
    /// to return ends the drain. A report for a unit that is not running
    /// changes nothing.
    pub fn unit_returned(&mut self, guard: &Guard, result: Result<(), String>) -> (action: Action)
        requires
            old(self).wf(),
        ensures
            final(self).wf(),
            final(self).configuration() == old(self).configuration(),
            final(self)@ == old(self)@.unit_returned(guard.target() as int, failure_of(result)),
            final(self).registry() == old(self).registry(),
            action == action_between(old(self)@, final(self)@),
    {
        let ghost state = self@;
        let ghost failure = failure_of(result);
        let unit = guard.unit();
        let name = match self.components.name(unit) {
            Some(name) => name.clone(),
            None => {
                return self.pending();
            },
        };
        let was_running = self.shutdown.complete(guard);
        if !was_running {
            return self.pending();
        }
        let moved = match &result {
            Ok(_) => false,
            Err(_) => self.shutdown.cancel(),
        };
        self.outcomes.push(Outcome { unit, name, result });
        proof {
            assert(outcome_views(self.outcomes@) =~= state.outcomes.push(
                OutcomeModel { unit: unit as int, name: state.names[unit as int], failure },
            ));
            lemma_count_zero(state.shutdown.slots, Slot::Running);
        }
        self.settle();
        proof {
            lemma_unit_returned_inv(state, unit as int, failure);
            assert(self@ == state.unit_returned(unit as int, failure));
        }
        if self.phase == Phase::Stopped {
            Action::Finish
        } else if moved {
            Action::Broadcast
        } else {
            Action::Wait
        }
    }

    /// Takes one event from the host: moves the application to its next
    /// state and says what the host has to do next.
    pub fn step(&mut self, event: Event) -> (action: Action)
        requires
            old(self).wf(),
        ensures
            final(self).wf(),
            final(self).configuration() == old(self).configuration(),
            final(self)@ == after_event(old(self)@, event),
            final(self).registry() == old(self).registry(),
            action == action_between(old(self)@, final(self)@),
    {
        match event {
            Event::ShutdownRequested => {
                let moved = self.cancel();
                if self.phase == Phase::Stopped {
                    Action::Finish
                } else if moved {
                    Action::Broadcast
                } else {
                    Action::Wait
                }
            },
            Event::UnitReturned(guard, result) => self.unit_returned(&guard, result),
        }
    }

    /// What the host has to do when nothing has changed.
    fn pending(&self) -> (action: Action)
        ensures
            action == action_between(self@, self@),
    {
        if self.phase == Phase::Stopped {
            Action::Finish
        } else {
            Action::Wait
        }
    }

    /// The report on the run, once the application has stopped. Before that
    /// the drain is incomplete, and no report is given.
    pub fn report(&self) -> (result: Result<RunReport, BootError>)
        ensures
            self@.phase == Phase::Stopped ==> (result matches Ok(report) && report@
                == self@.report()),
            self@.phase != Phase::Stopped ==> result == Err::<RunReport, BootError>(
                BootError::DrainIncomplete,
            ),
    {
        if self.phase == Phase::Stopped {
            Ok(RunReport::collect(&self.outcomes))
        } else {
            Err(BootError::DrainIncomplete)
        }
    }
}

} // verus!
