//! The shutdown coordinator: one cancellation signal for all running units,
//! and the account of which units are still running.
//!
//! This is the sequential core of the protocol. A host that runs units
//! concurrently keeps one coordinator behind a lock, performs the broadcast
//! when `cancel` reports the transition, and polls `poll_all_drained` each
//! time a unit has returned.

use crate::tally::{
    count_of, lemma_count_bounded, lemma_count_push, lemma_count_update, lemma_count_zero,
};
use vstd::prelude::*;

verus! {

/// The cancellation signal. It only ever moves forward:
/// `Active`, then `CancellationRequested`, then `Drained`.
#[derive(Clone, Copy, Debug, PartialEq, Eq, Structural)]
pub enum Signal {
    Active,
    CancellationRequested,
    Drained,
}

impl Signal {
    /// The place of the signal on its one path.
    pub open spec fn rank(self) -> nat {
        match self {
            Signal::Active => 0,
            Signal::CancellationRequested => 1,
            Signal::Drained => 2,
        }
    }
}

/// What the coordinator knows of one unit's execution.
#[derive(Clone, Copy, Debug, PartialEq, Eq, Structural)]
pub enum Slot {
    /// No execution has been started.
    Vacant,
    /// An execution holds a guard and has not returned.
    Running,
    /// The execution has returned.
    Returned,
}

/// A cancellation handle for one unit. Copies are cheap, and all of them
/// observe the signal of the coordinator that issued the handle.
#[derive(Clone, Copy, Debug, PartialEq, Eq, Structural)]
pub struct Guard {
    unit: usize,
}

impl Guard {
    /// The unit that the handle was issued for.
    pub closed spec fn target(&self) -> usize {
        self.unit
    }

    /// The unit that the handle was issued for.
    pub fn unit(&self) -> (unit: usize)
        ensures
            unit == self.target(),
    {
        self.unit
    }
}

/// The state of a coordinator: the signal, and one slot for each unit.
pub struct ShutdownState {
    pub signal: Signal,
    pub slots: Seq<Slot>,
}

impl ShutdownState {
    /// The number of executions that have not returned.
    pub open spec fn outstanding(self) -> nat {
        count_of(self.slots, Slot::Running)
    }

    /// Whether cancellation has been requested.
    pub open spec fn is_cancelled(self) -> bool {
        self.signal != Signal::Active
    }

    /// The state after a request to cancel: an active signal becomes
    /// requested, and any other state is left alone.
    pub open spec fn cancel(self) -> ShutdownState {
        if self.signal == Signal::Active {
            ShutdownState { signal: Signal::CancellationRequested, slots: self.slots }
        } else {
            self
        }
    }

    /// Whether a guard can be issued for `unit`: the unit has a vacant slot
    /// and the coordinator has not drained.
    pub open spec fn can_issue(self, unit: int) -> bool {
        &&& 0 <= unit < self.slots.len()
        &&& self.slots[unit] == Slot::Vacant
        &&& self.signal != Signal::Drained
    }

    /// The state after a guard was asked for `unit`.
    pub open spec fn issue(self, unit: int) -> ShutdownState {
        if self.can_issue(unit) {
            ShutdownState { signal: self.signal, slots: self.slots.update(unit, Slot::Running) }
        } else {
            self
        }
    }

    /// Whether an execution of `unit` is running.
    pub open spec fn is_live(self, unit: int) -> bool {
        0 <= unit < self.slots.len() && self.slots[unit] == Slot::Running
    }

    /// The state after `unit`'s execution reported that it has returned.
    pub open spec fn complete(self, unit: int) -> ShutdownState {
        if self.is_live(unit) {
            ShutdownState { signal: self.signal, slots: self.slots.update(unit, Slot::Returned) }
        } else {
            self
        }
    }

    /// The state after a poll for the end of the drain: with no execution
    /// outstanding the signal is `Drained`, reached by way of a cancellation
    /// where none had been requested; otherwise nothing changes.
    pub open spec fn drain(self) -> ShutdownState {
        if self.outstanding() == 0 {
            ShutdownState { signal: Signal::Drained, slots: self.cancel().slots }
        } else {
            self
        }
    }

    /// The state with one more unit, not yet started.
    pub open spec fn with_unit(self) -> ShutdownState {
        ShutdownState { signal: self.signal, slots: self.slots.push(Slot::Vacant) }
    }
}

/// The shutdown coordinator.
pub struct Coordinator {
    signal: Signal,
    slots: Vec<Slot>,
    outstanding: usize,
}

impl View for Coordinator {
    type V = ShutdownState;

    closed spec fn view(&self) -> ShutdownState {
        ShutdownState { signal: self.signal, slots: self.slots@ }
    }
}

impl Coordinator {
    /// The invariant of the type: the running executions are counted right.
    pub closed spec fn wf(&self) -> bool {
        self.outstanding == count_of(self.slots@, Slot::Running)
    }

    /// A fresh coordinator: the signal is active and no unit is known.
    pub fn new() -> (coordinator: Self)
        ensures
            coordinator.wf(),
            coordinator@.signal == Signal::Active,
            coordinator@.slots == Seq::<Slot>::empty(),
    {
        Coordinator { signal: Signal::Active, slots: Vec::new(), outstanding: 0 }
    }

    /// Makes room for one more unit and returns the unit's number.
    pub fn add_unit(&mut self) -> (unit: usize)
        requires
            old(self).wf(),
        ensures
            final(self).wf(),
            final(self)@ == old(self)@.with_unit(),
            unit == old(self)@.slots.len(),
    {
        let unit = self.slots.len();
        proof {
            lemma_count_push(self.slots@, Slot::Vacant, Slot::Running);
        }
        self.slots.push(Slot::Vacant);
        unit
    }

    /// The number of units that the coordinator has room for.
    pub fn units(&self) -> (n: usize)
        ensures
            n == self@.slots.len(),
    {
        self.slots.len()
    }

    /// The signal as it stands.
    pub fn signal(&self) -> (signal: Signal)
        ensures
            signal == self@.signal,
    {
        self.signal
    }

    /// Whether cancellation has been requested. Every holder of a guard sees
    /// the same answer.
    pub fn is_cancelled(&self) -> (cancelled: bool)
        ensures
            cancelled == self@.is_cancelled(),
    {
        match self.signal {
            Signal::Active => false,
            _ => true,
        }
    }

    /// Whether every execution has returned and the drain has been observed.
    pub fn is_drained(&self) -> (drained: bool)
        ensures
            drained == (self@.signal == Signal::Drained),
    {
        match self.signal {
            Signal::Drained => true,
            _ => false,
        }
    }

    /// The number of executions that have not returned.
    pub fn outstanding(&self) -> (n: usize)
        requires
            self.wf(),
        ensures
            n == self@.outstanding(),
    {
        self.outstanding
    }

    /// What the coordinator knows of `unit`; `None` for a unit it has no room
    /// for.
    pub fn slot(&self, unit: usize) -> (slot: Option<Slot>)
        ensures
            slot == (if unit < self@.slots.len() {
                Some(self@.slots[unit as int])
            } else {
                None
            }),
    {
        if unit < self.slots.len() {
            Some(self.slots[unit])
        } else {
            None
        }
    }

    /// Requests cancellation. The first request moves the signal from
    /// `Active` to `CancellationRequested` and returns `true`; every later one
    /// changes nothing and returns `false`.
    pub fn cancel(&mut self) -> (moved: bool)
        requires
            old(self).wf(),
        ensures
            final(self).wf(),
            final(self)@ == old(self)@.cancel(),
            moved == (old(self)@.signal == Signal::Active),
    {
        match self.signal {
            Signal::Active => {
                self.signal = Signal::CancellationRequested;
                true
            },
            _ => false,
        }
    }

    /// Issues the cancellation handle for `unit` and counts its execution as
    /// running. `None`, and no change, where the unit is unknown, was started
    /// before, or the coordinator has drained.
    pub fn new_guard_for(&mut self, unit: usize) -> (guard: Option<Guard>)
        requires
            old(self).wf(),
        ensures
            final(self).wf(),
            final(self)@ == old(self)@.issue(unit as int),
            guard is Some <==> old(self)@.can_issue(unit as int),
            guard matches Some(g) ==> g.target() == unit,
    {
        if unit >= self.slots.len() {
            return None;
        }
        let vacant = match self.slots[unit] {
            Slot::Vacant => true,
            _ => false,
        };
        if !vacant || self.is_drained() {
            return None;
        }
        proof {
            lemma_count_update(self.slots@, unit as int, Slot::Running, Slot::Running);
            lemma_count_bounded(self.slots@.update(unit as int, Slot::Running), Slot::Running);
        }
        self.slots.set(unit, Slot::Running);
        self.outstanding = self.outstanding + 1;
        Some(Guard { unit })
    }

    /// Records that the execution behind `guard` has returned. Returns whether
    /// it was running; a second report for the same unit changes nothing.
    pub fn complete(&mut self, guard: &Guard) -> (was_running: bool)
        requires
            old(self).wf(),
        ensures
            final(self).wf(),
            final(self)@ == old(self)@.complete(guard.target() as int),
            was_running == old(self)@.is_live(guard.target() as int),
    {
        let unit = guard.unit;
        if unit >= self.slots.len() {
            return false;
        }
        let running = match self.slots[unit] {
            Slot::Running => true,
            _ => false,
        };
        if !running {
            return false;
        }
        proof {
            lemma_count_update(self.slots@, unit as int, Slot::Returned, Slot::Running);
        }
        self.slots.set(unit, Slot::Returned);
        self.outstanding = self.outstanding - 1;
        true
    }

    /// The decision behind waiting for the drain: with no execution
    /// outstanding the coordinator drains, requesting cancellation first if
    /// nobody had, and the wait is over; otherwise nothing changes and the
    /// caller waits on. With no unit at all the wait is over at once.
    pub fn poll_all_drained(&mut self) -> (drained: bool)
        requires
            old(self).wf(),
        ensures
            final(self).wf(),
            final(self)@ == old(self)@.drain(),
            drained == (old(self)@.outstanding() == 0),
    {
        if self.outstanding != 0 {
            return false;
        }
        let _ = self.cancel();
        self.signal = Signal::Drained;
        true
    }
}

/// The state after `n` requests to cancel, one after another.
pub open spec fn cancel_times(s: ShutdownState, n: nat) -> ShutdownState
    decreases n,
{
    if n == 0 {
        s
    } else {
        cancel_times(s, (n - 1) as nat).cancel()
    }
}

/// How many of `n` requests to cancel, one after another, moved the signal
/// from `Active` to `CancellationRequested`.
pub open spec fn cancel_transitions(s: ShutdownState, n: nat) -> nat
    decreases n,
{
    if n == 0 {
        0
    } else {
        cancel_transitions(s, (n - 1) as nat) + if cancel_times(s, (n - 1) as nat).signal
            == Signal::Active {
            1nat
        } else {
            0nat
        }
    }
}

/// Cancelling is idempotent. However many requests arrive, and in whatever
/// order the lock lets them in, the state is that after the first one, and
/// exactly one of them moved the signal if it was active, and none otherwise.
pub proof fn lemma_cancel_is_idempotent(s: ShutdownState, n: nat)
    ensures
        s.cancel().cancel() == s.cancel(),
        s.cancel().is_cancelled(),
        n > 0 ==> cancel_times(s, n) == s.cancel(),
        cancel_transitions(s, n) == (if n > 0 && s.signal == Signal::Active {
            1nat
        } else {
            0nat
        }),
    decreases n,
{
    if n > 0 {
        lemma_cancel_is_idempotent(s, (n - 1) as nat);
    }
}

/// The signal never goes back: whatever is done to a coordinator, the signal
/// stays where it is or moves forward on its one path.
pub proof fn lemma_signal_only_advances(s: ShutdownState, unit: int)
    ensures
        s.cancel().signal.rank() >= s.signal.rank(),
        s.issue(unit).signal == s.signal,
        s.complete(unit).signal == s.signal,
        s.with_unit().signal == s.signal,
        s.drain().signal.rank() >= s.signal.rank(),
        s.cancel().signal.rank() <= s.signal.rank() + 1,
{
}

/// A drain is observed only when no execution is outstanding, and then none
/// of the slots is running.
pub proof fn lemma_drained_means_none_running(s: ShutdownState)
    ensures
        s.drain().signal == Signal::Drained <==> s.signal == Signal::Drained || s.outstanding() == 0,
        s.outstanding() == 0 ==> forall|u: int| 0 <= u < s.slots.len() ==> s.slots[u] != Slot::Running,
{
    lemma_count_zero(s.slots, Slot::Running);
}

} // verus!
