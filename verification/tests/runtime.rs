use bamboo::app::{Action, App, Event};
use bamboo::lifecycle::Phase;
use bamboo::plugin::Plugin;
use bamboo::error::BootError;
use bamboo::report::RunReport;
use std::sync::Arc;

struct Config {}

impl Config {
    fn new() -> Self {
        Self {}
    }
}

struct Unit {
    label: &'static str,
}

impl Plugin for Unit {
    fn name(&self) -> &str {
        self.label
    }
}

fn app_with(labels: &[&'static str]) -> App<Config, Unit> {
    let mut app = App::new(Arc::new(Config::new()));
    for label in labels {
        app.with(Unit { label }).unwrap();
    }
    app
}

#[test]
fn app_it_works() {
    let app: App<Config, Unit> = App::new(Arc::new(Config::new()));
    assert_eq!(app.name(), "App");
}

#[test]
fn a_new_app_is_idle_and_empty() {
    let app: App<Config, Unit> = App::new(Arc::new(Config::new()));
    assert_eq!(app.phase(), Phase::Idle);
    assert_eq!(app.history(), &vec![Phase::Idle]);
    assert_eq!(app.components().len(), 0);
    assert_eq!(app.outstanding(), 0);
    assert!(!app.is_cancelled());
    assert_eq!(app.report(), Err(BootError::DrainIncomplete));
}

#[test]
fn run_with_no_units_stops_at_once_with_an_empty_report() {
    let mut app = app_with(&[]);
    let guards = app.start().unwrap();
    assert!(guards.is_empty());
    assert_eq!(app.phase(), Phase::Stopped);
    assert_eq!(
        app.history(),
        &vec![Phase::Idle, Phase::Running, Phase::Draining, Phase::Stopped]
    );
    let report = app.report().unwrap();
    assert_eq!(
        report,
        RunReport { total: 0, succeeded: vec![], failed: vec![] }
    );
    assert!(report.is_success());
}

#[test]
fn one_failure_cancels_the_rest_and_all_are_reported() {
    let mut app = app_with(&["A", "B", "C"]);
    let guards = app.start().unwrap();
    assert_eq!(guards.len(), 3);
    assert_eq!(guards[0].unit(), 0);
    assert_eq!(guards[1].unit(), 1);
    assert_eq!(guards[2].unit(), 2);
    assert_eq!(app.phase(), Phase::Running);
    assert_eq!(app.outstanding(), 3);

    // A succeeds quickly.
    assert_eq!(app.unit_returned(&guards[0], Ok(())), Action::Wait);
    assert!(!app.is_cancelled());
    assert_eq!(app.phase(), Phase::Running);

    // C fails at once: the others are told to stop, and B is still running.
    assert_eq!(
        app.unit_returned(&guards[2], Err("boom".to_string())),
        Action::Broadcast
    );
    assert!(app.is_cancelled());
    assert_eq!(app.phase(), Phase::Draining);
    assert_eq!(app.outstanding(), 1);
    assert_eq!(app.report(), Err(BootError::DrainIncomplete));

    // B has seen the cancellation, and returns.
    assert_eq!(app.unit_returned(&guards[1], Ok(())), Action::Finish);
    assert_eq!(app.phase(), Phase::Stopped);
    assert_eq!(app.outstanding(), 0);

    let report = app.report().unwrap();
    assert_eq!(
        report,
        RunReport {
            total: 3,
            succeeded: vec!["A".to_string(), "B".to_string()],
            failed: vec![("C".to_string(), "boom".to_string())],
        }
    );
    assert!(!report.is_success());
    assert_eq!(
        app.history(),
        &vec![Phase::Idle, Phase::Running, Phase::Draining, Phase::Stopped]
    );
}

#[test]
fn run_stops_only_when_every_unit_has_returned() {
    for n in 0..6usize {
        let labels = ["u0", "u1", "u2", "u3", "u4"];
        let mut app = app_with(&labels[..n.min(5)]);
        let n = n.min(5);
        let guards = app.start().unwrap();
        assert_eq!(guards.len(), n);
        for (done, guard) in guards.iter().enumerate() {
            assert_ne!(app.phase(), Phase::Stopped);
            assert_eq!(app.report(), Err(BootError::DrainIncomplete));
            let action = app.unit_returned(guard, Ok(()));
            if done + 1 == n {
                assert_eq!(action, Action::Finish);
            } else {
                assert_eq!(action, Action::Wait);
            }
        }
        assert_eq!(app.phase(), Phase::Stopped);
        let report = app.report().unwrap();
        assert_eq!(report.total, n);
        assert_eq!(report.succeeded.len(), n);
        assert!(report.failed.is_empty());
    }
}

#[test]
fn units_that_return_by_themselves_end_the_run_without_a_trigger() {
    let mut app = app_with(&["A", "B"]);
    let guards = app.start().unwrap();
    assert_eq!(app.unit_returned(&guards[1], Ok(())), Action::Wait);
    assert_eq!(app.unit_returned(&guards[0], Ok(())), Action::Finish);
    assert_eq!(
        app.history(),
        &vec![Phase::Idle, Phase::Running, Phase::Draining, Phase::Stopped]
    );
    let report = app.report().unwrap();
    assert_eq!(report.succeeded, vec!["B".to_string(), "A".to_string()]);
}

#[test]
fn outside_trigger_cancels_once() {
    let mut app = app_with(&["A", "B"]);
    let guards = app.start().unwrap();
    assert!(app.cancel());
    assert_eq!(app.phase(), Phase::Draining);
    for _ in 0..5 {
        assert!(!app.cancel());
        assert_eq!(app.phase(), Phase::Draining);
    }
    assert_eq!(app.unit_returned(&guards[0], Ok(())), Action::Wait);
    assert_eq!(app.unit_returned(&guards[1], Err("late".to_string())), Action::Finish);
    assert!(!app.cancel());
    assert_eq!(app.phase(), Phase::Stopped);
    let report = app.report().unwrap();
    assert_eq!(report.total, 2);
    assert_eq!(report.succeeded, vec!["A".to_string()]);
    assert_eq!(report.failed, vec![("B".to_string(), "late".to_string())]);
}

#[test]
fn a_trigger_before_the_start_is_kept() {
    let mut app = app_with(&["A"]);
    assert!(app.cancel());
    assert_eq!(app.phase(), Phase::Idle);
    assert!(app.is_cancelled());
    let guards = app.start().unwrap();
    assert_eq!(guards.len(), 1);
    assert_eq!(app.phase(), Phase::Draining);
    assert_eq!(app.history(), &vec![Phase::Idle, Phase::Running, Phase::Draining]);
    assert_eq!(app.unit_returned(&guards[0], Ok(())), Action::Finish);
    assert_eq!(app.phase(), Phase::Stopped);
}

#[test]
fn a_second_report_for_a_unit_changes_nothing() {
    let mut app = app_with(&["A", "B"]);
    let guards = app.start().unwrap();
    assert_eq!(app.unit_returned(&guards[0], Ok(())), Action::Wait);
    assert_eq!(app.unit_returned(&guards[0], Err("again".to_string())), Action::Wait);
    assert!(!app.is_cancelled());
    assert_eq!(app.outstanding(), 1);
    assert_eq!(app.outcomes().len(), 1);
    assert_eq!(app.unit_returned(&guards[1], Ok(())), Action::Finish);
    assert_eq!(app.unit_returned(&guards[1], Ok(())), Action::Finish);
    let report = app.report().unwrap();
    assert_eq!(report.total, 2);
    assert!(report.failed.is_empty());
}

#[test]
fn a_report_before_the_start_changes_nothing() {
    let mut first = app_with(&["A"]);
    let guards = first.start().unwrap();
    let mut second = app_with(&["A"]);
    assert_eq!(second.unit_returned(&guards[0], Ok(())), Action::Wait);
    assert_eq!(second.phase(), Phase::Idle);
    assert!(second.outcomes().is_empty());
}

#[test]
fn start_is_not_reentrant() {
    let mut app = app_with(&["A"]);
    let guards = app.start().unwrap();
    assert_eq!(app.start(), Err(BootError::AlreadyStarted));
    assert_eq!(app.phase(), Phase::Running);
    assert_eq!(app.outstanding(), 1);
    assert!(app.cancel());
    assert_eq!(app.start(), Err(BootError::AlreadyStarted));
    assert_eq!(app.unit_returned(&guards[0], Ok(())), Action::Finish);
    assert_eq!(app.start(), Err(BootError::AlreadyStarted));
    assert_eq!(app.phase(), Phase::Stopped);
}

#[test]
fn duplicate_name_is_refused_by_the_app() {
    let mut app = app_with(&["A"]);
    assert_eq!(
        app.with(Unit { label: "A" }),
        Err(BootError::DuplicateComponent("A".to_string()))
    );
    assert_eq!(app.components().len(), 1);
    assert_eq!(
        app.register("A".to_string(), Unit { label: "other" }),
        Err(BootError::DuplicateComponent("A".to_string()))
    );
    assert_eq!(app.components().len(), 1);
    assert_eq!(app.components().get("A").map(|u| u.label), Some("A"));
    assert!(app.register("B".to_string(), Unit { label: "other" }).is_ok());
    assert_eq!(app.components().len(), 2);
    assert_eq!(app.components().get("B").map(|u| u.label), Some("other"));
}

#[test]
fn the_registry_is_frozen_once_started() {
    let mut app = app_with(&["A"]);
    let _guards = app.start().unwrap();
    assert_eq!(app.with(Unit { label: "B" }), Err(BootError::RegistryFrozen));
    assert_eq!(
        app.register("A".to_string(), Unit { label: "A" }),
        Err(BootError::RegistryFrozen)
    );
    assert_eq!(app.components().len(), 1);
}

#[test]
fn the_last_unit_failing_finishes_without_a_broadcast() {
    let mut app = app_with(&["A"]);
    let guards = app.start().unwrap();
    assert_eq!(app.unit_returned(&guards[0], Err("boom".to_string())), Action::Finish);
    assert!(app.is_cancelled());
    let report = app.report().unwrap();
    assert_eq!(report.total, 1);
    assert_eq!(report.failed, vec![("A".to_string(), "boom".to_string())]);
}

#[test]
fn events_are_taken_one_at_a_time() {
    let mut app = app_with(&["A", "B", "C"]);
    assert_eq!(app.step(Event::UnitReturned(bamboo_guard(&mut app_with(&["x"])), Ok(()))), Action::Wait);
    assert_eq!(app.phase(), Phase::Idle);
    let guards = app.start().unwrap();
    assert_eq!(app.step(Event::UnitReturned(guards[0], Ok(()))), Action::Wait);
    assert_eq!(app.step(Event::ShutdownRequested), Action::Broadcast);
    assert_eq!(app.phase(), Phase::Draining);
    assert_eq!(app.step(Event::ShutdownRequested), Action::Wait);
    assert_eq!(
        app.step(Event::UnitReturned(guards[1], Err("stopped halfway".to_string()))),
        Action::Wait
    );
    assert_eq!(app.step(Event::UnitReturned(guards[2], Ok(()))), Action::Finish);
    assert_eq!(app.step(Event::ShutdownRequested), Action::Finish);
    let report = app.report().unwrap();
    assert_eq!(report.total, 3);
    assert_eq!(report.succeeded, vec!["A".to_string(), "C".to_string()]);
    assert_eq!(
        report.failed,
        vec![("B".to_string(), "stopped halfway".to_string())]
    );
}

fn bamboo_guard(other: &mut App<Config, Unit>) -> bamboo::shutdown::Guard {
    other.start().unwrap()[0]
}

#[test]
fn an_app_can_be_made_from_a_registry() {
    let mut registry = bamboo::registry::Registry::new();
    registry.register("A".to_string(), Unit { label: "A" }).unwrap();
    registry.register("B".to_string(), Unit { label: "B" }).unwrap();
    let mut app = App::with_registry(Arc::new(Config::new()), registry);
    assert_eq!(app.phase(), Phase::Idle);
    assert_eq!(app.components().len(), 2);
    app.with(Unit { label: "C" }).unwrap();
    let guards = app.start().unwrap();
    assert_eq!(guards.len(), 3);
    assert_eq!(app.outstanding(), 3);
    for guard in &guards {
        app.unit_returned(guard, Ok(()));
    }
    let report = app.report().unwrap();
    assert_eq!(report.total, 3);
    assert_eq!(
        report.succeeded,
        vec!["A".to_string(), "B".to_string(), "C".to_string()]
    );
}
