use backend_supervisor::supervisor::{failure_warning, StartEvent, StartOutcome, Supervisor};

#[test]
fn new_supervisor_is_idle() {
    let sup: Supervisor<u32> = Supervisor::new();
    assert!(sup.handle.is_none());
}

#[test]
fn stop_on_idle_supervisor_is_noop() {
    let mut sup: Supervisor<u32> = Supervisor::new();
    assert_eq!(sup.stop(), None);
    assert!(sup.handle.is_none());
    assert_eq!(sup.stop(), None);
    assert!(sup.handle.is_none());
}

#[test]
fn successful_start_attaches_exactly_the_spawned_handle() {
    let mut sup: Supervisor<u32> = Supervisor::new();
    let outcome = sup.start(StartEvent::Spawned(7));
    assert_eq!(outcome, StartOutcome::Started);
    assert_eq!(sup.handle, Some(7));
}

#[test]
fn stop_after_start_detaches_then_is_noop() {
    let mut sup: Supervisor<u32> = Supervisor::new();
    sup.start(StartEvent::Spawned(41));
    assert_eq!(sup.stop(), Some(41));
    assert!(sup.handle.is_none());
    assert_eq!(sup.stop(), None);
    assert!(sup.handle.is_none());
}

#[test]
fn start_with_script_missing_stays_idle() {
    let mut sup: Supervisor<u32> = Supervisor::new();
    let outcome = sup.start(StartEvent::ScriptMissing);
    assert_eq!(outcome, StartOutcome::ScriptNotFound);
    assert!(sup.handle.is_none());
}

#[test]
fn start_with_spawn_failure_stays_idle() {
    let mut sup: Supervisor<u32> = Supervisor::new();
    let outcome = sup.start(StartEvent::SpawnFailed);
    assert_eq!(outcome, StartOutcome::SpawnFailure);
    assert!(sup.handle.is_none());
}

#[test]
fn successful_start_gets_no_warning() {
    assert_eq!(failure_warning(StartOutcome::Started), None);
}

#[test]
fn failed_starts_get_the_manual_launch_warning() {
    let expected = "warning: failed to spawn FastAPI backend. Launch manually with `python run_backend.py --reload`.";
    assert_eq!(failure_warning(StartOutcome::ScriptNotFound), Some(expected));
    assert_eq!(failure_warning(StartOutcome::SpawnFailure), Some(expected));
}
