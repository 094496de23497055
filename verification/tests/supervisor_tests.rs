use feretto::monitor::Fault;
use feretto::monitor::StopReason;
use feretto::monitor::WatchAction;
use feretto::monitor::WatchError;
use feretto::monitor::WatchEvent;
use feretto::pattern::Matcher;
use feretto::supervisor::WatchSupervisor;
use feretto::target::WatchTarget;

fn target(path: &str) -> WatchTarget {
    WatchTarget {
        path: path.to_string(),
        pattern: "ERROR".to_string(),
        event_name: format!("event:{}", path),
        options: String::new(),
    }
}

fn read(chunk: &str) -> WatchEvent {
    WatchEvent::Read { chunk: chunk.to_string(), at: 0 }
}

fn two_units() -> WatchSupervisor {
    WatchSupervisor::new(vec![target("a.log"), target("b.log")], Matcher::Substring)
}

#[test]
fn supervisor_has_one_unit_per_target() {
    let supervisor = two_units();
    assert_eq!(supervisor.len(), 2);
    assert_eq!(supervisor.live(), 2);
    assert_eq!(supervisor.target(0), Some(&target("a.log")));
    assert_eq!(supervisor.target(1), Some(&target("b.log")));
    assert_eq!(supervisor.target(2), None);
    assert_eq!(WatchSupervisor::new(vec![], Matcher::Regex).len(), 0);
}

#[test]
fn opened_unit_starts_to_wait() {
    let mut supervisor = two_units();
    assert_eq!(supervisor.open(0, Some(100)), WatchAction::Arm);
    assert_eq!(supervisor.deliver(0, WatchEvent::Changed), WatchAction::Drain { offset: 100 });
    assert_eq!(supervisor.open(0, Some(5)), WatchAction::Ignore);
    assert_eq!(supervisor.open(7, Some(5)), WatchAction::Ignore);
}

#[test]
fn unit_whose_file_cannot_be_opened_ends_alone() {
    let mut supervisor = two_units();
    assert_eq!(
        supervisor.open(0, None),
        WatchAction::Stop(StopReason::Failed(WatchError::Unopenable))
    );
    assert_eq!(supervisor.live(), 1);
    assert_eq!(supervisor.deliver(0, WatchEvent::Changed), WatchAction::Ignore);
    assert_eq!(supervisor.open(1, Some(0)), WatchAction::Arm);
    assert_eq!(supervisor.deliver(1, WatchEvent::Changed), WatchAction::Drain { offset: 0 });
    assert!(matches!(supervisor.deliver(1, read("ERROR\n")), WatchAction::Fire(_)));
}

#[test]
fn deleted_file_of_one_target_leaves_the_other_running() {
    let mut supervisor = two_units();
    assert_eq!(supervisor.open(0, Some(10)), WatchAction::Arm);
    assert_eq!(supervisor.open(1, Some(20)), WatchAction::Arm);
    // The file of the first target is deleted: its change is notified and
    // its reads fail from then on.
    assert_eq!(supervisor.deliver(0, WatchEvent::Changed), WatchAction::Drain { offset: 10 });
    assert_eq!(supervisor.deliver(0, WatchEvent::ReadFailed), WatchAction::Retry(Fault::Read));
    assert_eq!(supervisor.deliver(0, WatchEvent::WatchFailed), WatchAction::Retry(Fault::Watch));
    // The second target goes on detecting and dispatching.
    assert_eq!(supervisor.deliver(1, WatchEvent::Changed), WatchAction::Drain { offset: 20 });
    match supervisor.deliver(1, read("ERROR in b\n")) {
        WatchAction::Fire(m) => {
            assert_eq!(m.target, target("b.log"));
            assert_eq!(m.matched_text, "ERROR in b");
        }
        other => panic!("expected a dispatch, got {:?}", other),
    }
    assert_eq!(supervisor.deliver(1, WatchEvent::Dispatched { success: true }), WatchAction::Arm);
    assert_eq!(supervisor.deliver(1, WatchEvent::Changed), WatchAction::Drain { offset: 31 });
    assert_eq!(supervisor.live(), 2);
}

#[test]
fn cancelled_unit_ends_and_the_other_goes_on() {
    let mut supervisor = two_units();
    supervisor.open(0, Some(0));
    supervisor.open(1, Some(0));
    assert_eq!(supervisor.deliver(0, WatchEvent::Cancelled), WatchAction::Stop(StopReason::Cancelled));
    assert_eq!(supervisor.live(), 1);
    assert_eq!(supervisor.deliver(0, WatchEvent::Changed), WatchAction::Ignore);
    assert_eq!(supervisor.deliver(1, WatchEvent::Changed), WatchAction::Drain { offset: 0 });
    assert_eq!(supervisor.deliver(1, WatchEvent::Cancelled), WatchAction::Stop(StopReason::Cancelled));
    assert_eq!(supervisor.live(), 0);
}

#[test]
fn event_for_no_unit_changes_nothing() {
    let mut supervisor = two_units();
    supervisor.open(0, Some(3));
    assert_eq!(supervisor.deliver(2, WatchEvent::Changed), WatchAction::Ignore);
    assert_eq!(supervisor.deliver(1, WatchEvent::Changed), WatchAction::Ignore);
    assert_eq!(supervisor.deliver(0, WatchEvent::Changed), WatchAction::Drain { offset: 3 });
    assert_eq!(supervisor.live(), 2);
}
