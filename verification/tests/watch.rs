use release_watch::pipeline::{advance, closing_line, exit_code, pipeline_end, PipelineEnd};
use release_watch::status::{PodSnapshot, PodStatusFields};
use release_watch::watch::{
    classify, FaultClass, SessionState, StepOutcome, WatchCommand, WatchController, WatchFault,
    WatchSignal, SESSION_TIMEOUT_SECS,
};

const SELECTOR: &str = "app.kubernetes.io/instance=checkout-svc";

fn snap(name: &str, phase: &str, version: &str) -> PodSnapshot {
    PodSnapshot {
        name: Some(name.to_string()),
        generate_name: None,
        resource_version: if version.is_empty() { None } else { Some(version.to_string()) },
        status: Some(PodStatusFields { phase: Some(phase.to_string()), reason: None }),
    }
}

fn streaming(cursor: &str) -> WatchController {
    WatchController {
        selector: SELECTOR.to_string(),
        timeout_secs: 9,
        state: SessionState::Streaming { cursor: cursor.to_string() },
    }
}

fn open_from(cursor: &str) -> WatchCommand {
    WatchCommand::Open {
        selector: SELECTOR.to_string(),
        cursor: cursor.to_string(),
        timeout_secs: 9,
    }
}

#[test]
fn sessions_are_bounded_to_nine_seconds() {
    assert_eq!(SESSION_TIMEOUT_SECS, 9);
    let mut c = WatchController::new(SELECTOR.to_string(), SESSION_TIMEOUT_SECS);
    c.step(WatchSignal::Listed { items: Vec::new(), cursor: "1".to_string() });
    assert_eq!(
        c.next_command(),
        WatchCommand::Open { selector: SELECTOR.to_string(), cursor: "1".to_string(), timeout_secs: 9 }
    );
}

#[test]
fn new_controller_lists_first() {
    let c = WatchController::new(SELECTOR.to_string(), 9);
    assert_eq!(c.state, SessionState::NeedsSync);
    assert_eq!(c.timeout_secs, 9);
    assert_eq!(c.next_command(), WatchCommand::List { selector: SELECTOR.to_string() });
}

#[test]
fn listing_delivers_the_current_pods_and_opens_a_session() {
    let mut c = WatchController::new(SELECTOR.to_string(), 9);
    let items = vec![snap("web-0", "Running", "10"), snap("web-1", "Pending", "11")];
    let step = c.step(WatchSignal::Listed { items: items.clone(), cursor: "12".to_string() });
    assert_eq!(step.applied, items);
    assert_eq!(step.outcome, StepOutcome::Continue);
    assert_eq!(c.state, SessionState::Resuming { cursor: "12".to_string() });
    assert_eq!(c.next_command(), open_from("12"));
    let step = c.step(WatchSignal::Opened);
    assert!(step.applied.is_empty());
    assert_eq!(c.state, SessionState::Streaming { cursor: "12".to_string() });
    assert_eq!(c.next_command(), WatchCommand::Await);
}

#[test]
fn listing_without_a_cursor_is_retried() {
    let mut c = WatchController::new(SELECTOR.to_string(), 9);
    let step = c.step(WatchSignal::Listed {
        items: vec![snap("web-0", "Running", "10")],
        cursor: String::new(),
    });
    assert!(step.applied.is_empty());
    assert_eq!(step.outcome, StepOutcome::Continue);
    assert_eq!(c.state, SessionState::NeedsSync);
}

#[test]
fn added_and_modified_are_applied() {
    let mut c = streaming("12");
    let step = c.step(WatchSignal::Added { pod: snap("web-2", "Pending", "13") });
    assert_eq!(step.applied, vec![snap("web-2", "Pending", "13")]);
    assert_eq!(c.state, SessionState::Streaming { cursor: "13".to_string() });
    let step = c.step(WatchSignal::Modified { pod: snap("web-2", "Running", "14") });
    assert_eq!(step.applied, vec![snap("web-2", "Running", "14")]);
    assert_eq!(step.outcome, StepOutcome::Continue);
    assert_eq!(c.state, SessionState::Streaming { cursor: "14".to_string() });
}

#[test]
fn deleted_and_bookmark_move_the_cursor_only() {
    let mut c = streaming("12");
    let step = c.step(WatchSignal::Deleted { pod: snap("web-2", "Running", "15") });
    assert!(step.applied.is_empty());
    assert_eq!(c.state, SessionState::Streaming { cursor: "15".to_string() });
    let step = c.step(WatchSignal::Bookmark { cursor: "20".to_string() });
    assert!(step.applied.is_empty());
    assert_eq!(step.outcome, StepOutcome::Continue);
    assert_eq!(c.state, SessionState::Streaming { cursor: "20".to_string() });
}

#[test]
fn object_without_version_forces_a_resync() {
    let mut c = streaming("12");
    let step = c.step(WatchSignal::Modified { pod: snap("web-2", "Failed", "") });
    assert!(step.applied.is_empty());
    assert_eq!(step.outcome, StepOutcome::Continue);
    assert_eq!(c.state, SessionState::NeedsSync);
    let mut c = streaming("12");
    let mut pod = snap("web-2", "Failed", "");
    pod.resource_version = Some(String::new());
    let step = c.step(WatchSignal::Added { pod });
    assert!(step.applied.is_empty());
    assert_eq!(c.state, SessionState::NeedsSync);
}

#[test]
fn session_timeout_reopens_with_same_selector() {
    let mut c = streaming("12");
    let step = c.step(WatchSignal::Added { pod: snap("web-0", "Running", "13") });
    assert_eq!(step.applied.len(), 1);
    let step = c.step(WatchSignal::SessionEnded);
    assert!(step.applied.is_empty());
    assert_eq!(step.outcome, StepOutcome::Continue);
    assert_eq!(c.selector, SELECTOR);
    assert_eq!(c.next_command(), open_from("13"));
    c.step(WatchSignal::Opened);
    assert_eq!(c.next_command(), WatchCommand::Await);
    let step = c.step(WatchSignal::Modified { pod: snap("web-0", "Failed", "17") });
    assert_eq!(step.applied, vec![snap("web-0", "Failed", "17")]);
    assert_eq!(c.state, SessionState::Streaming { cursor: "17".to_string() });
}

#[test]
fn transient_fault_reopens_from_the_last_cursor() {
    let mut c = streaming("12");
    let step = c.step(WatchSignal::Fault { fault: WatchFault::Transport });
    assert!(step.applied.is_empty());
    assert_eq!(step.outcome, StepOutcome::Continue);
    assert_eq!(c.next_command(), open_from("12"));
    let step = c.step(WatchSignal::Fault { fault: WatchFault::Status { code: 503 } });
    assert_eq!(step.outcome, StepOutcome::Continue);
    assert_eq!(c.next_command(), open_from("12"));
}

#[test]
fn expired_cursor_falls_back_to_a_listing() {
    let mut c = streaming("12");
    let step = c.step(WatchSignal::Fault { fault: WatchFault::Status { code: 410 } });
    assert!(step.applied.is_empty());
    assert_eq!(step.outcome, StepOutcome::Continue);
    assert_eq!(c.state, SessionState::NeedsSync);
    assert_eq!(c.next_command(), WatchCommand::List { selector: SELECTOR.to_string() });
    let items = vec![snap("web-0", "Failed", "30")];
    let step = c.step(WatchSignal::Listed { items: items.clone(), cursor: "31".to_string() });
    assert_eq!(step.applied, items);
    assert_eq!(c.next_command(), open_from("31"));
}

#[test]
fn terminal_fault_surfaces() {
    for code in [400u16, 401, 403] {
        let mut c = streaming("12");
        let fault = WatchFault::Status { code };
        let step = c.step(WatchSignal::Fault { fault });
        assert_eq!(step.outcome, StepOutcome::Failed { fault });
        assert!(step.applied.is_empty());
        assert_eq!(c.state, SessionState::Closed);
        assert_eq!(c.next_command(), WatchCommand::Halt);
        assert_eq!(pipeline_end(step.outcome), Some(PipelineEnd::WatchFailed { fault }));
    }
}

#[test]
fn terminal_fault_surfaces_before_any_session() {
    let mut c = WatchController::new("not a selector".to_string(), 9);
    let fault = WatchFault::Status { code: 400 };
    let step = c.step(WatchSignal::Fault { fault });
    assert_eq!(step.outcome, StepOutcome::Failed { fault });
    assert_eq!(c.state, SessionState::Closed);
}

#[test]
fn cancelling_stops_at_once() {
    let mut c = streaming("12");
    let turn = advance(&mut c, WatchSignal::Cancelled);
    assert!(turn.observations.is_empty());
    assert_eq!(turn.outcome, StepOutcome::Stopped);
    assert_eq!(turn.next, WatchCommand::Halt);
    assert_eq!(c.state, SessionState::Closed);
    assert_eq!(pipeline_end(turn.outcome), Some(PipelineEnd::Done));
}

#[test]
fn closed_watch_delivers_nothing_more() {
    let mut c = streaming("12");
    c.step(WatchSignal::Cancelled);
    let step = c.step(WatchSignal::Added { pod: snap("web-0", "Failed", "13") });
    assert!(step.applied.is_empty());
    assert_eq!(step.outcome, StepOutcome::Stopped);
    let step = c.step(WatchSignal::Listed {
        items: vec![snap("web-0", "Failed", "13")],
        cursor: "14".to_string(),
    });
    assert!(step.applied.is_empty());
    let step = c.step(WatchSignal::Fault { fault: WatchFault::Status { code: 403 } });
    assert_eq!(step.outcome, StepOutcome::Stopped);
    assert_eq!(c.state, SessionState::Closed);
}

#[test]
fn signals_out_of_place_change_nothing() {
    let mut c = WatchController::new(SELECTOR.to_string(), 9);
    let step = c.step(WatchSignal::Added { pod: snap("web-0", "Failed", "13") });
    assert!(step.applied.is_empty());
    assert_eq!(c.state, SessionState::NeedsSync);
    c.step(WatchSignal::Opened);
    assert_eq!(c.state, SessionState::NeedsSync);
    c.step(WatchSignal::SessionEnded);
    assert_eq!(c.state, SessionState::NeedsSync);
    let mut c = streaming("12");
    let step = c.step(WatchSignal::Listed {
        items: vec![snap("web-0", "Failed", "13")],
        cursor: "14".to_string(),
    });
    assert!(step.applied.is_empty());
    assert_eq!(c.state, SessionState::Streaming { cursor: "12".to_string() });
}

#[test]
fn faults_are_classified() {
    assert_eq!(classify(WatchFault::Transport), FaultClass::Transient);
    assert_eq!(classify(WatchFault::Status { code: 410 }), FaultClass::CursorExpired);
    assert_eq!(classify(WatchFault::Status { code: 400 }), FaultClass::Terminal);
    assert_eq!(classify(WatchFault::Status { code: 401 }), FaultClass::Terminal);
    assert_eq!(classify(WatchFault::Status { code: 403 }), FaultClass::Terminal);
    assert_eq!(classify(WatchFault::Status { code: 404 }), FaultClass::Transient);
    assert_eq!(classify(WatchFault::Status { code: 429 }), FaultClass::Transient);
    assert_eq!(classify(WatchFault::Status { code: 500 }), FaultClass::Transient);
    assert_eq!(classify(WatchFault::Status { code: 0 }), FaultClass::Transient);
}

#[test]
fn state_transitions_without_a_controller() {
    let s = SessionState::Streaming { cursor: "5".to_string() };
    assert_eq!(s.duplicate(), s);
    assert!(!s.is_closed());
    assert!(SessionState::Closed.is_closed());
    assert_eq!(s.after(&WatchSignal::SessionEnded), SessionState::Resuming { cursor: "5".to_string() });
    assert_eq!(s.outcome(&WatchSignal::SessionEnded), StepOutcome::Continue);
    assert_eq!(
        s.deliver(WatchSignal::Added { pod: snap("a", "Running", "6") }),
        vec![snap("a", "Running", "6")]
    );
}

#[test]
fn a_turn_observes_every_applied_event() {
    let mut c = WatchController::new(SELECTOR.to_string(), 9);
    let turn = advance(
        &mut c,
        WatchSignal::Listed {
            items: vec![snap("web-0", "Running", "10"), snap("web-1", "Pending", "11")],
            cursor: "12".to_string(),
        },
    );
    assert_eq!(turn.observations.len(), 2);
    assert_eq!(turn.observations[0].log_line, "POD: web-0, status: \"Running\"");
    assert!(turn.observations[0].alert.is_none());
    assert_eq!(turn.observations[1].log_line, "POD: web-1, status: \"Pending\"");
    let alert = turn.observations[1].alert.clone().unwrap();
    assert_eq!(alert.title, "Pod web-1");
    assert_eq!(alert.body, "Is in non 'Running' phase: \"Pending\"");
    assert_eq!(turn.outcome, StepOutcome::Continue);
    assert_eq!(turn.next, open_from("12"));
}

#[test]
fn timeout_mid_stream_alerts_once_per_unhealthy_event() {
    let mut c = streaming("12");
    let signals = vec![
        WatchSignal::Modified { pod: snap("web-0", "Running", "13") },
        WatchSignal::Modified { pod: snap("web-0", "Failed", "14") },
        WatchSignal::SessionEnded,
        WatchSignal::Opened,
        WatchSignal::Bookmark { cursor: "15".to_string() },
        WatchSignal::Modified { pod: snap("web-0", "Running", "16") },
    ];
    let mut alerts = 0;
    let mut lines = 0;
    for signal in signals {
        let turn = advance(&mut c, signal);
        lines += turn.observations.len();
        alerts += turn.observations.iter().filter(|o| o.alert.is_some()).count();
        assert_eq!(turn.outcome, StepOutcome::Continue);
    }
    assert_eq!(lines, 3);
    assert_eq!(alerts, 1);
    assert_eq!(c.state, SessionState::Streaming { cursor: "16".to_string() });
}

#[test]
fn exit_codes_and_closing_lines() {
    assert_eq!(exit_code(PipelineEnd::Done), 0);
    assert_eq!(exit_code(PipelineEnd::MissingRelease), 0);
    assert_eq!(exit_code(PipelineEnd::WatchFailed { fault: WatchFault::Status { code: 403 } }), 1);
    assert_eq!(closing_line(PipelineEnd::Done), "Done.");
    assert_eq!(closing_line(PipelineEnd::MissingRelease), "Missing pod/release name");
    assert_eq!(
        closing_line(PipelineEnd::WatchFailed { fault: WatchFault::Transport }),
        "Watch failed."
    );
    assert_eq!(pipeline_end(StepOutcome::Continue), None);
}

#[test]
fn a_run_delivers_in_order_across_a_reopened_session() {
    let mut c = WatchController::new(SELECTOR.to_string(), 9);
    let applied = c.run(vec![
        WatchSignal::Listed {
            items: vec![snap("web-0", "Running", "10"), snap("web-1", "Running", "11")],
            cursor: "12".to_string(),
        },
        WatchSignal::Opened,
        WatchSignal::Modified { pod: snap("web-1", "Failed", "13") },
        WatchSignal::SessionEnded,
        WatchSignal::Opened,
        WatchSignal::Deleted { pod: snap("web-1", "Failed", "14") },
        WatchSignal::Added { pod: snap("web-2", "Pending", "15") },
    ]);
    assert_eq!(
        applied,
        vec![
            snap("web-0", "Running", "10"),
            snap("web-1", "Running", "11"),
            snap("web-1", "Failed", "13"),
            snap("web-2", "Pending", "15"),
        ]
    );
    assert_eq!(c.state, SessionState::Streaming { cursor: "15".to_string() });
    assert_eq!(c.selector, SELECTOR);
    assert_eq!(c.timeout_secs, 9);
}

#[test]
fn a_run_stops_delivering_at_cancellation() {
    let mut c = streaming("12");
    let applied = c.run(vec![
        WatchSignal::Added { pod: snap("web-0", "Failed", "13") },
        WatchSignal::Cancelled,
        WatchSignal::Added { pod: snap("web-1", "Failed", "14") },
        WatchSignal::SessionEnded,
    ]);
    assert_eq!(applied, vec![snap("web-0", "Failed", "13")]);
    assert_eq!(c.state, SessionState::Closed);
}

#[test]
fn an_empty_run_changes_nothing() {
    let mut c = streaming("12");
    assert!(c.run(Vec::new()).is_empty());
    assert_eq!(c, streaming("12"));
}
