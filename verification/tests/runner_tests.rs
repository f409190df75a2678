use splat_studio::runner::{
    closing_events, line_events, lines_events, next_action, start_failure, start_permission, JobEvent, ProcessObservation,
    RunnerAction,
};

fn progress_fraction(progress: &Option<serde_json::Number>) -> f32 {
    progress.as_ref().and_then(|n| n.as_f64()).unwrap_or(0.0).clamp(0.0, 1.0) as f32
}

#[test]
fn structured_event_is_parsed() {
    let events = line_events("GSS_EVENT {\"stage\":\"frames\",\"progress\":0.25}");
    match &events[0] {
        JobEvent::Stage { name, progress } => {
            assert_eq!(name, "frames");
            assert!((progress_fraction(progress) - 0.25).abs() < f32::EPSILON);
        }
        other => panic!("unexpected event: {other:?}"),
    }
    assert_eq!(events.len(), 1);
}

#[test]
fn structured_event_with_message() {
    let events =
        line_events("GSS_EVENT {\"stage\":\"train\",\"progress\":7,\"message\":\"step 10\"}");
    assert_eq!(events.len(), 2);
    match &events[0] {
        JobEvent::Stage { name, progress } => {
            assert_eq!(name, "train");
            assert_eq!(progress_fraction(progress), 1.0);
        }
        other => panic!("unexpected event: {other:?}"),
    }
    assert!(matches!(&events[1], JobEvent::Log(m) if m == "step 10"));
}

#[test]
fn structured_event_defaults() {
    let events = line_events("GSS_EVENT {\"progress\":\"half\",\"message\":3}");
    assert_eq!(events.len(), 1);
    match &events[0] {
        JobEvent::Stage { name, progress } => {
            assert_eq!(name, "working");
            assert!(progress.is_none());
        }
        other => panic!("unexpected event: {other:?}"),
    }
    let events = line_events("GSS_EVENT [1, 2]");
    assert!(matches!(&events[0], JobEvent::Stage { name, progress: None } if name == "working"));
}

#[test]
fn plain_and_malformed_lines_are_logged() {
    let events = line_events("Training step 100/30000");
    assert_eq!(events.len(), 1);
    assert!(matches!(&events[0], JobEvent::Log(l) if l == "Training step 100/30000"));
    let events = line_events("GSS_EVENT {not json");
    assert_eq!(events.len(), 1);
    assert!(matches!(&events[0], JobEvent::Log(l) if l == "GSS_EVENT {not json"));
    let events = line_events(" GSS_EVENT {}");
    assert!(matches!(&events[0], JobEvent::Log(l) if l == " GSS_EVENT {}"));
}

#[test]
fn runner_decisions() {
    assert!(matches!(next_action(ProcessObservation::CancelRequested), RunnerAction::Cancel));
    assert!(matches!(next_action(ProcessObservation::StillRunning), RunnerAction::Sleep));
    assert!(matches!(
        next_action(ProcessObservation::Exited { success: true, code: Some(0) }),
        RunnerAction::Finish(JobEvent::Finished(0))
    ));
    assert!(matches!(
        next_action(ProcessObservation::Exited { success: true, code: None }),
        RunnerAction::Finish(JobEvent::Finished(-1))
    ));
    match next_action(ProcessObservation::Exited { success: false, code: Some(-3) }) {
        RunnerAction::Finish(JobEvent::Failed(m)) => assert_eq!(m, "Pipeline exited with code -3"),
        other => panic!("unexpected action: {other:?}"),
    }
    match next_action(ProcessObservation::Exited { success: false, code: None }) {
        RunnerAction::Finish(JobEvent::Failed(m)) => assert_eq!(m, "Pipeline exited with code -1"),
        other => panic!("unexpected action: {other:?}"),
    }
    match next_action(ProcessObservation::WaitFailed("interrupted".to_owned())) {
        RunnerAction::Abort(JobEvent::Failed(m)) => {
            assert_eq!(m, "Failed while waiting for pipeline: interrupted")
        }
        other => panic!("unexpected action: {other:?}"),
    }
}

#[test]
fn start_messages() {
    match start_failure("python", "not found") {
        JobEvent::Failed(m) => assert_eq!(m, "Failed to start python: not found"),
        other => panic!("unexpected event: {other:?}"),
    }
    assert!(start_permission(false).is_ok());
    assert_eq!(
        start_permission(true),
        Err("A reconstruction job is already running".to_owned())
    );
}

#[test]
fn buffered_lines_keep_their_order() {
    let lines = vec![
        "first".to_owned(),
        "GSS_EVENT {\"stage\":\"solve\",\"message\":\"ok\"}".to_owned(),
        "last".to_owned(),
    ];
    let events = lines_events(&lines);
    assert_eq!(events.len(), 4);
    assert!(matches!(&events[0], JobEvent::Log(l) if l == "first"));
    assert!(matches!(&events[1], JobEvent::Stage { name, .. } if name == "solve"));
    assert!(matches!(&events[2], JobEvent::Log(l) if l == "ok"));
    assert!(matches!(&events[3], JobEvent::Log(l) if l == "last"));
    assert!(lines_events(&Vec::new()).is_empty());
}

#[test]
fn runs_close_with_one_final_event() {
    let late = vec!["tail line".to_owned()];
    let finish = next_action(ProcessObservation::Exited { success: true, code: Some(0) });
    let events = closing_events(&late, finish);
    assert_eq!(events.len(), 2);
    assert!(matches!(&events[0], JobEvent::Log(l) if l == "tail line"));
    assert!(matches!(&events[1], JobEvent::Finished(0)));

    let events = closing_events(&late, next_action(ProcessObservation::CancelRequested));
    assert_eq!(events.len(), 1);
    assert!(matches!(&events[0], JobEvent::Cancelled));

    let abort = next_action(ProcessObservation::WaitFailed("gone".to_owned()));
    let events = closing_events(&late, abort);
    assert_eq!(events.len(), 1);
    assert!(matches!(&events[0], JobEvent::Failed(m) if m == "Failed while waiting for pipeline: gone"));

    assert!(closing_events(&late, next_action(ProcessObservation::StillRunning)).is_empty());
}
