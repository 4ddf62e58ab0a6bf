use desktop_bridge::{
    DesktopController, DispatchOutcome, EditPipeline, LoggedSender, HostAction, HostEvent, WindowCommand,
};

fn setup() -> (
    DesktopController<String>,
    EditPipeline,
    LoggedSender<serde_json::Value>,
    futures_channel::mpsc::UnboundedReceiver<serde_json::Value>,
) {
    let (tx, rx) = futures_channel::mpsc::unbounded();
    (DesktopController::new(true), EditPipeline::new(), LoggedSender::new(tx), rx)
}

#[test]
fn two_windows_destroyed_one_by_one() {
    let (mut c, mut p, mut tx, _rx) = setup();
    let a = c.handle_event(&mut p, &mut tx, HostEvent::WindowCreated(1, "one".to_string()));
    assert!(matches!(a, HostAction::Nothing));
    c.handle_event(&mut p, &mut tx, HostEvent::WindowCreated(2, "two".to_string()));
    assert_eq!(c.webviews.len(), 2);
    let a = c.handle_event(&mut p, &mut tx, HostEvent::Destroyed(1));
    assert!(matches!(a, HostAction::Nothing));
    assert_eq!(c.webviews.len(), 1);
    let a = c.handle_event(&mut p, &mut tx, HostEvent::Destroyed(2));
    assert!(matches!(a, HostAction::Exit));
    assert_eq!(c.webviews.len(), 0);
}

#[test]
fn full_startup_sequence() {
    let (mut c, mut p, mut tx, _rx) = setup();
    p.push_edits(vec!["A".to_string(), "B".to_string()]);
    assert!(matches!(c.handle_event(&mut p, &mut tx, HostEvent::Wake), HostAction::Nothing));
    c.handle_event(&mut p, &mut tx, HostEvent::WindowCreated(3, "main".to_string()));
    assert!(matches!(c.handle_event(&mut p, &mut tx, HostEvent::Wake), HostAction::Nothing));
    assert_eq!(p.pending_len(), 2);
    let a = c.handle_event(
        &mut p,
        &mut tx,
        HostEvent::Ipc(r#"{"method":"initialize","params":{}}"#.to_string()),
    );
    assert!(matches!(a, HostAction::Ipc(DispatchOutcome::DrainRequested)));
    match c.handle_event(&mut p, &mut tx, HostEvent::Wake) {
        HostAction::Apply(id, edits) => {
            assert_eq!(id, 3);
            assert_eq!(edits, vec!["A", "B"]);
        }
        _ => panic!("expected edits to apply"),
    }
    p.push_edit("C".to_string());
    match c.handle_event(&mut p, &mut tx, HostEvent::Wake) {
        HostAction::Apply(_, edits) => assert_eq!(edits, vec!["C"]),
        _ => panic!("expected edits to apply"),
    }
}

#[test]
fn apply_failure_resumes_after_failed_batch() {
    let (mut c, mut p, mut tx, _rx) = setup();
    c.handle_event(&mut p, &mut tx, HostEvent::WindowCreated(1, "w".to_string()));
    p.initialize();
    p.push_edits(vec!["A".to_string(), "B".to_string(), "C".to_string()]);
    let edits = match c.handle_event(&mut p, &mut tx, HostEvent::Wake) {
        HostAction::Apply(_, edits) => edits,
        _ => panic!("expected edits to apply"),
    };
    let a = c.handle_event(&mut p, &mut tx, HostEvent::ApplyFailed(edits, 0));
    assert!(matches!(a, HostAction::ReportApplyFailure));
    match c.handle_event(&mut p, &mut tx, HostEvent::Wake) {
        HostAction::Apply(_, edits) => assert_eq!(edits, vec!["B", "C"]),
        _ => panic!("expected edits to apply"),
    }
}

#[test]
fn user_event_reaches_renderer_before_any_window() {
    let (mut c, mut p, mut tx, mut rx) = setup();
    let a = c.handle_event(
        &mut p,
        &mut tx,
        HostEvent::Ipc(r#"{"method":"user_event","params":{"kind":"input"}}"#.to_string()),
    );
    assert!(matches!(a, HostAction::Ipc(DispatchOutcome::Forwarded)));
    assert_eq!(rx.try_next().unwrap().unwrap()["kind"], "input");
    let a = c.handle_event(&mut p, &mut tx, HostEvent::Ipc("garbage".to_string()));
    assert!(matches!(a, HostAction::Ipc(DispatchOutcome::Malformed)));
}

#[test]
fn reshape_close_request_and_window_requests() {
    let (mut c, mut p, mut tx, _rx) = setup();
    assert!(matches!(c.handle_event(&mut p, &mut tx, HostEvent::Reshaped(4)), HostAction::Nothing));
    c.handle_event(&mut p, &mut tx, HostEvent::WindowCreated(4, "w".to_string()));
    assert!(matches!(c.handle_event(&mut p, &mut tx, HostEvent::Reshaped(4)), HostAction::Resize(4)));
    let a = c.handle_event(&mut p, &mut tx, HostEvent::Window(WindowCommand::Fullscreen(true)));
    assert!(matches!(a, HostAction::Window(WindowCommand::Fullscreen(true))));
    assert!(matches!(c.handle_event(&mut p, &mut tx, HostEvent::CloseRequested(4)), HostAction::Exit));
    assert_eq!(c.webviews.len(), 1);
}

#[test]
fn close_request_closes_one_of_several_windows() {
    let (mut c, mut p, mut tx, _rx) = setup();
    c.handle_event(&mut p, &mut tx, HostEvent::WindowCreated(1, "a".to_string()));
    c.handle_event(&mut p, &mut tx, HostEvent::WindowCreated(2, "b".to_string()));
    let a = c.handle_event(&mut p, &mut tx, HostEvent::CloseRequested(1));
    assert!(matches!(a, HostAction::CloseWindow(1)));
    assert!(matches!(c.handle_event(&mut p, &mut tx, HostEvent::CloseRequested(9)), HostAction::Nothing));
    c.handle_event(&mut p, &mut tx, HostEvent::Destroyed(1));
    assert!(matches!(c.handle_event(&mut p, &mut tx, HostEvent::CloseRequested(2)), HostAction::Exit));
}
