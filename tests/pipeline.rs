use desktop_bridge::{
    classify_method, dispatch_command, dispatch_ipc, parse_ipc_message, DesktopController,
    DispatchOutcome, EditPipeline, LoggedSender, IpcCommand, IpcTag, MutationQueue, ReadinessGate,
    WindowRegistry,
};

fn events() -> (
    LoggedSender<serde_json::Value>,
    futures_channel::mpsc::UnboundedReceiver<serde_json::Value>,
) {
    let (mut tx, rx) = futures_channel::mpsc::unbounded();
    (LoggedSender::new(tx), rx)
}

#[test]
fn queue_drains_in_enqueue_order() {
    let mut q = MutationQueue::new();
    q.enqueue("A".to_string());
    q.enqueue("B".to_string());
    q.enqueue("C".to_string());
    assert_eq!(q.len(), 3);
    assert_eq!(q.drain_all(), vec!["A", "B", "C"]);
    assert!(q.is_empty());
    q.enqueue("D".to_string());
    q.enqueue_all(vec!["E".to_string(), "F".to_string()]);
    assert_eq!(q.drain_all(), vec!["D", "E", "F"]);
    assert_eq!(q.drain_all(), Vec::<String>::new());
}

#[test]
fn gate_stays_open() {
    let mut g = ReadinessGate::new();
    assert!(!g.is_ready());
    g.mark_ready();
    assert!(g.is_ready());
    g.mark_ready();
    assert!(g.is_ready());
    assert!(g.is_ready());
}

#[test]
fn drain_before_initialize_keeps_batches() {
    let (mut tx, _rx) = events();
    let mut p = EditPipeline::new();
    p.push_edit("A".to_string());
    p.push_edit("B".to_string());
    assert_eq!(p.take_ready_edits(), Vec::<String>::new());
    assert_eq!(p.pending_len(), 2);
    let r = dispatch_ipc(&mut p, &mut tx, r#"{"method":"initialize","params":null}"#);
    assert!(matches!(r, DispatchOutcome::DrainRequested));
    assert!(p.is_ready());
    assert_eq!(p.pending_len(), 2);
    assert_eq!(p.take_ready_edits(), vec!["A", "B"]);
    assert_eq!(p.take_ready_edits(), Vec::<String>::new());
}

#[test]
fn wake_with_window_applies_once() {
    let mut p = EditPipeline::new();
    let mut c: DesktopController<&str> = DesktopController::new(true);
    p.push_edits(vec!["A".to_string(), "B".to_string()]);
    c.register_window(7, "view");
    assert!(c.try_load_ready_webviews(&mut p).is_none());
    p.initialize();
    let (id, edits) = c.try_load_ready_webviews(&mut p).unwrap();
    assert_eq!(id, 7);
    assert_eq!(edits, vec!["A", "B"]);
    let (_, again) = c.try_load_ready_webviews(&mut p).unwrap();
    assert!(again.is_empty());
}

#[test]
fn wake_without_window_keeps_queue() {
    let mut p = EditPipeline::new();
    let c: DesktopController<()> = DesktopController::new(true);
    p.push_edit("A".to_string());
    p.initialize();
    assert!(c.try_load_ready_webviews(&mut p).is_none());
    assert_eq!(p.pending_len(), 1);
}

#[test]
fn malformed_payload_changes_nothing() {
    let (mut tx, mut rx) = events();
    let mut p = EditPipeline::new();
    p.push_edit("A".to_string());
    for payload in ["{not json", "", "[1,2", r#"{"params":1}"#, r#"{"method":3,"params":1}"#] {
        let r = dispatch_ipc(&mut p, &mut tx, payload);
        assert!(matches!(r, DispatchOutcome::Malformed));
        assert!(!p.is_ready());
        assert_eq!(p.pending_len(), 1);
    }
    assert!(rx.try_next().is_err());
}

#[test]
fn user_event_forwarded_without_window() {
    let (mut tx, mut rx) = events();
    let mut p = EditPipeline::new();
    let r = dispatch_ipc(
        &mut p,
        &mut tx,
        r#"{"method":"user_event","params":{"name":"click","element":3}}"#,
    );
    assert!(matches!(r, DispatchOutcome::Forwarded));
    let ev = rx.try_next().unwrap().unwrap();
    assert_eq!(ev["name"], "click");
    assert_eq!(ev["element"], 3);
    assert!(!p.is_ready());
}

#[test]
fn user_events_reach_renderer_in_order() {
    let (mut tx, mut rx) = events();
    let mut p = EditPipeline::new();
    for k in 0..3 {
        let payload = format!(r#"{{"method":"user_event","params":{{"n":{}}}}}"#, k);
        let r = dispatch_ipc(&mut p, &mut tx, &payload);
        assert!(matches!(r, DispatchOutcome::Forwarded));
    }
    for k in 0..3 {
        assert_eq!(rx.try_next().unwrap().unwrap()["n"], k);
    }
}

#[test]
fn user_event_after_renderer_gone() {
    let (mut tx, rx) = events();
    drop(rx);
    let mut p = EditPipeline::new();
    let r = dispatch_ipc(&mut p, &mut tx, r#"{"method":"user_event","params":{}}"#);
    assert!(matches!(r, DispatchOutcome::RendererGone));
}

#[test]
fn unknown_method_is_ignored() {
    let (mut tx, mut rx) = events();
    let mut p = EditPipeline::new();
    p.push_edit("A".to_string());
    let r = dispatch_ipc(&mut p, &mut tx, r#"{"method":"unknown_tag","params":{}}"#);
    assert!(matches!(r, DispatchOutcome::Ignored));
    let r = dispatch_ipc(&mut p, &mut tx, r#"{"method":"unknown_tag"}"#);
    assert!(matches!(r, DispatchOutcome::Malformed));
    assert!(!p.is_ready());
    assert_eq!(p.pending_len(), 1);
    assert!(rx.try_next().is_err());
}

#[test]
fn browser_open_reads_href() {
    let (mut tx, _rx) = events();
    let mut p = EditPipeline::new();
    let r = dispatch_ipc(
        &mut p,
        &mut tx,
        r#"{"method":"browser_open","params":{"href":"https://example.com/a"}}"#,
    );
    match r {
        DispatchOutcome::OpenBrowser(url) => assert_eq!(url, "https://example.com/a"),
        _ => panic!("expected a link to open"),
    }
    let r = dispatch_ipc(&mut p, &mut tx, r#"{"method":"browser_open","params":{"href":5}}"#);
    assert!(matches!(r, DispatchOutcome::Ignored));
    let r = dispatch_ipc(&mut p, &mut tx, r#"{"method":"browser_open","params":"x"}"#);
    assert!(matches!(r, DispatchOutcome::Ignored));
}

#[test]
fn message_parts_and_tags() {
    let m = parse_ipc_message(r#"{"method":"initialize","params":[1],"extra":true}"#).unwrap();
    assert_eq!(m.method(), "initialize");
    assert_eq!(m.params()[0], 1);
    assert_eq!(m.href, None);
    let b = parse_ipc_message(r#"{"method":"browser_open","params":{"href":"h"}}"#).unwrap();
    assert_eq!(b.href, Some("h".to_string()));
    assert!(parse_ipc_message("null").is_none());
    assert_eq!(classify_method(&"user_event".to_string()), IpcTag::UserEvent);
    assert_eq!(classify_method(&"initialize".to_string()), IpcTag::Initialize);
    assert_eq!(classify_method(&"browser_open".to_string()), IpcTag::BrowserOpen);
    assert_eq!(classify_method(&"Initialize".to_string()), IpcTag::Unknown);
    match IpcCommand::from_message(m) {
        IpcCommand::Initialize => {}
        _ => panic!("expected the handshake"),
    }
}

#[test]
fn dispatch_command_opens_gate_only_on_handshake() {
    let (mut tx, _rx) = events();
    let mut p = EditPipeline::new();
    let r = dispatch_command(&mut p, &mut tx, IpcCommand::Unknown("x".to_string()));
    assert!(matches!(r, DispatchOutcome::Ignored));
    assert!(!p.is_ready());
    let r = dispatch_command(&mut p, &mut tx, IpcCommand::BrowserOpen(None));
    assert!(matches!(r, DispatchOutcome::Ignored));
    let r = dispatch_command(&mut p, &mut tx, IpcCommand::Initialize);
    assert!(matches!(r, DispatchOutcome::DrainRequested));
    assert!(p.is_ready());
}

#[test]
fn failed_batch_is_dropped_and_later_ones_kept() {
    let mut p = EditPipeline::new();
    p.initialize();
    p.push_edits(vec!["A".to_string(), "B".to_string(), "C".to_string(), "D".to_string()]);
    let edits = p.take_ready_edits();
    p.push_edit("E".to_string());
    p.restore_after_failure(edits, 1);
    assert_eq!(p.take_ready_edits(), vec!["C", "D", "E"]);
    p.push_edit("F".to_string());
    p.restore_after_failure(vec!["X".to_string()], 0);
    p.restore_after_failure(vec!["Y".to_string()], 5);
    assert_eq!(p.take_ready_edits(), vec!["F"]);
}

#[test]
fn registry_exit_on_last_close() {
    let mut c: DesktopController<u8> = DesktopController::new(true);
    c.register_window(1, 10);
    c.register_window(2, 20);
    assert_eq!(c.webviews.len(), 2);
    assert!(!c.close_window(1));
    assert_eq!(c.webviews.len(), 1);
    assert_eq!(c.webviews.get(2), Some(&20));
    assert!(c.close_window(2));
    assert_eq!(c.webviews.len(), 0);
    assert!(!c.close_window(2));
}

#[test]
fn registry_without_exit_policy() {
    let mut c: DesktopController<u8> = DesktopController::new(false);
    c.register_window(1, 10);
    assert!(!c.close_window(1));
    assert!(c.webviews.is_empty());
}

#[test]
fn registry_keeps_ids_unique() {
    let mut r: WindowRegistry<&str> = WindowRegistry::new();
    assert!(r.insert(4, "a").is_none());
    assert_eq!(r.insert(4, "b"), Some("a"));
    assert_eq!(r.len(), 1);
    assert_eq!(r.get(4), Some(&"b"));
    assert!(r.contains_window(4));
    assert_eq!(r.first_window(), Some(4));
    assert!(r.insert(6, "c").is_none());
    assert_eq!(r.remove(5), None);
    assert_eq!(r.remove(6), Some("c"));
    assert_eq!(r.remove(4), Some("b"));
    assert_eq!(r.first_window(), None);
    assert!(r.get(4).is_none());
}
