use desktop_bridge::{
    poll_ui_commands, BridgeError, CommandBridge, DesktopContext, UiInbox, UiPoll, WindowCommand,
    UI_COMMAND_CAPACITY,
};

#[test]
fn core_commands_arrive_in_order() {
    let (tx, mut rx) = futures_channel::mpsc::unbounded::<u32>();
    let mut bridge: CommandBridge<u32, u8> = CommandBridge::new(tx);
    assert_eq!(bridge.send(1), Ok(()));
    assert_eq!(bridge.send(2), Ok(()));
    assert_eq!(rx.try_next().unwrap(), Some(1));
    assert_eq!(rx.try_next().unwrap(), Some(2));
    drop(rx);
    assert_eq!(bridge.send(3), Err(BridgeError::SchedulerGone));
}

#[test]
fn broadcast_reaches_every_subscriber() {
    let (tx, _rx) = futures_channel::mpsc::unbounded::<u32>();
    let mut bridge: CommandBridge<u32, u8> = CommandBridge::new(tx);
    assert_eq!(bridge.publish(9), 0);
    let mut a = bridge.receiver();
    let mut b = bridge.receiver();
    assert_eq!(bridge.dispatch_ui_commands(vec![1, 2, 3]), 3);
    let ia = poll_ui_commands(&mut a, 10);
    let ib = poll_ui_commands(&mut b, 10);
    assert_eq!(ia.commands, vec![1, 2, 3]);
    assert_eq!(ib.commands, vec![1, 2, 3]);
    assert_eq!(ia.missed, 0);
    assert!(!ia.closed);
}

#[test]
fn slow_subscriber_sees_gap() {
    let (tx, _rx) = futures_channel::mpsc::unbounded::<u32>();
    let mut bridge: CommandBridge<u32, u8> = CommandBridge::new(tx);
    let mut slow = bridge.receiver();
    let n = UI_COMMAND_CAPACITY as u8 + 2;
    let sent: Vec<u8> = (0..n).collect();
    assert_eq!(bridge.dispatch_ui_commands(sent), n as usize);
    let inbox = poll_ui_commands(&mut slow, 100);
    assert_eq!(inbox.missed, 2);
    assert_eq!(inbox.commands, (2..n).collect::<Vec<u8>>());
}

#[test]
fn bridge_buffers_eight_commands() {
    let (tx, _rx) = futures_channel::mpsc::unbounded::<u32>();
    let bridge: CommandBridge<u32, u8> = CommandBridge::new(tx);
    assert_eq!(bridge.ui_capacity(), 8);
    assert_eq!(UI_COMMAND_CAPACITY, 8);
}

#[test]
fn subscriber_within_capacity_misses_nothing() {
    let (tx, _rx) = futures_channel::mpsc::unbounded::<u32>();
    let mut bridge: CommandBridge<u32, u8> = CommandBridge::new(tx);
    let mut rx = bridge.receiver();
    let sent: Vec<u8> = (0..8).collect();
    assert_eq!(bridge.dispatch_ui_commands(sent.clone()), 8);
    let inbox = poll_ui_commands(&mut rx, 100);
    assert_eq!(inbox.missed, 0);
    assert_eq!(inbox.commands, sent);
}

#[test]
fn closed_broadcast_is_reported() {
    let (tx, _rx) = futures_channel::mpsc::unbounded::<u32>();
    let mut bridge: CommandBridge<u32, u8> = CommandBridge::new(tx);
    let mut rx = bridge.receiver();
    bridge.publish(5);
    drop(bridge);
    let inbox = poll_ui_commands(&mut rx, 10);
    assert_eq!(inbox.commands, vec![5]);
    assert!(inbox.closed);
}

#[test]
fn inbox_counts_gaps_saturating() {
    let mut inbox: UiInbox<u8> = UiInbox::new();
    assert!(inbox.absorb(UiPoll::Missed(u64::MAX - 1)));
    assert!(inbox.absorb(UiPoll::Missed(5)));
    assert_eq!(inbox.missed, u64::MAX);
    assert!(inbox.absorb(UiPoll::Command(4)));
    assert!(!inbox.absorb(UiPoll::Empty));
    assert!(!inbox.closed);
    assert!(!inbox.absorb(UiPoll::Closed));
    assert!(inbox.closed);
    assert_eq!(inbox.commands, vec![4]);
}

#[test]
fn context_forwards_window_requests() {
    let (wtx, mut wrx) = futures_channel::mpsc::unbounded::<WindowCommand>();
    let (ctx_tx, mut core_rx) = futures_channel::mpsc::unbounded::<u32>();
    let mut ctx: DesktopContext<u32, u8> = DesktopContext::new(wtx, CommandBridge::new(ctx_tx));
    ctx.set_title("hello");
    ctx.set_minimized(true);
    ctx.eval("1+1");
    ctx.close();
    match wrx.try_next().unwrap().unwrap() {
        WindowCommand::SetTitle(t) => assert_eq!(t, "hello"),
        _ => panic!("expected a title"),
    }
    assert!(matches!(wrx.try_next().unwrap().unwrap(), WindowCommand::Minimize(true)));
    match wrx.try_next().unwrap().unwrap() {
        WindowCommand::Eval(s) => assert_eq!(s, "1+1"),
        _ => panic!("expected a script"),
    }
    assert!(matches!(wrx.try_next().unwrap().unwrap(), WindowCommand::CloseWindow));
    assert_eq!(ctx.send(8), Ok(()));
    assert_eq!(core_rx.try_next().unwrap(), Some(8));
    drop(wrx);
    ctx.focus();
}
