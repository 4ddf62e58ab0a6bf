use vstd::prelude::*;
use crate::bridge::{BridgeError, CommandBridge};
use crate::channel::LoggedSender;

verus! {

/// A request from UI logic to the host about its window.
pub enum WindowCommand {
    DragWindow,
    Minimize(bool),
    Maximize(bool),
    MaximizeToggle,
    Visible(bool),
    CloseWindow,
    FocusWindow,
    Fullscreen(bool),
    Resizable(bool),
    AlwaysOnTop(bool),
    CursorVisible(bool),
    CursorGrab(bool),
    SetTitle(String),
    SetDecorations(bool),
    DevTool,
    Eval(String),
}

/// The handle UI logic holds: window requests go to the host's event loop,
/// typed commands go to and come from the external scheduler. Window requests
/// are fire-and-forget: one that the host no longer receives is dropped.
#[verifier::reject_recursive_types(C)]
#[verifier::reject_recursive_types(U)]
pub struct DesktopContext<C, U> {
    proxy: LoggedSender<WindowCommand>,
    channel: CommandBridge<C, U>,
}

impl<C, U: Clone> DesktopContext<C, U> {
    /// Window requests offered to the host's channel so far, in order.
    pub closed spec fn requests(self) -> Seq<WindowCommand> {
        self.proxy.offered()
    }

    /// The scheduler bridge.
    pub closed spec fn bridge(self) -> CommandBridge<C, U> {
        self.channel
    }

    pub fn new(
        proxy: futures_channel::mpsc::UnboundedSender<WindowCommand>,
        channel: CommandBridge<C, U>,
    ) -> (r: DesktopContext<C, U>)
        ensures
            r.requests() == Seq::<WindowCommand>::empty(),
            r.bridge() == channel,
    {
        DesktopContext { proxy: LoggedSender::new(proxy), channel }
    }

    /// A new subscription to commands from the scheduler.
    pub fn receiver(&self) -> (rx: tokio::sync::broadcast::Receiver<U>) {
        self.channel.receiver()
    }

    /// Hands a command to the scheduler, which must still be consuming them:
    /// `Err` exactly when the channel refused it, the caller's fatal error.
    pub fn send(&mut self, cmd: C) -> (r: Result<(), BridgeError>)
        ensures
            r is Ok ==> final(self).bridge().sent() == old(self).bridge().sent().push(cmd),
            r is Err ==> final(self).bridge().sent() == old(self).bridge().sent() && r == Err::<
                (),
                BridgeError,
            >(BridgeError::SchedulerGone),
            final(self).bridge().published() == old(self).bridge().published(),
            final(self).requests() == old(self).requests(),
            r matches Err(e) ==> e == BridgeError::SchedulerGone,
    {
        self.channel.send(cmd)
    }

    fn request(&mut self, cmd: WindowCommand)
        ensures
            final(self).requests() == old(self).requests().push(cmd),
            final(self).bridge() == old(self).bridge(),
    {
        let _ = self.proxy.send(cmd);
    }

    pub fn drag(&mut self)
        ensures
            final(self).requests() == old(self).requests().push(WindowCommand::DragWindow),
            final(self).bridge() == old(self).bridge(),
    {
        self.request(WindowCommand::DragWindow);
    }

    pub fn set_minimized(&mut self, minimized: bool)
        ensures
            final(self).requests() == old(self).requests().push(WindowCommand::Minimize(minimized)),
            final(self).bridge() == old(self).bridge(),
    {
        self.request(WindowCommand::Minimize(minimized));
    }

    pub fn set_maximized(&mut self, maximized: bool)
        ensures
            final(self).requests() == old(self).requests().push(WindowCommand::Maximize(maximized)),
            final(self).bridge() == old(self).bridge(),
    {
        self.request(WindowCommand::Maximize(maximized));
    }

    pub fn toggle_maximized(&mut self)
        ensures
            final(self).requests() == old(self).requests().push(WindowCommand::MaximizeToggle),
            final(self).bridge() == old(self).bridge(),
    {
        self.request(WindowCommand::MaximizeToggle);
    }

    pub fn set_visible(&mut self, visible: bool)
        ensures
            final(self).requests() == old(self).requests().push(WindowCommand::Visible(visible)),
            final(self).bridge() == old(self).bridge(),
    {
        self.request(WindowCommand::Visible(visible));
    }

    pub fn close(&mut self)
        ensures
            final(self).requests() == old(self).requests().push(WindowCommand::CloseWindow),
            final(self).bridge() == old(self).bridge(),
    {
        self.request(WindowCommand::CloseWindow);
    }

    pub fn focus(&mut self)
        ensures
            final(self).requests() == old(self).requests().push(WindowCommand::FocusWindow),
            final(self).bridge() == old(self).bridge(),
    {
        self.request(WindowCommand::FocusWindow);
    }

    pub fn set_fullscreen(&mut self, fullscreen: bool)
        ensures
            final(self).requests() == old(self).requests().push(WindowCommand::Fullscreen(fullscreen)),
            final(self).bridge() == old(self).bridge(),
    {
        self.request(WindowCommand::Fullscreen(fullscreen));
    }

    pub fn set_resizable(&mut self, resizable: bool)
        ensures
            final(self).requests() == old(self).requests().push(WindowCommand::Resizable(resizable)),
            final(self).bridge() == old(self).bridge(),
    {
        self.request(WindowCommand::Resizable(resizable));
    }

    pub fn set_always_on_top(&mut self, top: bool)
        ensures
            final(self).requests() == old(self).requests().push(WindowCommand::AlwaysOnTop(top)),
            final(self).bridge() == old(self).bridge(),
    {
        self.request(WindowCommand::AlwaysOnTop(top));
    }

    pub fn set_cursor_visible(&mut self, visible: bool)
        ensures
            final(self).requests() == old(self).requests().push(WindowCommand::CursorVisible(visible)),
            final(self).bridge() == old(self).bridge(),
    {
        self.request(WindowCommand::CursorVisible(visible));
    }

    pub fn set_cursor_grab(&mut self, grab: bool)
        ensures
            final(self).requests() == old(self).requests().push(WindowCommand::CursorGrab(grab)),
            final(self).bridge() == old(self).bridge(),
    {
        self.request(WindowCommand::CursorGrab(grab));
    }

    pub fn set_decorations(&mut self, decoration: bool)
        ensures
            final(self).requests() == old(self).requests().push(WindowCommand::SetDecorations(decoration)),
            final(self).bridge() == old(self).bridge(),
    {
        self.request(WindowCommand::SetDecorations(decoration));
    }

    pub fn devtool(&mut self)
        ensures
            final(self).requests() == old(self).requests().push(WindowCommand::DevTool),
            final(self).bridge() == old(self).bridge(),
    {
        self.request(WindowCommand::DevTool);
    }

    pub fn set_title(&mut self, title: &str)
        ensures
            final(self).requests().len() == old(self).requests().len() + 1,
            final(self).requests().drop_last() == old(self).requests(),
            final(self).requests().last() matches WindowCommand::SetTitle(s) && s@ == title@,
            final(self).bridge() == old(self).bridge(),
    {
        self.request(WindowCommand::SetTitle(title.to_owned()));
    }

    pub fn eval(&mut self, script: &str)
        ensures
            final(self).requests().len() == old(self).requests().len() + 1,
            final(self).requests().drop_last() == old(self).requests(),
            final(self).requests().last() matches WindowCommand::Eval(s) && s@ == script@,
            final(self).bridge() == old(self).bridge(),
    {
        self.request(WindowCommand::Eval(script.to_owned()));
    }
}

} // verus!
