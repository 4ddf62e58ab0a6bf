use vstd::prelude::*;
use crate::context::WindowCommand;
use crate::channel::LoggedSender;
use crate::controller::{
    close_signals_exit, dispatch_ipc, ipc_handled, DesktopController, DispatchOutcome,
};
use crate::pipeline::{unapplied_after, EditPipeline};

verus! {

/// An event reaching the host's loop, with window numbers as the host assigns them.
pub enum HostEvent<V> {
    /// A window and its view finished construction.
    WindowCreated(u64, V),
    /// The user asked to close a window.
    CloseRequested(u64),
    /// The platform destroyed a window.
    Destroyed(u64),
    /// A window was resized or moved.
    Reshaped(u64),
    /// The renderer or the handshake asks for queued edits to be applied.
    Wake,
    /// A raw message from a window's rendered surface.
    Ipc(String),
    /// A window request from UI logic.
    Window(WindowCommand),
    /// Applying the edits of a cycle stopped at this index: evaluating that
    /// batch failed.
    ApplyFailed(Vec<String>, usize),
}

/// What the host must do after an event.
pub enum HostAction {
    Nothing,
    /// Leave the event loop.
    Exit,
    /// Close this window; the platform then reports it destroyed.
    CloseWindow(u64),
    /// Fit this window's view to its new bounds.
    Resize(u64),
    /// Evaluate these serialised edits in this window, in order.
    Apply(u64, Vec<String>),
    /// Act on an inbound message's outcome.
    Ipc(DispatchOutcome),
    /// Carry out a window request on the primary window.
    Window(WindowCommand),
    /// Report that a batch could not be applied; the cycle is over.
    ReportApplyFailure,
}

/// Whether a close request for window `id` ends the process loop: under the
/// exit-on-last-close policy, exactly when `id` is the only live window.
pub open spec fn close_request_exits(windows: Set<u64>, id: u64, quit_on_last_close: bool) -> bool {
    quit_on_last_close && windows == Set::<u64>::empty().insert(id)
}

impl<V> DesktopController<V> {
    /// Decides one turn of the host's loop. Window creation and destruction
    /// update the registry; a close request ends the loop only for the last
    /// live window under the exit policy, and otherwise asks the host to close
    /// that window; a wake hands over queued edits once the surface is ready
    /// and a window is live; messages go through `dispatch_ipc`; a failed
    /// apply puts the batches after the failed one back for the next wake.
    pub fn handle_event(
        &mut self,
        pipeline: &mut EditPipeline,
        events: &mut LoggedSender<serde_json::Value>,
        event: HostEvent<V>,
    ) -> (action: HostAction)
        requires
            old(self).wf(),
        ensures
            final(self).wf(),
            final(self).quit_app_on_close == old(self).quit_app_on_close,
            !(event is Ipc) ==> *final(events) == *old(events),
            !(event is WindowCreated) && !(event is Destroyed) ==> final(self).webviews.windows() == old(
                self,
            ).webviews.windows(),
            match event {
                HostEvent::WindowCreated(id, view) => final(self).webviews.windows() == old(
                    self,
                ).webviews.windows().insert(id) && final(self).webviews.view_of(id) == view
                    && *final(pipeline) == *old(pipeline) && action is Nothing,
                HostEvent::CloseRequested(id) => *final(pipeline) == *old(pipeline) && if close_request_exits(
                    old(self).webviews.windows(),
                    id,
                    old(self).quit_app_on_close,
                ) {
                    action is Exit
                } else if old(self).webviews.windows().contains(id) {
                    action == HostAction::CloseWindow(id)
                } else {
                    action is Nothing
                },
                HostEvent::Destroyed(id) => final(self).webviews.windows() == old(
                    self,
                ).webviews.windows().remove(id) && *final(pipeline) == *old(pipeline) && (
                action is Exit) == close_signals_exit(
                    old(self).webviews.windows(),
                    id,
                    old(self).quit_app_on_close,
                ) && (action is Exit || action is Nothing),
                HostEvent::Reshaped(id) => *final(pipeline) == *old(pipeline) && (if old(
                    self,
                ).webviews.windows().contains(id) {
                    action == HostAction::Resize(id)
                } else {
                    action is Nothing
                }),
                HostEvent::Wake => final(pipeline).ready() == old(pipeline).ready() && if old(
                    pipeline,
                ).ready() && old(self).webviews.windows() != Set::<u64>::empty() {
                    action matches HostAction::Apply(id, edits) && old(
                        self,
                    ).webviews.windows().contains(id) && edits@.map_values(|b: String| b@) == old(
                        pipeline,
                    ).pending() && final(pipeline).pending() == Seq::<Seq<char>>::empty()
                } else {
                    action is Nothing && *final(pipeline) == *old(pipeline)
                },
                HostEvent::Ipc(payload) => action matches HostAction::Ipc(o) && ipc_handled(
                    payload@,
                    *old(pipeline),
                    *final(pipeline),
                    *old(events),
                    *final(events),
                    o,
                ),
                HostEvent::ApplyFailed(edits, failed) => final(pipeline).ready() == old(
                    pipeline,
                ).ready() && final(pipeline).pending() == unapplied_after(
                    edits@.map_values(|b: String| b@),
                    failed as int,
                ) + old(pipeline).pending() && action is ReportApplyFailure,
                HostEvent::Window(cmd) => *final(pipeline) == *old(pipeline) && action
                    == HostAction::Window(cmd),
            },
    {
        match event {
            HostEvent::WindowCreated(id, view) => {
                self.register_window(id, view);
                HostAction::Nothing
            },
            HostEvent::CloseRequested(id) => {
                if self.webviews.contains_window(id) {
                    let n = self.webviews.len();
                    proof {
                        let w = old(self).webviews.windows();
                        if n == 1 {
                            assert(w.remove(id).len() == 0);
                            assert(w.remove(id) =~= Set::<u64>::empty());
                            assert(w =~= Set::<u64>::empty().insert(id));
                        }
                        if w == Set::<u64>::empty().insert(id) {
                            assert(w.len() == 1);
                        }
                    }
                    if n == 1 && self.quit_app_on_close {
                        HostAction::Exit
                    } else {
                        HostAction::CloseWindow(id)
                    }
                } else {
                    proof {
                        assert(!Set::<u64>::empty().insert(id).subset_of(old(self).webviews.windows()));
                    }
                    HostAction::Nothing
                }
            },
            HostEvent::Destroyed(id) => {
                if self.close_window(id) {
                    HostAction::Exit
                } else {
                    HostAction::Nothing
                }
            },
            HostEvent::Reshaped(id) => {
                if self.webviews.contains_window(id) {
                    HostAction::Resize(id)
                } else {
                    HostAction::Nothing
                }
            },
            HostEvent::Wake => match self.try_load_ready_webviews(pipeline) {
                Some((id, edits)) => HostAction::Apply(id, edits),
                None => HostAction::Nothing,
            },
            HostEvent::Ipc(payload) => HostAction::Ipc(dispatch_ipc(pipeline, events, payload.as_str())),
            HostEvent::Window(cmd) => HostAction::Window(cmd),
            HostEvent::ApplyFailed(edits, failed) => {
                pipeline.restore_after_failure(edits, failed);
                HostAction::ReportApplyFailure
            },
        }
    }
}

} // verus!
