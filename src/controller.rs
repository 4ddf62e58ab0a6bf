use vstd::prelude::*;
use crate::channel::LoggedSender;
use crate::ipc::{
    is_ipc_message, parse_ipc_message, payload_href, payload_tag, IpcCommand, IpcTag,
};
use crate::json::json_parses;
use crate::pipeline::EditPipeline;
use crate::registry::WindowRegistry;

verus! {

/// What the host has to do after one inbound message.
pub enum DispatchOutcome {
    /// The event went to the renderer.
    Forwarded,
    /// The surface is ready: the host should try to apply queued edits now.
    DrainRequested,
    /// Open this link outside the application (best effort).
    OpenBrowser(String),
    /// Nothing to do: an unknown method, or a link request without a usable `href`.
    Ignored,
    /// The payload is not a message; report it once and go on.
    Malformed,
    /// The renderer's event channel is closed: the surface cannot go on.
    RendererGone,
}

/// `after` is `before` with one more value at the end.
pub open spec fn one_more<T>(before: Seq<T>, after: Seq<T>) -> bool {
    after.len() == before.len() + 1 && after.drop_last() == before
}

/// Carries out one decoded command. Only the handshake touches the pipeline,
/// and only its gate; an event is offered to the renderer's channel whether
/// or not any window exists, and `Forwarded` exactly when the channel took it.
pub fn dispatch_command(
    pipeline: &mut EditPipeline,
    events: &mut LoggedSender<serde_json::Value>,
    cmd: IpcCommand,
) -> (r: DispatchOutcome)
    ensures
        final(pipeline).pending() == old(pipeline).pending(),
        cmd.tag() == IpcTag::Initialize ==> final(pipeline).ready() && r is DrainRequested,
        cmd.tag() != IpcTag::Initialize ==> *final(pipeline) == *old(pipeline),
        cmd.tag() != IpcTag::UserEvent ==> *final(events) == *old(events),
        cmd matches IpcCommand::UserEvent(e) ==> final(events).offered() == old(events).offered().push(e)
            && (r is Forwarded || r is RendererGone)
            && (r is Forwarded ==> final(events).accepted() == old(events).accepted().push(e))
            && (r is RendererGone ==> final(events).accepted() == old(events).accepted()),
        cmd matches IpcCommand::BrowserOpen(Some(url)) ==> r == DispatchOutcome::OpenBrowser(url),
        cmd matches IpcCommand::BrowserOpen(None) ==> r is Ignored,
        cmd.tag() == IpcTag::Unknown ==> r is Ignored,
{
    match cmd {
        IpcCommand::UserEvent(event) => {
            if events.send(event) {
                DispatchOutcome::Forwarded
            } else {
                DispatchOutcome::RendererGone
            }
        },
        IpcCommand::Initialize => {
            pipeline.initialize();
            DispatchOutcome::DrainRequested
        },
        IpcCommand::BrowserOpen(Some(url)) => DispatchOutcome::OpenBrowser(url),
        IpcCommand::BrowserOpen(None) => DispatchOutcome::Ignored,
        IpcCommand::Unknown(_) => DispatchOutcome::Ignored,
    }
}

/// What handling `payload` does: `p0`/`p1` and `e0`/`e1` are the pipeline
/// and the renderer's channel before and after, `r` the outcome. A payload
/// that is not a message changes nothing and is `Malformed`. Otherwise its
/// method decides: the handshake marks the surface ready and asks for a
/// drain; an event is offered to the renderer, `Forwarded` exactly when taken
/// in; a link request yields its `href` when that is a string; an unknown
/// method is ignored. Only the handshake changes the pipeline, only an event
/// the channel.
pub open spec fn ipc_handled(
    payload: Seq<char>,
    p0: EditPipeline,
    p1: EditPipeline,
    e0: LoggedSender<serde_json::Value>,
    e1: LoggedSender<serde_json::Value>,
    r: DispatchOutcome,
) -> bool {
    &&& (r is Malformed <==> !is_ipc_message(payload))
    &&& (!json_parses(payload) ==> r is Malformed)
    &&& p1.pending() == p0.pending()
    &&& (!(is_ipc_message(payload) && payload_tag(payload) == IpcTag::Initialize) ==> p1 == p0)
    &&& (!(is_ipc_message(payload) && payload_tag(payload) == IpcTag::UserEvent) ==> e1 == e0)
    &&& (is_ipc_message(payload) && payload_tag(payload) == IpcTag::Initialize ==> p1.ready()
        && r is DrainRequested)
    &&& (is_ipc_message(payload) && payload_tag(payload) == IpcTag::UserEvent ==> one_more(
        e0.offered(),
        e1.offered(),
    ) && (r is Forwarded || r is RendererGone) && (r is Forwarded ==> one_more(
        e0.accepted(),
        e1.accepted(),
    ) && e1.accepted().last() == e1.offered().last()) && (r is RendererGone ==> e1.accepted()
        == e0.accepted()))
    &&& (is_ipc_message(payload) && payload_tag(payload) == IpcTag::BrowserOpen ==> match payload_href(payload) {
        Some(u) => r matches DispatchOutcome::OpenBrowser(s) && s@ == u,
        None => r is Ignored,
    })
    &&& (is_ipc_message(payload) && payload_tag(payload) == IpcTag::Unknown ==> r is Ignored)
}

/// Handles one raw payload from the surface, as `ipc_handled` states.
pub fn dispatch_ipc(
    pipeline: &mut EditPipeline,
    events: &mut LoggedSender<serde_json::Value>,
    payload: &str,
) -> (r: DispatchOutcome)
    ensures
        ipc_handled(payload@, *old(pipeline), *final(pipeline), *old(events), *final(events), r),
{
    match parse_ipc_message(payload) {
        Some(msg) => {
            let r = dispatch_command(pipeline, events, IpcCommand::from_message(msg));
            proof {
                if final(events).offered() != old(events).offered() {
                    assert(final(events).offered().drop_last() =~= old(events).offered());
                }
                if r is Forwarded {
                    assert(final(events).accepted().drop_last() =~= old(events).accepted());
                }
            }
            r
        },
        None => DispatchOutcome::Malformed,
    }
}

/// Whether closing window `id` ends the process loop: under the
/// exit-on-last-close policy, exactly when it removes the last live window.
pub open spec fn close_signals_exit(windows: Set<u64>, id: u64, quit_on_last_close: bool) -> bool {
    quit_on_last_close && windows.contains(id) && windows.remove(id) == Set::<u64>::empty()
}

/// Number of exit signals raised by closing the windows `closes`, in order,
/// starting from the live set `windows`.
pub open spec fn exit_signals(windows: Set<u64>, closes: Seq<u64>, quit_on_last_close: bool) -> nat
    decreases closes.len(),
{
    if closes.len() == 0 {
        0
    } else {
        (if close_signals_exit(windows, closes[0], quit_on_last_close) {
            1nat
        } else {
            0nat
        }) + exit_signals(windows.remove(closes[0]), closes.drop_first(), quit_on_last_close)
    }
}

/// Host-side state of the application: the live windows and the exit policy.
pub struct DesktopController<V> {
    pub webviews: WindowRegistry<V>,
    pub quit_app_on_close: bool,
}

impl<V> DesktopController<V> {
    pub open spec fn wf(self) -> bool {
        self.webviews.wf()
    }

    /// No window yet.
    pub fn new(quit_app_on_close: bool) -> (r: DesktopController<V>)
        ensures
            r.wf(),
            r.webviews.windows() == Set::<u64>::empty(),
            r.quit_app_on_close == quit_app_on_close,
    {
        DesktopController { webviews: WindowRegistry::new(), quit_app_on_close }
    }

    /// Registers a window whose view has been built.
    pub fn register_window(&mut self, id: u64, view: V)
        requires
            old(self).wf(),
        ensures
            final(self).wf(),
            final(self).webviews.windows() == old(self).webviews.windows().insert(id),
            final(self).webviews.view_of(id) == view,
            forall|k: u64| k != id && old(self).webviews.windows().contains(k) ==> #[trigger] final(self).webviews.view_of(k) == old(self).webviews.view_of(k),
            final(self).quit_app_on_close == old(self).quit_app_on_close,
    {
        let _ = self.webviews.insert(id, view);
    }

    /// Forgets a destroyed window; `true` asks the host to leave its loop.
    pub fn close_window(&mut self, id: u64) -> (exit: bool)
        requires
            old(self).wf(),
        ensures
            final(self).wf(),
            final(self).webviews.windows() == old(self).webviews.windows().remove(id),
            forall|k: u64| k != id && old(self).webviews.windows().contains(k) ==> #[trigger] final(self).webviews.view_of(k) == old(self).webviews.view_of(k),
            final(self).quit_app_on_close == old(self).quit_app_on_close,
            exit == close_signals_exit(old(self).webviews.windows(), id, old(self).quit_app_on_close),
    {
        let removed = self.webviews.remove(id);
        let now_empty = self.webviews.is_empty();
        match removed {
            Some(_) => now_empty && self.quit_app_on_close,
            None => false,
        }
    }

    /// Answers a wake signal. With the surface ready and a window live, every
    /// queued batch leaves the queue, oldest first, for one live window;
    /// otherwise the queue stays as it is.
    pub fn try_load_ready_webviews(&self, pipeline: &mut EditPipeline) -> (r: Option<(u64, Vec<String>)>)
        requires
            self.wf(),
        ensures
            final(pipeline).ready() == old(pipeline).ready(),
            (old(pipeline).ready() && self.webviews.windows() != Set::<u64>::empty()) ==> (
            r matches Some((id, edits)) && self.webviews.windows().contains(id) && edits@.map_values(
                |b: String| b@,
            ) == old(pipeline).pending() && final(pipeline).pending() == Seq::<Seq<char>>::empty()),
            !(old(pipeline).ready() && self.webviews.windows() != Set::<u64>::empty()) ==> (r is None
                && *final(pipeline) == *old(pipeline)),
    {
        if !pipeline.is_ready() {
            return None;
        }
        match self.webviews.first_window() {
            Some(id) => {
                let edits = pipeline.take_ready_edits();
                Some((id, edits))
            },
            None => None,
        }
    }
}

/// Under the exit-on-last-close policy, closing every live window, in any
/// order and with repeats or unknown windows mixed in, raises exactly one exit
/// signal; while some window stays live, none is raised.
pub proof fn lemma_exit_once(windows: Set<u64>, closes: Seq<u64>)
    requires
        windows.finite(),
        windows != Set::<u64>::empty(),
        forall|w: u64| windows.contains(w) ==> closes.contains(w),
    ensures
        exit_signals(windows, closes, true) == 1,
    decreases closes.len(),
{
    assert(!(windows =~= Set::<u64>::empty()));
    let w0 = choose|w: u64| windows.contains(w);
    assert(closes.contains(w0));
    let c = closes[0];
    let rest = closes.drop_first();
    let w2 = windows.remove(c);
    if w2 == Set::<u64>::empty() {
        if !windows.contains(c) {
            assert(w2 =~= windows);
        }
        lemma_no_exit_when_empty(rest);
    } else {
        assert forall|w: u64| w2.contains(w) implies rest.contains(w) by {
            let k = choose|k: int| 0 <= k < closes.len() && closes[k] == w;
            assert(k != 0);
            assert(rest[k - 1] == w);
        }
        lemma_exit_once(w2, rest);
    }
}

proof fn lemma_no_exit_when_empty(closes: Seq<u64>)
    ensures
        exit_signals(Set::<u64>::empty(), closes, true) == 0,
    decreases closes.len(),
{
    if closes.len() > 0 {
        assert(Set::<u64>::empty().remove(closes[0]) =~= Set::<u64>::empty());
        lemma_no_exit_when_empty(closes.drop_first());
    }
}

} // verus!
