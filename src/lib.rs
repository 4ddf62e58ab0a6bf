//! Synchronisation core between a renderer worker, a window host and an
//! external scheduler: an ordered edit queue, a one-way readiness gate, the
//! inbound message dispatcher, a window registry and the command bridge.

mod atom;
mod bridge;
mod channel;
mod context;
mod controller;
mod gate;
mod host;
mod ipc;
mod json;
mod pipeline;
mod queue;
mod registry;

pub use atom::{init_atom_ref, AtomRef, AtomRefBuilder};
pub use bridge::{
    poll_ui_commands, BridgeError, CommandBridge, LoggedBroadcast, UiInbox, UiPoll,
    UI_COMMAND_CAPACITY,
};
pub use channel::LoggedSender;
pub use context::{DesktopContext, WindowCommand};
pub use controller::{
    close_signals_exit, dispatch_command, dispatch_ipc, exit_signals, ipc_handled, lemma_exit_once,
    one_more,
    DesktopController, DispatchOutcome,
};
pub use gate::{gate_after, lemma_gate_latches, GateAccess, ReadinessGate};
pub use host::{close_request_exits, HostAction, HostEvent};
pub use ipc::{
    classify_method, is_ipc_message, opt_text, parse_ipc_message, payload_href, payload_tag, tag_of,
    IpcCommand, IpcMessage, IpcTag,
};
pub use json::{json_has_member, json_nested_str_member, json_parses, json_str_member};
pub use pipeline::{
    lemma_buffered_until_ready, pipeline_run, pushed, unapplied_after, wake_outcome, EditPipeline, PipelineStep,
};
pub use queue::{enqueued, lemma_queue_fifo, queue_run, MutationQueue, QueueStep};
pub use registry::WindowRegistry;
