use vstd::prelude::*;
use crate::json::{
    json_has_member, json_nested_str_member, json_parses, json_str_member, member, nested_str_member,
    parses, str_member,
};

verus! {

/// What an inbound message asks for, decided by its method tag.
#[derive(PartialEq, Eq, Structural, Clone, Copy, Debug)]
pub enum IpcTag {
    UserEvent,
    Initialize,
    BrowserOpen,
    Unknown,
}

/// The tag of a method name; names other than the three known ones are
/// `Unknown`.
pub open spec fn tag_of(method: Seq<char>) -> IpcTag {
    if method == "user_event"@ {
        IpcTag::UserEvent
    } else if method == "initialize"@ {
        IpcTag::Initialize
    } else if method == "browser_open"@ {
        IpcTag::BrowserOpen
    } else {
        IpcTag::Unknown
    }
}

/// Reads the tag of a method name.
pub fn classify_method(method: &String) -> (t: IpcTag)
    ensures
        t == tag_of(method@),
{
    if *method == "user_event".to_owned() {
        IpcTag::UserEvent
    } else if *method == "initialize".to_owned() {
        IpcTag::Initialize
    } else if *method == "browser_open".to_owned() {
        IpcTag::BrowserOpen
    } else {
        IpcTag::Unknown
    }
}

/// The view of an optional string.
pub open spec fn opt_text(o: Option<String>) -> Option<Seq<char>> {
    match o {
        Some(s) => Some(s@),
        None => None,
    }
}

/// Whether a payload is a message: JSON text holding an object with a string
/// `method` member and a `params` member.
pub open spec fn is_ipc_message(payload: Seq<char>) -> bool {
    json_parses(payload) && json_str_member(payload, "method"@) is Some && json_has_member(payload, "params"@)
}

/// The tag of a payload's method.
pub open spec fn payload_tag(payload: Seq<char>) -> IpcTag {
    tag_of(json_str_member(payload, "method"@).unwrap())
}

/// The link target of a payload: the string `href` member of its `params`.
pub open spec fn payload_href(payload: Seq<char>) -> Option<Seq<char>> {
    json_nested_str_member(payload, "params"@, "href"@)
}

/// An inbound message from the rendered surface: a method name, its
/// parameters, which may be any JSON value, and the link target found among
/// them, if any.
pub struct IpcMessage {
    pub method: String,
    pub params: serde_json::Value,
    pub href: Option<String>,
}

impl IpcMessage {
    pub fn method(&self) -> (m: &String)
        ensures
            m == &self.method,
    {
        &self.method
    }

    pub fn params(&self) -> (p: &serde_json::Value)
        ensures
            p == &self.params,
    {
        &self.params
    }
}

/// Reads a raw payload as `{"method": <string>, "params": <any>}`; other
/// members are ignored. Anything else gives `None`.
pub fn parse_ipc_message(payload: &str) -> (r: Option<IpcMessage>)
    ensures
        r is Some == is_ipc_message(payload@),
        !json_parses(payload@) ==> r is None,
        r matches Some(m) ==> json_str_member(payload@, "method"@) == Some(m.method@) && opt_text(
            m.href,
        ) == payload_href(payload@),
{
    if !parses(payload) {
        return None;
    }
    let method = match str_member(payload, "method") {
        Some(s) => s,
        None => return None,
    };
    let params = match member(payload, "params") {
        Some(p) => p,
        None => return None,
    };
    let href = nested_str_member(payload, "params", "href");
    Some(IpcMessage { method, params, href })
}

/// A decoded inbound command.
pub enum IpcCommand {
    /// An interaction event for the renderer, as sent by the surface.
    UserEvent(serde_json::Value),
    /// The surface's start-up handshake.
    Initialize,
    /// A request to open a link outside the application; `None` where the
    /// `href` parameter is missing or not a string.
    BrowserOpen(Option<String>),
    /// A method this host does not know; kept for diagnostics.
    Unknown(String),
}

impl IpcCommand {
    pub open spec fn tag(self) -> IpcTag {
        match self {
            IpcCommand::UserEvent(_) => IpcTag::UserEvent,
            IpcCommand::Initialize => IpcTag::Initialize,
            IpcCommand::BrowserOpen(_) => IpcTag::BrowserOpen,
            IpcCommand::Unknown(_) => IpcTag::Unknown,
        }
    }

    /// The command a message stands for, chosen by its method tag. An event
    /// carries the message's parameters unchanged; an unknown method keeps
    /// its name.
    pub fn from_message(msg: IpcMessage) -> (c: IpcCommand)
        ensures
            c.tag() == tag_of(msg.method@),
            c.tag() == IpcTag::UserEvent ==> c == IpcCommand::UserEvent(msg.params),
            c.tag() == IpcTag::Unknown ==> c == IpcCommand::Unknown(msg.method),
            c.tag() == IpcTag::BrowserOpen ==> c == IpcCommand::BrowserOpen(msg.href),
    {
        match classify_method(&msg.method) {
            IpcTag::UserEvent => IpcCommand::UserEvent(msg.params),
            IpcTag::Initialize => IpcCommand::Initialize,
            IpcTag::BrowserOpen => IpcCommand::BrowserOpen(msg.href),
            IpcTag::Unknown => IpcCommand::Unknown(msg.method),
        }
    }
}

} // verus!
