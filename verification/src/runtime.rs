//! What the runner remembers of actors, requests and WebSockets.

use crate::actor::{ActorConfig, ActorConfigView, Headers, HibernatingRequest, HibernatingRequestView};
use crate::protocol::{EventWrapper, EventWrapperView};
use vstd::prelude::*;

verus! {

/// An actor that was started and has not stopped.
/// `start_notify` names whoever waits for the actor to be up.
#[derive(Clone, Debug, PartialEq, Eq)]
pub struct ActorRuntimeState {
    pub generation: u32,
    pub config: ActorConfig,
    pub started: bool,
    pub start_notify: u64,
    pub last_command_idx: i64,
    pub next_event_idx: i64,
    pub event_history: Vec<EventWrapper>,
    pub hibernating_requests: Vec<HibernatingRequest>,
    pub hibernation_restored: bool,
}

/// The contents of a [`ActorRuntimeState`].
#[verifier::ext_equal]
pub struct ActorRuntimeStateView {
    pub generation: u32,
    pub config: ActorConfigView,
    pub started: bool,
    pub start_notify: u64,
    pub last_command_idx: i64,
    pub next_event_idx: i64,
    pub event_history: Seq<EventWrapperView>,
    pub hibernating_requests: Seq<HibernatingRequestView>,
    pub hibernation_restored: bool,
}

impl DeepView for ActorRuntimeState {
    type V = ActorRuntimeStateView;

    open spec fn deep_view(&self) -> ActorRuntimeStateView {
        ActorRuntimeStateView {
            generation: self.generation,
            config: self.config.deep_view(),
            started: self.started,
            start_notify: self.start_notify,
            last_command_idx: self.last_command_idx,
            next_event_idx: self.next_event_idx,
            event_history: self.event_history.deep_view(),
            hibernating_requests: self.hibernating_requests.deep_view(),
            hibernation_restored: self.hibernation_restored,
        }
    }
}

/// An HTTP request, with as much of its body as has arrived.
#[derive(Clone, Debug, PartialEq, Eq)]
pub struct PendingHttpRequest {
    pub actor_id: String,
    pub method: String,
    pub path: String,
    pub headers: Headers,
    pub body: Vec<u8>,
}

/// The contents of a [`PendingHttpRequest`].
#[verifier::ext_equal]
pub struct PendingHttpRequestView {
    pub actor_id: Seq<char>,
    pub method: Seq<char>,
    pub path: Seq<char>,
    pub headers: Seq<(Seq<char>, Seq<char>)>,
    pub body: Seq<u8>,
}

impl DeepView for PendingHttpRequest {
    type V = PendingHttpRequestView;

    open spec fn deep_view(&self) -> PendingHttpRequestView {
        PendingHttpRequestView {
            actor_id: self.actor_id.deep_view(),
            method: self.method.deep_view(),
            path: self.path.deep_view(),
            headers: self.headers.deep_view(),
            body: self.body.deep_view(),
        }
    }
}

/// An open WebSocket.
#[derive(Clone, Debug, PartialEq, Eq)]
pub struct WebSocketRuntimeState {
    pub actor_id: String,
    pub generation: u32,
    pub actor_name: String,
    pub path: String,
    pub headers: Headers,
    pub is_hibernatable: bool,
    pub is_restoring_hibernatable: bool,
    pub server_message_index: u16,
}

/// The contents of a [`WebSocketRuntimeState`].
#[verifier::ext_equal]
pub struct WebSocketRuntimeStateView {
    pub actor_id: Seq<char>,
    pub generation: u32,
    pub actor_name: Seq<char>,
    pub path: Seq<char>,
    pub headers: Seq<(Seq<char>, Seq<char>)>,
    pub is_hibernatable: bool,
    pub is_restoring_hibernatable: bool,
    pub server_message_index: u16,
}

impl DeepView for WebSocketRuntimeState {
    type V = WebSocketRuntimeStateView;

    open spec fn deep_view(&self) -> WebSocketRuntimeStateView {
        WebSocketRuntimeStateView {
            actor_id: self.actor_id.deep_view(),
            generation: self.generation,
            actor_name: self.actor_name.deep_view(),
            path: self.path.deep_view(),
            headers: self.headers.deep_view(),
            is_hibernatable: self.is_hibernatable,
            is_restoring_hibernatable: self.is_restoring_hibernatable,
            server_message_index: self.server_message_index,
        }
    }
}

/// The way to the engine: not there, in use, or there but no longer drained.
#[derive(Clone, Copy, Debug, PartialEq, Eq, Structural)]
pub enum SenderState {
    Absent,
    Open,
    Closed,
}

} // verus!
