//! Actors, and what callbacks about them are told.

use crate::duplicate::Duplicate;
use vstd::prelude::*;

verus! {

/// Whether no name stands among some pairs twice.
pub open spec fn names_are_distinct<V>(pairs: Seq<(Seq<char>, V)>) -> bool {
    forall|i: int, j: int| 0 <= i < j < pairs.len() ==> (#[trigger] pairs[i]).0 != (#[trigger] pairs[j]).0
}

/// Header names and values, as they travel. No name stands among them twice, see
/// [`names_are_distinct`].
pub type Headers = Vec<(String, String)>;

/// What an actor was created with.
#[derive(Clone, Debug, PartialEq, Eq)]
pub struct ActorConfig {
    pub name: String,
    pub key: Option<String>,
    pub create_ts: i64,
    pub input: Option<Vec<u8>>,
}

/// The contents of a [`ActorConfig`].
#[verifier::ext_equal]
pub struct ActorConfigView {
    pub name: Seq<char>,
    pub key: Option<Seq<char>>,
    pub create_ts: i64,
    pub input: Option<Seq<u8>>,
}

impl DeepView for ActorConfig {
    type V = ActorConfigView;

    open spec fn deep_view(&self) -> ActorConfigView {
        ActorConfigView {
            name: self.name.deep_view(),
            key: self.key.deep_view(),
            create_ts: self.create_ts,
            input: self.input.deep_view(),
        }
    }
}

impl Duplicate for ActorConfig {
    fn duplicate(&self) -> (copy: Self) {
        ActorConfig {
            name: self.name.duplicate(),
            key: self.key.duplicate(),
            create_ts: self.create_ts,
            input: self.input.duplicate(),
        }
    }
}

/// A request that was left open while its actor was away.
#[derive(Clone, Debug, PartialEq, Eq)]
pub struct HibernatingRequest {
    pub gateway_id: [u8; 4],
    pub request_id: [u8; 4],
}

/// The contents of a [`HibernatingRequest`].
#[verifier::ext_equal]
pub struct HibernatingRequestView {
    pub gateway_id: Seq<u8>,
    pub request_id: Seq<u8>,
}

impl DeepView for HibernatingRequest {
    type V = HibernatingRequestView;

    open spec fn deep_view(&self) -> HibernatingRequestView {
        HibernatingRequestView {
            gateway_id: self.gateway_id@,
            request_id: self.request_id@,
        }
    }
}

impl Duplicate for HibernatingRequest {
    fn duplicate(&self) -> (copy: Self) {
        HibernatingRequest {
            gateway_id: self.gateway_id,
            request_id: self.request_id,
        }
    }
}

/// What the start and stop callbacks of an actor are told.
#[derive(Clone, Debug, PartialEq, Eq)]
pub struct ActorContext {
    pub actor_id: String,
    pub generation: u32,
    pub actor_name: String,
    pub config: ActorConfig,
    pub hibernating_requests: Vec<HibernatingRequest>,
}

/// The contents of a [`ActorContext`].
#[verifier::ext_equal]
pub struct ActorContextView {
    pub actor_id: Seq<char>,
    pub generation: u32,
    pub actor_name: Seq<char>,
    pub config: ActorConfigView,
    pub hibernating_requests: Seq<HibernatingRequestView>,
}

impl DeepView for ActorContext {
    type V = ActorContextView;

    open spec fn deep_view(&self) -> ActorContextView {
        ActorContextView {
            actor_id: self.actor_id.deep_view(),
            generation: self.generation,
            actor_name: self.actor_name.deep_view(),
            config: self.config.deep_view(),
            hibernating_requests: self.hibernating_requests.deep_view(),
        }
    }
}

impl Duplicate for ActorContext {
    fn duplicate(&self) -> (copy: Self) {
        ActorContext {
            actor_id: self.actor_id.duplicate(),
            generation: self.generation,
            actor_name: self.actor_name.duplicate(),
            config: self.config.duplicate(),
            hibernating_requests: self.hibernating_requests.duplicate(),
        }
    }
}

/// What the callback for an HTTP request is told.
#[derive(Clone, Debug, PartialEq, Eq)]
pub struct HttpContext {
    pub actor_id: String,
    pub generation: u32,
    pub actor_name: String,
    pub gateway_id: [u8; 4],
    pub request_id: [u8; 4],
}

/// The contents of a [`HttpContext`].
#[verifier::ext_equal]
pub struct HttpContextView {
    pub actor_id: Seq<char>,
    pub generation: u32,
    pub actor_name: Seq<char>,
    pub gateway_id: Seq<u8>,
    pub request_id: Seq<u8>,
}

impl DeepView for HttpContext {
    type V = HttpContextView;

    open spec fn deep_view(&self) -> HttpContextView {
        HttpContextView {
            actor_id: self.actor_id.deep_view(),
            generation: self.generation,
            actor_name: self.actor_name.deep_view(),
            gateway_id: self.gateway_id@,
            request_id: self.request_id@,
        }
    }
}

/// What the callbacks for a WebSocket are told.
#[derive(Clone, Debug, PartialEq, Eq)]
pub struct WebSocketContext {
    pub actor_id: String,
    pub generation: u32,
    pub actor_name: String,
    pub gateway_id: [u8; 4],
    pub request_id: [u8; 4],
    pub path: String,
    pub headers: Headers,
    pub is_hibernatable: bool,
    pub is_restoring_hibernatable: bool,
}

/// The contents of a [`WebSocketContext`].
#[verifier::ext_equal]
pub struct WebSocketContextView {
    pub actor_id: Seq<char>,
    pub generation: u32,
    pub actor_name: Seq<char>,
    pub gateway_id: Seq<u8>,
    pub request_id: Seq<u8>,
    pub path: Seq<char>,
    pub headers: Seq<(Seq<char>, Seq<char>)>,
    pub is_hibernatable: bool,
    pub is_restoring_hibernatable: bool,
}

impl DeepView for WebSocketContext {
    type V = WebSocketContextView;

    open spec fn deep_view(&self) -> WebSocketContextView {
        WebSocketContextView {
            actor_id: self.actor_id.deep_view(),
            generation: self.generation,
            actor_name: self.actor_name.deep_view(),
            gateway_id: self.gateway_id@,
            request_id: self.request_id@,
            path: self.path.deep_view(),
            headers: self.headers.deep_view(),
            is_hibernatable: self.is_hibernatable,
            is_restoring_hibernatable: self.is_restoring_hibernatable,
        }
    }
}

/// What an actor kept of a WebSocket that hibernates.
#[derive(Clone, Debug, PartialEq, Eq)]
pub struct HibernatingWebSocketMetadata {
    pub gateway_id: [u8; 4],
    pub request_id: [u8; 4],
    pub client_message_index: u16,
    pub server_message_index: u16,
    pub path: String,
    pub headers: Headers,
}

/// The contents of a [`HibernatingWebSocketMetadata`].
#[verifier::ext_equal]
pub struct HibernatingWebSocketMetadataView {
    pub gateway_id: Seq<u8>,
    pub request_id: Seq<u8>,
    pub client_message_index: u16,
    pub server_message_index: u16,
    pub path: Seq<char>,
    pub headers: Seq<(Seq<char>, Seq<char>)>,
}

impl DeepView for HibernatingWebSocketMetadata {
    type V = HibernatingWebSocketMetadataView;

    open spec fn deep_view(&self) -> HibernatingWebSocketMetadataView {
        HibernatingWebSocketMetadataView {
            gateway_id: self.gateway_id@,
            request_id: self.request_id@,
            client_message_index: self.client_message_index,
            server_message_index: self.server_message_index,
            path: self.path.deep_view(),
            headers: self.headers.deep_view(),
        }
    }
}

/// A message that arrived on a WebSocket.
#[derive(Clone, Debug, PartialEq, Eq)]
pub struct WebSocketMessage {
    pub data: Vec<u8>,
    pub binary: bool,
    pub message_index: u16,
}

/// The contents of a [`WebSocketMessage`].
#[verifier::ext_equal]
pub struct WebSocketMessageView {
    pub data: Seq<u8>,
    pub binary: bool,
    pub message_index: u16,
}

impl DeepView for WebSocketMessage {
    type V = WebSocketMessageView;

    open spec fn deep_view(&self) -> WebSocketMessageView {
        WebSocketMessageView {
            data: self.data.deep_view(),
            binary: self.binary,
            message_index: self.message_index,
        }
    }
}

/// What subscribers are told of an actor.
#[derive(Clone, Debug, PartialEq, Eq)]
pub enum ActorLifecycleEvent {
    Started { actor_id: String, generation: u32 },
    Stopped { actor_id: String, generation: u32 },
}

/// The contents of a [`ActorLifecycleEvent`].
#[verifier::ext_equal]
pub enum ActorLifecycleEventView {
    Started { actor_id: Seq<char>, generation: u32 },
    Stopped { actor_id: Seq<char>, generation: u32 },
}

impl DeepView for ActorLifecycleEvent {
    type V = ActorLifecycleEventView;

    open spec fn deep_view(&self) -> ActorLifecycleEventView {
        match self {
            ActorLifecycleEvent::Started { actor_id, generation } => ActorLifecycleEventView::Started {
                actor_id: actor_id.deep_view(),
                generation: *generation,
            },
            ActorLifecycleEvent::Stopped { actor_id, generation } => ActorLifecycleEventView::Stopped {
                actor_id: actor_id.deep_view(),
                generation: *generation,
            },
        }
    }
}

impl HibernatingWebSocketMetadataView {
    /// No header is given twice.
    pub open spec fn valid(self) -> bool {
        names_are_distinct(self.headers)
    }
}

impl WebSocketContextView {
    /// No header is given twice.
    pub open spec fn valid(self) -> bool {
        names_are_distinct(self.headers)
    }
}

} // verus!
