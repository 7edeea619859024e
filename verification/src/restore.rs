//! Restoring the WebSockets that hibernated while their actor was away.

use crate::actions::{RestoreStep, RestoreStepView};
use crate::actor::{
    HibernatingRequest, HibernatingRequestView, HibernatingWebSocketMetadata, HibernatingWebSocketMetadataView,
};
use crate::duplicate::Duplicate;
use crate::error::{outcome, RunnerError, RunnerErrorView};
use crate::runtime::{ActorRuntimeStateView, WebSocketRuntimeState, WebSocketRuntimeStateView};
use crate::state::{history_in_order, RunnerInner, RunnerModel};
use crate::tunnel::{TunnelRequestKey, TunnelRequestKeyView};
use crate::websocket::{websocket_context, websocket_context_from_state};
use vstd::prelude::*;

verus! {

/// The restoring of the WebSockets of an actor that has come back, and how far it is.
/// `at` counts the connected requests that are done, `stale_at` the metadata entries.
#[derive(Debug)]
pub struct Restore {
    pub actor_id: String,
    pub generation: u32,
    pub actor_name: String,
    pub connected: Vec<HibernatingRequest>,
    pub meta_entries: Vec<HibernatingWebSocketMetadata>,
    pub at: usize,
    pub stale_at: usize,
}

/// The contents of a [`Restore`].
#[verifier::ext_equal]
pub struct RestoreView {
    pub actor_id: Seq<char>,
    pub generation: u32,
    pub actor_name: Seq<char>,
    pub connected: Seq<HibernatingRequestView>,
    pub meta_entries: Seq<HibernatingWebSocketMetadataView>,
    pub at: usize,
    pub stale_at: usize,
}

impl DeepView for Restore {
    type V = RestoreView;

    open spec fn deep_view(&self) -> RestoreView {
        RestoreView {
            actor_id: self.actor_id.deep_view(),
            generation: self.generation,
            actor_name: self.actor_name.deep_view(),
            connected: self.connected.deep_view(),
            meta_entries: self.meta_entries.deep_view(),
            at: self.at,
            stale_at: self.stale_at,
        }
    }
}

/// The tunnel of a request that was left open.
pub open spec fn request_key(request: HibernatingRequestView) -> TunnelRequestKeyView {
    TunnelRequestKeyView { gateway_id: request.gateway_id, request_id: request.request_id }
}

/// The tunnel that metadata is about.
pub open spec fn meta_key(meta: HibernatingWebSocketMetadataView) -> TunnelRequestKeyView {
    TunnelRequestKeyView { gateway_id: meta.gateway_id, request_id: meta.request_id }
}

/// The first metadata about a tunnel.
pub open spec fn meta_for(
    meta_entries: Seq<HibernatingWebSocketMetadataView>,
    key: TunnelRequestKeyView,
) -> Option<HibernatingWebSocketMetadataView>
    decreases meta_entries.len(),
{
    if meta_entries.len() == 0 {
        None
    } else if meta_key(meta_entries[0]) == key {
        Some(meta_entries[0])
    } else {
        meta_for(meta_entries.skip(1), key)
    }
}

/// Whether a tunnel was left open.
pub open spec fn is_connected(connected: Seq<HibernatingRequestView>, key: TunnelRequestKeyView) -> bool {
    exists|i: int| 0 <= i < connected.len() && request_key(#[trigger] connected[i]) == key
}

impl RestoreView {
    /// The WebSocket that metadata brings back.
    pub open spec fn restored(self, meta: HibernatingWebSocketMetadataView) -> WebSocketRuntimeStateView {
        WebSocketRuntimeStateView {
            actor_id: self.actor_id,
            generation: self.generation,
            actor_name: self.actor_name,
            path: meta.path,
            headers: meta.headers,
            is_hibernatable: true,
            is_restoring_hibernatable: true,
            server_message_index: meta.server_message_index,
        }
    }

    /// What the open callback is told of a WebSocket that is brought back.
    pub open spec fn open_step(self, meta: HibernatingWebSocketMetadataView) -> RestoreStepView {
        RestoreStepView::Open(websocket_context(meta_key(meta), self.restored(meta)))
    }

    /// What the close callback is told of a WebSocket that is no longer connected.
    pub open spec fn close_step(self, meta: HibernatingWebSocketMetadataView) -> RestoreStepView {
        RestoreStepView::Close {
            context: websocket_context(meta_key(meta), self.restored(meta)),
            code: 1000,
            reason: "ws.stale_metadata"@,
        }
    }

    /// With one more connected request done.
    pub open spec fn past_request(self) -> Self {
        RestoreView { at: (self.at + 1) as usize, ..self }
    }

    /// With one more metadata entry done.
    pub open spec fn past_meta(self) -> Self {
        RestoreView { stale_at: (self.stale_at + 1) as usize, ..self }
    }

    /// How much is left.
    pub open spec fn left(self) -> int {
        self.connected.len() - self.at + (self.meta_entries.len() - self.stale_at)
    }

    /// Nothing is counted beyond what there is, and the counts can be reached.
    pub open spec fn valid(self) -> bool {
        &&& self.at <= self.connected.len() <= usize::MAX
        &&& self.stale_at <= self.meta_entries.len() <= usize::MAX
    }
}

impl RunnerModel {
    /// Where the restoring of the WebSockets of an actor begins; an error where the actor is not
    /// known or this was done before.
    pub open spec fn restore_begun(
        self,
        actor_id: Seq<char>,
        meta_entries: Seq<HibernatingWebSocketMetadataView>,
    ) -> Result<RestoreView, RunnerErrorView> {
        if !self.actors.has(actor_id) {
            Err(RunnerErrorView::ActorNotFound { actor_id: actor_id })
        } else {
            let actor = self.actors.at(actor_id);
            if actor.hibernation_restored {
                Err(RunnerErrorView::AlreadyRestored { actor_id: actor_id })
            } else {
                Ok(
                    RestoreView {
                        actor_id: actor_id,
                        generation: actor.generation,
                        actor_name: actor.config.name,
                        connected: actor.hibernating_requests,
                        meta_entries: meta_entries,
                        at: 0,
                        stale_at: 0,
                    },
                )
            }
        }
    }

    /// With the restoring of the WebSockets of an actor begun, so that it is not done again.
    pub open spec fn with_restore_begun(self, actor_id: Seq<char>) -> Self {
        if self.actors.has(actor_id) {
            RunnerModel {
                actors: self.actors.insert(
                    actor_id,
                    ActorRuntimeStateView { hibernation_restored: true, ..self.actors.at(actor_id) },
                ),
                ..self
            }
        } else {
            self
        }
    }

    /// With a connected request closed because nothing is known of its WebSocket.
    pub open spec fn unknown_closed(self, key: TunnelRequestKeyView) -> Self {
        self.close_sent(key, 1000, "ws.meta_not_found_during_restore"@)
    }

    /// With a WebSocket brought back.
    pub open spec fn brought_back(self, restore: RestoreView, meta: HibernatingWebSocketMetadataView) -> Self {
        self.with_tunnel_index(meta_key(meta), meta.client_message_index).with_websocket(
            meta_key(meta),
            restore.restored(meta),
        )
    }

    /// Goes on with restoring up to the next callback: the runner after that, how far the
    /// restoring is, and the callback. First the connected requests are taken in turn, and one
    /// without metadata is closed; then the metadata entries, and one that is still connected is
    /// passed over.
    pub open spec fn restore_advanced(self, restore: RestoreView) -> (RunnerModel, RestoreView, RestoreStepView)
        decreases restore.left(),
        when restore.valid()
    {
        if restore.at < restore.connected.len() {
            let key = request_key(restore.connected[restore.at as int]);
            match meta_for(restore.meta_entries, key) {
                Some(meta) => (self.brought_back(restore, meta), restore, restore.open_step(meta)),
                None => match self.send_outcome() {
                    Ok(_) => self.unknown_closed(key).restore_advanced(restore.past_request()),
                    Err(error) => (self.unknown_closed(key), restore, RestoreStepView::Failed(error)),
                },
            }
        } else if restore.stale_at < restore.meta_entries.len() {
            let meta = restore.meta_entries[restore.stale_at as int];
            if is_connected(restore.connected, meta_key(meta)) {
                self.restore_advanced(restore.past_meta())
            } else {
                (self, restore, restore.close_step(meta))
            }
        } else {
            (self, restore, RestoreStepView::Finished)
        }
    }

    /// After the open callback of a WebSocket that was brought back. A failed one closes it.
    pub open spec fn restore_opened(self, key: TunnelRequestKeyView, callback_succeeded: bool) -> Self {
        if callback_succeeded {
            self
        } else {
            self.without_websocket(key).close_sent(key, 1011, "ws.restore_error"@)
        }
    }

    /// What bringing back a WebSocket gives.
    pub open spec fn restore_open_outcome(self, callback_succeeded: bool) -> Result<(), RunnerErrorView> {
        if callback_succeeded {
            Ok(())
        } else {
            self.send_outcome()
        }
    }

    /// After the close callback of a WebSocket that is no longer connected.
    pub open spec fn restore_closed(self, key: TunnelRequestKeyView, callback_succeeded: bool) -> Self {
        if callback_succeeded {
            self.without_websocket(key)
        } else {
            self
        }
    }
}

fn key_of_request(request: &HibernatingRequest) -> (key: TunnelRequestKey)
    ensures
        key.deep_view() == request_key(request.deep_view()),
{
    TunnelRequestKey { gateway_id: request.gateway_id, request_id: request.request_id }
}

fn key_of_meta(meta: &HibernatingWebSocketMetadata) -> (key: TunnelRequestKey)
    ensures
        key.deep_view() == meta_key(meta.deep_view()),
{
    TunnelRequestKey { gateway_id: meta.gateway_id, request_id: meta.request_id }
}

fn find_meta<'a>(meta_entries: &'a Vec<HibernatingWebSocketMetadata>, request: &HibernatingRequest) -> (found: Option<
    &'a HibernatingWebSocketMetadata,
>)
    ensures
        found is Some == meta_for(meta_entries.deep_view(), request_key(request.deep_view())) is Some,
        found is Some ==> meta_for(meta_entries.deep_view(), request_key(request.deep_view())) == Some(
            found->0.deep_view(),
        ),
        found is Some ==> meta_key(found->0.deep_view()) == request_key(request.deep_view()),
{
    let mut at: usize = 0;
    let ghost key = request_key(request.deep_view());
    let ghost entries = meta_entries.deep_view();
    assert(entries.skip(0) =~= entries);
    while at < meta_entries.len()
        invariant
            at <= meta_entries.len(),
            key == request_key(request.deep_view()),
            entries == meta_entries.deep_view(),
            meta_for(entries, key) == meta_for(entries.skip(at as int), key),
        decreases meta_entries.len() - at,
    {
        let entry = &meta_entries[at];
        assert(entries.skip(at as int)[0] == entry.deep_view());
        if key_of_meta(entry).same(&key_of_request(request)) {
            return Some(entry);
        }
        assert(entries.skip(at as int).skip(1) =~= entries.skip(at + 1));
        at = at + 1;
    }
    None
}

fn is_among(connected: &Vec<HibernatingRequest>, meta: &HibernatingWebSocketMetadata) -> (found: bool)
    ensures
        found == is_connected(connected.deep_view(), meta_key(meta.deep_view())),
{
    let mut at: usize = 0;
    while at < connected.len()
        invariant
            at <= connected.len(),
            forall|i: int|
                0 <= i < at ==> request_key((#[trigger] connected.deep_view()[i])) != meta_key(meta.deep_view()),
        decreases connected.len() - at,
    {
        let request = &connected[at];
        assert(connected.deep_view()[at as int] == request.deep_view());
        if key_of_request(request).same(&key_of_meta(meta)) {
            assert(request_key(connected.deep_view()[at as int]) == meta_key(meta.deep_view()));
            return true;
        }
        at = at + 1;
    }
    false
}

impl Restore {
    /// The tunnel of the connected request that is at hand.
    fn request_key(&self) -> (key: TunnelRequestKey)
        requires
            self.at < self.connected@.len(),
        ensures
            key.deep_view() == request_key(self.deep_view().connected[self.at as int]),
    {
        key_of_request(&self.connected[self.at])
    }

    /// The tunnel that the metadata at hand is about.
    fn meta_key(&self) -> (key: TunnelRequestKey)
        requires
            self.stale_at < self.meta_entries@.len(),
        ensures
            key.deep_view() == meta_key(self.deep_view().meta_entries[self.stale_at as int]),
    {
        key_of_meta(&self.meta_entries[self.stale_at])
    }

    fn restored_state(&self, meta: &HibernatingWebSocketMetadata) -> (state: WebSocketRuntimeState)
        ensures
            state.deep_view() == self.deep_view().restored(meta.deep_view()),
    {
        WebSocketRuntimeState {
            actor_id: self.actor_id.clone(),
            generation: self.generation,
            actor_name: self.actor_name.clone(),
            path: meta.path.clone(),
            headers: meta.headers.duplicate(),
            is_hibernatable: true,
            is_restoring_hibernatable: true,
            server_message_index: meta.server_message_index,
        }
    }
}

impl RunnerInner {
    /// Begins to restore the WebSockets of an actor that has come back.
    pub fn restore_hibernating_requests(
        &mut self,
        actor_id: &str,
        meta_entries: Vec<HibernatingWebSocketMetadata>,
    ) -> (begun: Result<Restore, RunnerError>)
        requires
            old(self).wf(),
        ensures
            final(self).wf(),
            final(self)@ == if begun is Ok {
                old(self)@.with_restore_begun(actor_id@)
            } else {
                old(self)@
            },
            outcome(begun) == old(self)@.restore_begun(actor_id@, meta_entries.deep_view()),
            begun is Ok ==> begun->Ok_0.deep_view().valid(),
    {
        let ghost before = self@;
        let begun = match self.actors.get(actor_id) {
            None => {
                return Err(RunnerError::ActorNotFound { actor_id: actor_id.to_owned() });
            },
            Some(actor) => {
                if actor.hibernation_restored {
                    return Err(RunnerError::AlreadyRestored { actor_id: actor_id.to_owned() });
                }
                Restore {
                    actor_id: actor_id.to_owned(),
                    generation: actor.generation,
                    actor_name: actor.config.name.clone(),
                    connected: actor.hibernating_requests.duplicate(),
                    meta_entries,
                    at: 0,
                    stale_at: 0,
                }
            },
        };
        if let Some(actor) = self.actors.get_mut(actor_id) {
            actor.hibernation_restored = true;
        }
        proof {
            assert(begun.connected.len() <= usize::MAX && begun.meta_entries.len() <= usize::MAX);
            assert(before.actors.has(actor_id@));
            assert forall|other: Seq<char>| #[trigger] self@.actors.has(other) implies history_in_order(
                other,
                self@.actors.at(other),
            ) by {
                assert(before.actors.has(other));
            }
        }
        Ok(begun)
    }

    /// Goes on with restoring up to the next callback.
    pub fn advance_restore(&mut self, restore: &mut Restore) -> (step: RestoreStep)
        requires
            old(self).wf(),
            old(restore).deep_view().valid(),
        ensures
            final(self).wf(),
            final(restore).deep_view().valid(),
            (final(self)@, final(restore).deep_view(), step.deep_view()) == old(self)@.restore_advanced(
                old(restore).deep_view(),
            ),
            step is Open ==> final(restore).at < final(restore).connected@.len(),
            step is Close ==> final(restore).stale_at < final(restore).meta_entries@.len(),
    {
        while restore.at < restore.connected.len()
            invariant
                self.wf(),
                restore.deep_view().valid(),
                self@.restore_advanced(restore.deep_view()) == old(self)@.restore_advanced(
                    old(restore).deep_view(),
                ),
            decreases restore.connected.len() - restore.at,
        {
            let key = restore.request_key();
            match find_meta(&restore.meta_entries, &restore.connected[restore.at]) {
                Some(meta) => {
                    self.set_tunnel_index(key, meta.client_message_index);
                    let state = restore.restored_state(meta);
                    let context = websocket_context_from_state(key, &state);
                    self.websockets.insert(key, state);
                    return RestoreStep::Open(context);
                },
                None => {
                    match self.send_close(key, 1000, "ws.meta_not_found_during_restore") {
                        Err(error) => {
                            return RestoreStep::Failed(error);
                        },
                        Ok(_) => {
                            restore.at = restore.at + 1;
                        },
                    }
                },
            }
        }
        while restore.stale_at < restore.meta_entries.len()
            invariant
                self.wf(),
                restore.deep_view().valid(),
                restore.at == restore.connected.len(),
                self@.restore_advanced(restore.deep_view()) == old(self)@.restore_advanced(
                    old(restore).deep_view(),
                ),
            decreases restore.meta_entries.len() - restore.stale_at,
        {
            let meta = &restore.meta_entries[restore.stale_at];
            if !is_among(&restore.connected, meta) {
                let state = restore.restored_state(meta);
                let context = websocket_context_from_state(restore.meta_key(), &state);
                return RestoreStep::Close { context, code: 1000, reason: "ws.stale_metadata".to_owned() };
            }
            restore.stale_at = restore.stale_at + 1;
        }
        RestoreStep::Finished
    }

    /// Goes on after the open callback of a WebSocket that was brought back.
    pub fn finish_restore_open(&mut self, restore: &mut Restore, callback_succeeded: bool) -> (opened: Result<
        (),
        RunnerError,
    >)
        requires
            old(self).wf(),
            old(restore).deep_view().valid(),
            old(restore).at < old(restore).connected@.len(),
        ensures
            final(self).wf(),
            final(restore).deep_view().valid(),
            final(restore).deep_view() == old(restore).deep_view().past_request(),
            final(self)@ == old(self)@.restore_opened(
                request_key(old(restore).deep_view().connected[old(restore).at as int]),
                callback_succeeded,
            ),
            outcome(opened) == old(self)@.restore_open_outcome(callback_succeeded),
    {
        let key = restore.request_key();
        restore.at = restore.at + 1;
        if callback_succeeded {
            return Ok(());
        }
        self.websockets.remove(&key);
        self.send_close(key, 1011, "ws.restore_error")
    }

    /// Goes on after the close callback of a WebSocket that is no longer connected.
    pub fn finish_restore_close(&mut self, restore: &mut Restore, callback_succeeded: bool) -> (closed: Result<
        (),
        RunnerError,
    >)
        requires
            old(self).wf(),
            old(restore).deep_view().valid(),
            old(restore).stale_at < old(restore).meta_entries@.len(),
        ensures
            final(self).wf(),
            final(restore).deep_view().valid(),
            final(restore).deep_view() == if callback_succeeded {
                old(restore).deep_view().past_meta()
            } else {
                old(restore).deep_view()
            },
            final(self)@ == old(self)@.restore_closed(
                meta_key(old(restore).deep_view().meta_entries[old(restore).stale_at as int]),
                callback_succeeded,
            ),
            outcome(closed) == if callback_succeeded {
                Ok(())
            } else {
                Err(RunnerErrorView::StaleWebSocketCloseCallbackFailed)
            },
    {
        if !callback_succeeded {
            return Err(RunnerError::StaleWebSocketCloseCallbackFailed);
        }
        let key = restore.meta_key();
        restore.stale_at = restore.stale_at + 1;
        self.websockets.remove(&key);
        Ok(())
    }
}

} // verus!
