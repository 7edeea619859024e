//! HTTP requests and their answers, field by field.

use super::put_together;
use super::sending::{
    after_tunnel_message, law_message_is_queued_last, law_tunnel_message_is_numbered, sending,
};
use crate::actions::IncomingActionView;
use crate::actor::HttpContextView;
use crate::error::RunnerErrorView;
use crate::external::{
    ascii_text, header_room, is_header_name, is_header_value, is_readable, is_token, is_uri, names_pair, small_letters,
    with_pair,
};
use crate::names::{law_listing_is_complete, law_name_is_mapped};
use crate::protocol::{
    MessageIdView, RequestStartView, ToClientTunnelMessageKindView, ToClientView, ToServerTunnelMessageKindView,
    ToServerView,
};
use crate::requests::{
    actor_uri, error_message_for, first_header_error, header_map_pairs, is_built_request, is_checked_request,
    is_readable_value, readable_headers, response_headers, response_message, HttpRequestView, HttpResponseView,
    HttpStepView,
};
use crate::runtime::PendingHttpRequestView;
use crate::state::RunnerModel;
use crate::text::decimal;
use crate::tunnel::TunnelRequestKeyView;
use vstd::prelude::*;
use vstd::utf8::encode_utf8;

verus! {

// Arriving
// ---------------------------------------------------------------------------------------------
/// The bytes of a body that came with the head of a request, if any did.
pub open spec fn first_bytes(body: Option<Seq<u8>>) -> Seq<u8> {
    if body is Some {
        body->0
    } else {
        Seq::empty()
    }
}

/// A request that is complete with its head is handed on with the tunnel, the actor id, the method,
/// the path and all headers of the message, and with the body that came. Nothing is kept of it.
pub proof fn law_whole_request_is_handed_on(model: RunnerModel, message_id: MessageIdView, start: RequestStartView)
    requires
        !start.stream,
    ensures
        ({
            let message = ToClientView::TunnelMessage {
                message_id: message_id,
                message_kind: ToClientTunnelMessageKindView::RequestStart(start),
            };
            let action = model.incoming_action(message);
            &&& action is ProcessRequest
            &&& action->ProcessRequest_key.gateway_id == message_id.gateway_id
            &&& action->ProcessRequest_key.request_id == message_id.request_id
            &&& action->ProcessRequest_request.actor_id == start.actor_id
            &&& action->ProcessRequest_request.method == start.method
            &&& action->ProcessRequest_request.path == start.path
            &&& action->ProcessRequest_request.headers == start.headers
            &&& action->ProcessRequest_request.body == first_bytes(start.body)
            &&& model.request_at_once(start) == Some(action->ProcessRequest_request)
            &&& model.received(message).pending_http_requests == model.pending_http_requests
            &&& model.request_started(action->ProcessRequest_key, start) == model
        }),
{
}

/// A request of which more is to come is not handed on. It is filed under its tunnel with the actor
/// id, the method, the path and all headers of the message, and with the body that came.
pub proof fn law_streamed_request_is_filed(model: RunnerModel, message_id: MessageIdView, start: RequestStartView)
    requires
        start.stream,
    ensures
        ({
            let message = ToClientView::TunnelMessage {
                message_id: message_id,
                message_kind: ToClientTunnelMessageKindView::RequestStart(start),
            };
            let key = TunnelRequestKeyView { gateway_id: message_id.gateway_id, request_id: message_id.request_id };
            let filed = model.pending_http_requests.insert(
                key.code(),
                PendingHttpRequestView {
                    actor_id: start.actor_id,
                    method: start.method,
                    path: start.path,
                    headers: start.headers,
                    body: first_bytes(start.body),
                },
            );
            &&& model.incoming_action(message) == IncomingActionView::Nothing
            &&& model.request_at_once(start) is None
            &&& model.received(message).pending_http_requests == filed
            &&& model.request_started(key, start) == (RunnerModel { pending_http_requests: filed, ..model })
        }),
{
}

/// More of a body goes to the end of what is filed under the tunnel, and to nothing else. The last
/// part completes the request, which is then handed on and no longer filed. Where nothing is filed,
/// nothing happens.
pub proof fn law_more_of_a_body(model: RunnerModel, message_id: MessageIdView, body: Seq<u8>, finish: bool)
    ensures
        ({
            let message = ToClientView::TunnelMessage {
                message_id: message_id,
                message_kind: ToClientTunnelMessageKindView::RequestChunk { body: body, finish: finish },
            };
            let key = TunnelRequestKeyView { gateway_id: message_id.gateway_id, request_id: message_id.request_id };
            let there = model.pending_http_requests.dom().contains(key.code());
            let filed = model.pending_http_requests[key.code()];
            let longer = PendingHttpRequestView {
                actor_id: filed.actor_id,
                method: filed.method,
                path: filed.path,
                headers: filed.headers,
                body: filed.body + body,
            };
            let requests = if there && finish {
                model.pending_http_requests.remove(key.code())
            } else if there {
                model.pending_http_requests.insert(key.code(), longer)
            } else {
                model.pending_http_requests
            };
            &&& there && finish ==> model.incoming_action(message) == (IncomingActionView::ProcessRequest {
                key: key,
                request: longer,
            })
            &&& !(there && finish) ==> model.incoming_action(message) == IncomingActionView::Nothing
            &&& model.received(message).pending_http_requests == requests
            &&& model.chunk_received(key, body, finish) == (RunnerModel { pending_http_requests: requests, ..model })
            &&& there && finish ==> model.request_at_end(key, body, finish) == Some(longer)
            &&& !(there && finish) ==> model.request_at_end(key, body, finish) is None
        }),
{
}

proof fn lemma_chunks_keep_the_head(model: RunnerModel, key: TunnelRequestKeyView, chunks: Seq<Seq<u8>>)
    requires
        model.pending_http_requests.dom().contains(key.code()),
    ensures
        ({
            let before = model.pending_http_requests[key.code()];
            let after = model.chunks_received(key, chunks).pending_http_requests[key.code()];
            &&& model.chunks_received(key, chunks).pending_http_requests.dom().contains(key.code())
            &&& after.actor_id == before.actor_id
            &&& after.method == before.method
            &&& after.path == before.path
            &&& after.headers == before.headers
            &&& after.body == before.body + put_together(chunks)
        }),
    decreases chunks.len(),
{
    let before = model.pending_http_requests[key.code()];
    if chunks.len() == 0 {
        assert(before.body + put_together(chunks) =~= before.body);
    } else {
        lemma_chunks_keep_the_head(model, key, chunks.drop_last());
        assert(before.body + put_together(chunks) =~= before.body + put_together(chunks.drop_last()) + chunks.last());
    }
}

/// A streamed request that is handed on at the end of its stream has the actor id, the method, the
/// path and all headers of the message that started it, however many parts its body came in.
pub proof fn law_streamed_request_is_handed_on(
    model: RunnerModel,
    message_id: MessageIdView,
    start: RequestStartView,
    chunks: Seq<Seq<u8>>,
    end_id: MessageIdView,
    last: Seq<u8>,
)
    requires
        start.stream,
        end_id.gateway_id == message_id.gateway_id,
        end_id.request_id == message_id.request_id,
    ensures
        ({
            let key = TunnelRequestKeyView { gateway_id: message_id.gateway_id, request_id: message_id.request_id };
            let begun = model.received(
                ToClientView::TunnelMessage {
                    message_id: message_id,
                    message_kind: ToClientTunnelMessageKindView::RequestStart(start),
                },
            );
            let action = begun.chunks_received(key, chunks).incoming_action(
                ToClientView::TunnelMessage {
                    message_id: end_id,
                    message_kind: ToClientTunnelMessageKindView::RequestChunk { body: last, finish: true },
                },
            );
            &&& action is ProcessRequest
            &&& action->ProcessRequest_key == key
            &&& action->ProcessRequest_request.actor_id == start.actor_id
            &&& action->ProcessRequest_request.method == start.method
            &&& action->ProcessRequest_request.path == start.path
            &&& action->ProcessRequest_request.headers == start.headers
            &&& action->ProcessRequest_request.body == first_bytes(start.body) + put_together(chunks) + last
        }),
{
    let key = TunnelRequestKeyView { gateway_id: message_id.gateway_id, request_id: message_id.request_id };
    let begun = model.received(
        ToClientView::TunnelMessage {
            message_id: message_id,
            message_kind: ToClientTunnelMessageKindView::RequestStart(start),
        },
    );
    lemma_chunks_keep_the_head(begun, key, chunks);
}

/// Putting parts together joins them in order: no part gives nothing, and another part comes last.
pub proof fn law_parts_are_joined_in_order(chunks: Seq<Seq<u8>>, last: Seq<u8>)
    ensures
        put_together(Seq::empty()) == Seq::<u8>::empty(),
        put_together(chunks.push(last)) == put_together(chunks) + last,
{
    assert(chunks.push(last).drop_last() =~= chunks);
}

/// An aborted request is no longer filed, and nothing else happens.
pub proof fn law_abort(model: RunnerModel, message_id: MessageIdView)
    ensures
        ({
            let message = ToClientView::TunnelMessage {
                message_id: message_id,
                message_kind: ToClientTunnelMessageKindView::RequestAbort,
            };
            let key = TunnelRequestKeyView { gateway_id: message_id.gateway_id, request_id: message_id.request_id };
            let left = model.pending_http_requests.remove(key.code());
            &&& model.incoming_action(message) == IncomingActionView::Nothing
            &&& model.received(message).pending_http_requests == left
            &&& model.without_pending_request(key) == (RunnerModel { pending_http_requests: left, ..model })
        }),
{
}

// Building
// ---------------------------------------------------------------------------------------------
/// The address of a path keeps the whole path behind the name of the host, and exactly one slash is
/// added where the path does not begin with one.
pub proof fn law_address_of_a_path(path: Seq<char>)
    ensures
        path.len() > 0 && path[0] == '/' ==> actor_uri(path) == "http://actor"@ + path,
        path.len() == 0 || path[0] != '/' ==> actor_uri(path) == "http://actor"@ + seq!['/'] + path,
{
    reveal_strlit("http://actor");
    reveal_strlit("http://actor/");
    assert("http://actor/"@ =~= "http://actor"@ + seq!['/']);
}

proof fn lemma_first_header_error(headers: Seq<(Seq<char>, Seq<char>)>, place: int)
    ensures
        (forall|i: int|
            0 <= i < headers.len() ==> is_header_name((#[trigger] headers[i]).0) && is_header_value(headers[i].1))
            ==> first_header_error(headers) is None,
        0 <= place < headers.len() && !(is_header_name(headers[place].0) && is_header_value(headers[place].1)) && (forall|
            i: int,
        |
            0 <= i < place ==> is_header_name((#[trigger] headers[i]).0) && is_header_value(headers[i].1))
            ==> first_header_error(headers) == Some(
            if is_header_name(headers[place].0) {
                "failed to parse header value"@
            } else {
                "invalid HTTP header name"@
            },
        ),
    decreases headers.len(),
{
    if headers.len() > 0 {
        let rest = headers.skip(1);
        assert forall|i: int| 0 <= i < rest.len() implies #[trigger] rest[i] == headers[i + 1] by {}
        lemma_first_header_error(rest, place - 1);
    }
}

/// Whether `place` is the first place of a header that cannot be one.
pub open spec fn is_first_bad_header(headers: Seq<(Seq<char>, Seq<char>)>, place: int) -> bool {
    &&& 0 <= place < headers.len()
    &&& !(is_header_name(headers[place].0) && is_header_value(headers[place].1))
    &&& forall|i: int|
        0 <= i < place ==> is_header_name((#[trigger] headers[i]).0) && is_header_value(headers[i].1)
}

/// What building a request gives: a method that is no token is refused first, then an address that
/// cannot be parsed, then headers. A request that is built has the method, the address and the body
/// as they were given, and a value for every header. It is built wherever all of these are in order
/// and the headers are sure to fit.
pub proof fn law_built_request(
    method: Seq<char>,
    uri: Seq<char>,
    uri_parses: bool,
    headers: Seq<(Seq<char>, Seq<char>)>,
    body: Seq<u8>,
    built: Result<HttpRequestView, RunnerErrorView>,
    place: int,
)
    requires
        is_checked_request(method, uri, uri_parses, headers, body, built),
    ensures
        !is_token(method) <==> built == Err::<HttpRequestView, RunnerErrorView>(RunnerErrorView::InvalidMethod),
        is_token(method) && !uri_parses <==> built == Err::<HttpRequestView, RunnerErrorView>(
            RunnerErrorView::InvalidUri,
        ),
        built is Ok ==> {
            &&& built->Ok_0.method == method
            &&& built->Ok_0.uri == uri
            &&& built->Ok_0.body == body
            &&& built->Ok_0.headers == header_map_pairs(headers)
            &&& forall|i: int|
                0 <= i < headers.len() ==> is_header_name((#[trigger] headers[i]).0) && is_header_value(headers[i].1)
        },
        is_token(method) && uri_parses && headers.len() <= header_room() && (forall|i: int|
            0 <= i < headers.len() ==> is_header_name((#[trigger] headers[i]).0) && is_header_value(headers[i].1))
            ==> built is Ok,
        is_token(method) && uri_parses && headers.len() <= header_room() && is_first_bad_header(headers, place)
            ==> built == Err::<HttpRequestView, RunnerErrorView>(
            RunnerErrorView::InvalidHeader {
                message: if is_header_name(headers[place].0) {
                    "failed to parse header value"@
                } else {
                    "invalid HTTP header name"@
                },
            },
        ),
        is_token(method) && uri_parses && built is Err ==> built->Err_0 is InvalidHeader,
        is_token(method) && uri_parses && built is Err && is_first_bad_header(headers, place) && headers.len()
            > header_room() ==> {
            ||| built->Err_0->InvalidHeader_message == "max size reached"@
            ||| built->Err_0->InvalidHeader_message == if is_header_name(headers[place].0) {
                "failed to parse header value"@
            } else {
                "invalid HTTP header name"@
            }
        },
{
    lemma_first_header_error(headers, place);
}

/// A request for a path on an actor is built for the address of that path.
pub proof fn law_request_for_a_path(
    method: Seq<char>,
    path: Seq<char>,
    headers: Seq<(Seq<char>, Seq<char>)>,
    body: Seq<u8>,
    built: Result<HttpRequestView, RunnerErrorView>,
)
    requires
        is_built_request(method, path, headers, body, built),
    ensures
        is_checked_request(method, actor_uri(path), is_uri(actor_uri(path)), headers, body, built),
        built is Ok ==> built->Ok_0.method == method && built->Ok_0.body == body && built->Ok_0.uri == actor_uri(path),
{
}

/// The values that some pairs give a name, in order.
pub open spec fn values_named(pairs: Seq<(Seq<char>, Seq<u8>)>, name: Seq<char>) -> Seq<Seq<u8>>
    decreases pairs.len(),
{
    if pairs.len() == 0 {
        Seq::empty()
    } else if pairs.last().0 == name {
        values_named(pairs.drop_last(), name).push(pairs.last().1)
    } else {
        values_named(pairs.drop_last(), name)
    }
}

/// The values that some headers give a name, in order, where capital letters in names do not count.
pub open spec fn values_given(headers: Seq<(Seq<char>, Seq<char>)>, name: Seq<char>) -> Seq<Seq<u8>>
    decreases headers.len(),
{
    if headers.len() == 0 {
        Seq::empty()
    } else if small_letters(headers.last().0) == name {
        values_given(headers.drop_last(), name).push(encode_utf8(headers.last().1))
    } else {
        values_given(headers.drop_last(), name)
    }
}

proof fn lemma_absent_name(pairs: Seq<(Seq<char>, Seq<u8>)>, name: Seq<char>)
    requires
        !names_pair(pairs, name),
    ensures
        values_named(pairs, name) == Seq::<Seq<u8>>::empty(),
    decreases pairs.len(),
{
    if pairs.len() > 0 {
        let front = pairs.drop_last();
        assert(pairs[pairs.len() - 1].0 != name);
        assert forall|i: int| 0 <= i < front.len() implies (#[trigger] front[i]).0 != name by {
            assert(front[i] == pairs[i]);
        }
        lemma_absent_name(front, name);
    }
}

proof fn lemma_values_with_pair(
    pairs: Seq<(Seq<char>, Seq<u8>)>,
    name: Seq<char>,
    value: Seq<u8>,
    other: Seq<char>,
)
    ensures
        other == name ==> values_named(with_pair(pairs, name, value), other) == values_named(pairs, other).push(value),
        other != name ==> values_named(with_pair(pairs, name, value), other) == values_named(pairs, other),
        with_pair(pairs, name, value).len() == pairs.len() + 1,
    decreases pairs.len(),
{
    if pairs.len() == 0 || pairs.last().0 == name || !names_pair(pairs, name) {
        assert(pairs.push((name, value)).drop_last() =~= pairs);
    } else {
        let front = with_pair(pairs.drop_last(), name, value);
        lemma_values_with_pair(pairs.drop_last(), name, value, other);
        assert(front.push(pairs.last()).drop_last() =~= front);
    }
}

/// The headers of a request that is built give every name the values that were given to it, all of
/// them and in their order, and nothing else.
pub proof fn law_every_header_is_in_the_request(headers: Seq<(Seq<char>, Seq<char>)>, name: Seq<char>)
    ensures
        header_map_pairs(headers).len() == headers.len(),
        values_named(header_map_pairs(headers), name) == values_given(headers, name),
        headers.len() > 0 ==> header_map_pairs(headers) == with_pair(
            header_map_pairs(headers.drop_last()),
            small_letters(headers.last().0),
            encode_utf8(headers.last().1),
        ),
    decreases headers.len(),
{
    if headers.len() > 0 {
        law_every_header_is_in_the_request(headers.drop_last(), name);
        lemma_values_with_pair(
            header_map_pairs(headers.drop_last()),
            small_letters(headers.last().0),
            encode_utf8(headers.last().1),
            name,
        );
    }
}

// Handling
// ---------------------------------------------------------------------------------------------
/// A request for an actor that is up leads to the actor being asked, about exactly the tunnel and
/// the actor, with a request built from exactly what arrived, or to what is wrong with it. For an
/// actor that is not up it waits. For an unknown actor it is answered with the status 503. Nothing
/// else changes.
pub proof fn law_request_is_handled(
    model: RunnerModel,
    key: TunnelRequestKeyView,
    request: PendingHttpRequestView,
    step: HttpStepView,
)
    requires
        model.is_http_step(key, request, step),
    ensures
        ({
            let actor = model.actors.map[request.actor_id];
            let known = model.actors.map.dom().contains(request.actor_id);
            let built = if step is Fetch {
                Ok::<HttpRequestView, RunnerErrorView>(step->Fetch_request)
            } else {
                Err::<HttpRequestView, RunnerErrorView>(step->Invalid_0)
            };
            &&& known && actor.started ==> {
                &&& model.request_taken(key, request) == model
                &&& step is Fetch || step is Invalid
                &&& is_checked_request(
                    request.method,
                    actor_uri(request.path),
                    is_uri(actor_uri(request.path)),
                    request.headers,
                    request.body,
                    built,
                )
                &&& step is Fetch ==> step->Fetch_context == (HttpContextView {
                    actor_id: request.actor_id,
                    generation: actor.generation,
                    actor_name: actor.config.name,
                    gateway_id: key.gateway_id,
                    request_id: key.request_id,
                })
            }
            &&& known && !actor.started ==> {
                &&& model.request_taken(key, request) == model
                &&& step == (HttpStepView::Waiting { start_notify: actor.start_notify })
            }
            &&& !known ==> {
                &&& model.request_taken(key, request) == after_tunnel_message(
                    model,
                    key,
                    ToServerTunnelMessageKindView::ResponseStart {
                        status: 503,
                        headers: seq![("content-type"@, "text/plain"@), ("x-rivet-error"@, "runner.actor_not_found"@)],
                        body: Some(encode_utf8("Actor not found"@)),
                        stream: false,
                    },
                )
                &&& step == (HttpStepView::Rejected { sent: sending(model) })
            }
        }),
{
    law_tunnel_message_is_numbered(
        model,
        key,
        error_message_for(503, "runner.actor_not_found"@, "Actor not found"@),
        0,
        Seq::empty(),
    );
    law_message_is_queued_last(model, ToServerView::Stopping);
}

/// Where a request for an actor that is up can be made and its headers are sure to fit, the actor is
/// asked, with the method and the body that arrived, with the whole path, and with every header.
pub proof fn law_proper_request_reaches_the_actor(
    model: RunnerModel,
    key: TunnelRequestKeyView,
    request: PendingHttpRequestView,
    step: HttpStepView,
    name: Seq<char>,
)
    requires
        model.is_http_step(key, request, step),
        model.actors.map.dom().contains(request.actor_id),
        model.actors.map[request.actor_id].started,
        is_token(request.method),
        is_uri(actor_uri(request.path)),
        request.headers.len() <= header_room(),
        forall|i: int|
            0 <= i < request.headers.len() ==> is_header_name((#[trigger] request.headers[i]).0) && is_header_value(
                request.headers[i].1,
            ),
    ensures
        step is Fetch,
        step->Fetch_request.method == request.method,
        step->Fetch_request.body == request.body,
        step->Fetch_request.uri.len() >= request.path.len(),
        step->Fetch_request.uri.skip(step->Fetch_request.uri.len() - request.path.len()) == request.path,
        values_named(step->Fetch_request.headers, name) == values_given(request.headers, name),
{
    let built = if step is Fetch {
        Ok::<HttpRequestView, RunnerErrorView>(step->Fetch_request)
    } else {
        Err::<HttpRequestView, RunnerErrorView>(step->Invalid_0)
    };
    law_request_is_handled(model, key, request, step);
    law_built_request(
        request.method,
        actor_uri(request.path),
        is_uri(actor_uri(request.path)),
        request.headers,
        request.body,
        built,
        0,
    );
    law_address_of_a_path(request.path);
    law_every_header_is_in_the_request(request.headers, name);
    assert(step->Fetch_request.uri.skip(step->Fetch_request.uri.len() - request.path.len()) =~= request.path);
}

// Answering
// ---------------------------------------------------------------------------------------------
/// A request is answered through its tunnel with the response of the actor, or with the status 500
/// where it gave none.
pub proof fn law_request_is_answered(model: RunnerModel, key: TunnelRequestKeyView, response: HttpResponseView)
    ensures
        model.request_answered(key, Some(response)) == after_tunnel_message(model, key, response_message(response)),
        model.request_answered(key, None) == after_tunnel_message(
            model,
            key,
            ToServerTunnelMessageKindView::ResponseStart {
                status: 500,
                headers: seq![("content-type"@, "text/plain"@), ("x-rivet-error"@, "runner.internal"@)],
                body: Some(encode_utf8("Internal Server Error"@)),
                stream: false,
            },
        ),
{
    law_tunnel_message_is_numbered(model, key, response_message(response), 0, Seq::empty());
    law_tunnel_message_is_numbered(
        model,
        key,
        error_message_for(500, "runner.internal"@, "Internal Server Error"@),
        0,
        Seq::empty(),
    );
}

/// A response that the runner itself gives has the status and the text it was given, the error code
/// in a header of its own, and is whole.
pub proof fn law_response_of_the_runner(status: u16, error_code: Seq<char>, message: Seq<char>)
    ensures
        error_message_for(status, error_code, message) == (ToServerTunnelMessageKindView::ResponseStart {
            status: status,
            headers: seq![("content-type"@, "text/plain"@), ("x-rivet-error"@, error_code)],
            body: Some(encode_utf8(message)),
            stream: false,
        }),
{
}

/// Whether the pair at a place of some pairs gives a name a value that can be read.
pub open spec fn gives(pairs: Seq<(Seq<char>, Seq<u8>)>, place: int, name: Seq<char>) -> bool {
    &&& 0 <= place < pairs.len()
    &&& pairs[place].0 == name
    &&& forall|i: int| 0 <= i < pairs[place].1.len() ==> is_readable(#[trigger] pairs[place].1[i])
}

/// Whether a place is the last one at which some pairs give a name a value that can be read.
pub open spec fn gives_last(pairs: Seq<(Seq<char>, Seq<u8>)>, place: int, name: Seq<char>) -> bool {
    &&& gives(pairs, place, name)
    &&& forall|later: int| place < later ==> !#[trigger] gives(pairs, later, name)
}

proof fn lemma_readable_headers(pairs: Seq<(Seq<char>, Seq<u8>)>, name: Seq<char>, place: int)
    ensures
        readable_headers(pairs).valid(),
        gives_last(pairs, place, name) ==> readable_headers(pairs).map.dom().contains(name) && readable_headers(
            pairs,
        ).map[name] == ascii_text(pairs[place].1),
        (forall|other: int| !#[trigger] gives(pairs, other, name)) ==> !readable_headers(pairs).map.dom().contains(name),
    decreases pairs.len(),
{
    if pairs.len() > 0 {
        let front = pairs.drop_last();
        let last = pairs.len() - 1;
        let earlier = readable_headers(front);
        lemma_readable_headers(front, name, place);
        law_name_is_mapped(earlier, pairs.last().0, ascii_text(pairs.last().1));
        assert forall|i: int| 0 <= i < front.len() implies #[trigger] gives(front, i, name) == gives(pairs, i, name) by {
            assert(front[i] == pairs[i]);
        }
        assert(is_readable_value(pairs.last().1) && pairs.last().0 == name <==> gives(pairs, last, name));
        if gives_last(pairs, place, name) && place < last {
            assert(!gives(pairs, last, name));
            assert forall|later: int| place < later implies !#[trigger] gives(front, later, name) by {
                if later < front.len() {
                    assert(!gives(pairs, later, name));
                }
            }
            assert(gives_last(front, place, name));
        }
        if forall|other: int| !#[trigger] gives(pairs, other, name) {
            assert(!gives(pairs, last, name));
            assert forall|other: int| !#[trigger] gives(front, other, name) by {
                if 0 <= other < front.len() {
                    assert(!gives(pairs, other, name));
                }
            }
        }
    }
}

/// Whether some headers hold a name with a value.
pub open spec fn holds(headers: Seq<(Seq<char>, Seq<char>)>, name: Seq<char>, value: Seq<char>) -> bool {
    exists|i: int| 0 <= i < headers.len() && #[trigger] headers[i] == (name, value)
}

/// A response travels whole: with its status and its body, and with every header that can be read.
/// Where a name has several values that can be read, the last one travels. Where none of them is the
/// length of the body, that travels as well. No other header does, and none twice.
pub proof fn law_response_travels_whole(response: HttpResponseView, name: Seq<char>, place: int)
    ensures
        ({
            let message = response_message(response);
            let headers = message->ResponseStart_headers;
            let given = exists|other: int| #[trigger] gives(response.headers, other, name);
            &&& message is ResponseStart
            &&& message->ResponseStart_status == response.status
            &&& message->ResponseStart_body == Some(response.body)
            &&& !message->ResponseStart_stream
            &&& gives_last(response.headers, place, name) ==> holds(headers, name, ascii_text(response.headers[place].1))
            &&& !given && name == "content-length"@ ==> holds(headers, name, decimal(response.body.len()))
            &&& !given && name != "content-length"@ ==> forall|i: int|
                0 <= i < headers.len() ==> (#[trigger] headers[i]).0 != name
            &&& forall|i: int, j: int|
                0 <= i < j < headers.len() ==> (#[trigger] headers[i]).0 != (#[trigger] headers[j]).0
        }),
{
    let length = "content-length"@;
    let pairs = response.headers;
    let readable = readable_headers(pairs);
    let all = response_headers(response);
    lemma_readable_headers(pairs, name, place);
    law_name_is_mapped(readable, length, decimal(response.body.len()));
    law_listing_is_complete(all);
    assert(all.map.contains_key(name) <==> all.order.contains(name));
    if all.map.contains_key(name) {
        let i = all.order.index_of(name);
        assert(all.listed()[i] == (name, all.map[name]));
    }
    if gives_last(pairs, place, name) {
        assert(gives(pairs, place, name));
        assert(readable.map.contains_key(name));
        assert(all.map[name] == ascii_text(pairs[place].1));
    }
    let headers = response_message(response)->ResponseStart_headers;
    assert forall|i: int, j: int| 0 <= i < j < headers.len() implies (#[trigger] headers[i]).0 != (
    #[trigger] headers[j]).0 by {
        assert(headers[i].0 == all.order[i] && headers[j].0 == all.order[j]);
    }
    if !exists|other: int| #[trigger] gives(pairs, other, name) {
        assert(!readable.map.contains_key(name));
        assert forall|i: int| 0 <= i < headers.len() && name != length implies (#[trigger] headers[i]).0 != name by {
            assert(headers[i].0 == all.order[i]);
            assert(all.order.contains(all.order[i]));
        }
    }
}

} // verus!
