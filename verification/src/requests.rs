//! HTTP requests that run through a tunnel.

use crate::actions::{ActorWait, ActorWaitView};
use crate::actor::{names_are_distinct, Headers, HttpContext, HttpContextView};
use crate::duplicate::{lemma_bytes_deep_view, Duplicate};
use crate::error::{outcome, RunnerError, RunnerErrorView};
use crate::external::{
    append_header, ascii_text, header_pairs, header_room, is_header_name, is_header_value, is_readable, is_token, is_uri,
    list_headers, names_pair, new_header_map, parses_as_method, parses_as_uri, read_header_value, small_letters,
    with_pair,
};
use crate::names::{NameModel, NameTable};
use crate::protocol::{RequestStart, RequestStartView, ToServerTunnelMessageKind, ToServerTunnelMessageKindView};
use crate::runtime::{PendingHttpRequest, PendingHttpRequestView};
use crate::state::{RunnerInner, RunnerModel};
use crate::text::{decimal, decimal_text, join, utf8_bytes};
use crate::tunnel::{TunnelRequestKey, TunnelRequestKeyView};
use vstd::prelude::*;
use vstd::string::StrSliceExecFns;
use vstd::utf8::encode_utf8;

verus! {

/// An HTTP request as an actor sees it.
pub struct HttpRequest {
    pub method: String,
    pub uri: String,
    pub headers: http::HeaderMap,
    pub body: Vec<u8>,
}

/// The contents of a [`HttpRequest`].
#[verifier::ext_equal]
pub struct HttpRequestView {
    pub method: Seq<char>,
    pub uri: Seq<char>,
    pub headers: Seq<(Seq<char>, Seq<u8>)>,
    pub body: Seq<u8>,
}

impl DeepView for HttpRequest {
    type V = HttpRequestView;

    open spec fn deep_view(&self) -> HttpRequestView {
        HttpRequestView {
            method: self.method@,
            uri: self.uri@,
            headers: header_pairs(self.headers),
            body: self.body@,
        }
    }
}

/// An HTTP response of an actor.
pub struct HttpResponse {
    pub status: u16,
    pub headers: http::HeaderMap,
    pub body: Vec<u8>,
}

/// The contents of a [`HttpResponse`].
#[verifier::ext_equal]
pub struct HttpResponseView {
    pub status: u16,
    pub headers: Seq<(Seq<char>, Seq<u8>)>,
    pub body: Seq<u8>,
}

impl DeepView for HttpResponse {
    type V = HttpResponseView;

    open spec fn deep_view(&self) -> HttpResponseView {
        HttpResponseView { status: self.status, headers: header_pairs(self.headers), body: self.body@ }
    }
}

/// How the handling of an HTTP request goes on.
/// `Waiting`: wait for the actor, then try again. `Rejected`: there is no such actor, and the engine
/// was told. `Invalid`: this is not a request that can be made. `Fetch`: ask the actor.
pub enum HttpStep {
    Waiting { start_notify: u64 },
    Rejected { sent: Result<(), RunnerError> },
    Invalid(RunnerError),
    Fetch { context: HttpContext, request: HttpRequest },
}

/// The contents of a [`HttpStep`].
#[verifier::ext_equal]
pub enum HttpStepView {
    Waiting { start_notify: u64 },
    Rejected { sent: Result<(), RunnerErrorView> },
    Invalid(RunnerErrorView),
    Fetch { context: HttpContextView, request: HttpRequestView },
}

impl DeepView for HttpStep {
    type V = HttpStepView;

    open spec fn deep_view(&self) -> HttpStepView {
        match self {
            HttpStep::Waiting { start_notify } => HttpStepView::Waiting { start_notify: *start_notify },
            HttpStep::Rejected { sent } => HttpStepView::Rejected { sent: outcome(*sent) },
            HttpStep::Invalid(error) => HttpStepView::Invalid(error.deep_view()),
            HttpStep::Fetch { context, request } => HttpStepView::Fetch {
                context: context.deep_view(),
                request: request.deep_view(),
            },
        }
    }
}

/// The address of a path on an actor.
pub open spec fn actor_uri(path: Seq<char>) -> Seq<char> {
    if path.len() > 0 && path[0] == '/' {
        "http://actor"@ + path
    } else {
        "http://actor/"@ + path
    }
}

/// Whether every pair can be a header.
pub open spec fn are_headers(headers: Seq<(Seq<char>, Seq<char>)>) -> bool {
    forall|i: int|
        0 <= i < headers.len() ==> is_header_name((#[trigger] headers[i]).0) && is_header_value(headers[i].1)
}

/// What is wrong with a header, if anything.
pub open spec fn header_error(header: (Seq<char>, Seq<char>)) -> Option<Seq<char>> {
    if !is_header_name(header.0) {
        Some("invalid HTTP header name"@)
    } else if !is_header_value(header.1) {
        Some("failed to parse header value"@)
    } else {
        None
    }
}

/// What is wrong with the first of some headers that cannot be one, if there is such a header.
pub open spec fn first_header_error(headers: Seq<(Seq<char>, Seq<char>)>) -> Option<Seq<char>>
    decreases headers.len(),
{
    if headers.len() == 0 {
        None
    } else if header_error(headers[0]) is Some {
        header_error(headers[0])
    } else {
        first_header_error(headers.skip(1))
    }
}

/// The pairs of a header map to which headers were added one after the other.
pub open spec fn header_map_pairs(headers: Seq<(Seq<char>, Seq<char>)>) -> Seq<(Seq<char>, Seq<u8>)>
    decreases headers.len(),
{
    if headers.len() == 0 {
        Seq::empty()
    } else {
        with_pair(
            header_map_pairs(headers.drop_last()),
            small_letters(headers.last().0),
            encode_utf8(headers.last().1),
        )
    }
}

/// Whether `built` is what building a request gives, for an address that can be parsed or cannot.
/// It gives the request that is asked for, or says what is wrong: first with the method, then with
/// the address, then with the first header that cannot be one. More headers than a map is sure to
/// have room for may be refused as too many.
pub open spec fn is_checked_request(
    method: Seq<char>,
    uri: Seq<char>,
    uri_parses: bool,
    headers: Seq<(Seq<char>, Seq<char>)>,
    body: Seq<u8>,
    built: Result<HttpRequestView, RunnerErrorView>,
) -> bool {
    if !is_token(method) {
        built == Err::<HttpRequestView, RunnerErrorView>(RunnerErrorView::InvalidMethod)
    } else if !uri_parses {
        built == Err::<HttpRequestView, RunnerErrorView>(RunnerErrorView::InvalidUri)
    } else {
        &&& built is Err ==> built->Err_0 is InvalidHeader && {
            let message = built->Err_0->InvalidHeader_message;
            ||| first_header_error(headers) == Some(message)
            ||| headers.len() > header_room() && message == "max size reached"@
        }
        &&& built is Ok ==> are_headers(headers)
        &&& are_headers(headers) && headers.len() <= header_room() ==> built is Ok
        &&& built is Ok ==> built->Ok_0 == (HttpRequestView {
            method: method,
            uri: uri,
            headers: header_map_pairs(headers),
            body: body,
        })
    }
}

/// Whether `built` is what building a request for a path on an actor gives.
pub open spec fn is_built_request(
    method: Seq<char>,
    path: Seq<char>,
    headers: Seq<(Seq<char>, Seq<char>)>,
    body: Seq<u8>,
    built: Result<HttpRequestView, RunnerErrorView>,
) -> bool {
    is_checked_request(method, actor_uri(path), is_uri(actor_uri(path)), headers, body, built)
}

/// Whether every byte of a header value can be read as text.
pub open spec fn is_readable_value(value: Seq<u8>) -> bool {
    forall|i: int| 0 <= i < value.len() ==> is_readable(#[trigger] value[i])
}

/// The headers of a response that can be read as text. Where a name has several values, the last
/// one counts.
pub open spec fn readable_headers(pairs: Seq<(Seq<char>, Seq<u8>)>) -> NameModel<Seq<char>>
    decreases pairs.len(),
{
    if pairs.len() == 0 {
        NameModel::empty()
    } else {
        let earlier = readable_headers(pairs.drop_last());
        if is_readable_value(pairs.last().1) {
            earlier.insert(pairs.last().0, ascii_text(pairs.last().1))
        } else {
            earlier
        }
    }
}

/// The headers that travel with a response: those that can be read, and the length of the body
/// where they do not give it.
pub open spec fn response_headers(response: HttpResponseView) -> NameModel<Seq<char>> {
    let readable = readable_headers(response.headers);
    if readable.has("content-length"@) {
        readable
    } else {
        readable.insert("content-length"@, decimal(response.body.len()))
    }
}

/// A response as it travels.
pub open spec fn response_message(response: HttpResponseView) -> ToServerTunnelMessageKindView {
    ToServerTunnelMessageKindView::ResponseStart {
        status: response.status,
        headers: response_headers(response).listed(),
        body: Some(response.body),
        stream: false,
    }
}

/// A response that the runner itself gives.
pub open spec fn error_message_for(status: u16, error_code: Seq<char>, message: Seq<char>) -> ToServerTunnelMessageKindView {
    ToServerTunnelMessageKindView::ResponseStart {
        status: status,
        headers: seq![("content-type"@, "text/plain"@), ("x-rivet-error"@, error_code)],
        body: Some(encode_utf8(message)),
        stream: false,
    }
}

/// What is kept of a request whose head has arrived.
pub open spec fn pending_request(start: RequestStartView) -> PendingHttpRequestView {
    PendingHttpRequestView {
        actor_id: start.actor_id,
        method: start.method,
        path: start.path,
        headers: start.headers,
        body: match start.body {
            Some(body) => body,
            None => Seq::empty(),
        },
    }
}

impl RunnerModel {
    /// With a request filed, of which more is to come.
    pub open spec fn with_pending_request(self, key: TunnelRequestKeyView, request: PendingHttpRequestView) -> Self {
        RunnerModel { pending_http_requests: self.pending_http_requests.insert(key.code(), request), ..self }
    }

    /// Without a request of which more was to come.
    pub open spec fn without_pending_request(self, key: TunnelRequestKeyView) -> Self {
        RunnerModel { pending_http_requests: self.pending_http_requests.remove(key.code()), ..self }
    }

    /// After the head of a request has arrived. One that is streamed is kept until its end.
    pub open spec fn request_started(self, key: TunnelRequestKeyView, start: RequestStartView) -> Self {
        if start.stream {
            self.with_pending_request(key, pending_request(start))
        } else {
            self
        }
    }

    /// The request that is complete when its head has arrived, if it is.
    pub open spec fn request_at_once(self, start: RequestStartView) -> Option<PendingHttpRequestView> {
        if start.stream {
            None
        } else {
            Some(pending_request(start))
        }
    }

    /// A filed request with more of its body.
    pub open spec fn extended_request(self, key: TunnelRequestKeyView, chunk: Seq<u8>) -> PendingHttpRequestView {
        let request = self.pending_http_requests[key.code()];
        PendingHttpRequestView { body: request.body + chunk, ..request }
    }

    /// After a part of the body of a request has arrived.
    pub open spec fn chunk_received(self, key: TunnelRequestKeyView, chunk: Seq<u8>, finish: bool) -> Self {
        if !self.pending_http_requests.contains_key(key.code()) {
            self
        } else if finish {
            self.without_pending_request(key)
        } else {
            self.with_pending_request(key, self.extended_request(key, chunk))
        }
    }

    /// The request that is complete when a part of its body has arrived, if it is.
    pub open spec fn request_at_end(
        self,
        key: TunnelRequestKeyView,
        chunk: Seq<u8>,
        finish: bool,
    ) -> Option<PendingHttpRequestView> {
        if self.pending_http_requests.contains_key(key.code()) && finish {
            Some(self.extended_request(key, chunk))
        } else {
            None
        }
    }

    /// After the handling of a request has begun.
    pub open spec fn request_taken(self, key: TunnelRequestKeyView, request: PendingHttpRequestView) -> Self {
        if self.wait(request.actor_id) is Absent {
            self.tunnel_sent(key, error_message_for(503, "runner.actor_not_found"@, "Actor not found"@))
        } else {
            self
        }
    }

    /// Whether the handling of a request may go on by a step.
    pub open spec fn is_http_step(
        self,
        key: TunnelRequestKeyView,
        request: PendingHttpRequestView,
        step: HttpStepView,
    ) -> bool {
        match self.wait(request.actor_id) {
            ActorWaitView::Absent => step == (HttpStepView::Rejected { sent: self.send_outcome() }),
            ActorWaitView::Waiting { start_notify } => step == (HttpStepView::Waiting { start_notify: start_notify }),
            ActorWaitView::Up { generation, config } => match step {
                HttpStepView::Invalid(error) => is_built_request(
                    request.method,
                    request.path,
                    request.headers,
                    request.body,
                    Err(error),
                ),
                HttpStepView::Fetch { context, request: built } => {
                    &&& is_built_request(request.method, request.path, request.headers, request.body, Ok(built))
                    &&& context == (HttpContextView {
                        actor_id: request.actor_id,
                        generation: generation,
                        actor_name: config.name,
                        gateway_id: key.gateway_id,
                        request_id: key.request_id,
                    })
                },
                _ => false,
            },
        }
    }

    /// With a request answered. Where the actor gave no response, the runner gives one.
    pub open spec fn request_answered(self, key: TunnelRequestKeyView, response: Option<HttpResponseView>) -> Self {
        match response {
            Some(response) => self.tunnel_sent(key, response_message(response)),
            None => self.tunnel_sent(key, error_message_for(500, "runner.internal"@, "Internal Server Error"@)),
        }
    }
}

proof fn lemma_with_pair_adds_one(pairs: Seq<(Seq<char>, Seq<u8>)>, name: Seq<char>, value: Seq<u8>)
    ensures
        with_pair(pairs, name, value).len() == pairs.len() + 1,
    decreases pairs.len(),
{
    if !(pairs.len() == 0 || pairs.last().0 == name || !names_pair(pairs, name)) {
        lemma_with_pair_adds_one(pairs.drop_last(), name, value);
    }
}

proof fn lemma_header_map_size(headers: Seq<(Seq<char>, Seq<char>)>)
    ensures
        header_map_pairs(headers).len() == headers.len(),
    decreases headers.len(),
{
    if headers.len() > 0 {
        lemma_header_map_size(headers.drop_last());
        lemma_with_pair_adds_one(
            header_map_pairs(headers.drop_last()),
            small_letters(headers.last().0),
            encode_utf8(headers.last().1),
        );
    }
}

/// The address of a path on an actor.
pub fn uri_for_path(path: &str) -> (uri: String)
    ensures
        uri@ == actor_uri(path@),
{
    if path.unicode_len() > 0 && path.get_char(0) == '/' {
        join("http://actor", path)
    } else {
        join("http://actor/", path)
    }
}

/// Builds the request that an actor sees.
pub fn build_http_request(method: String, path: &str, headers: &Headers, body: Vec<u8>) -> (built: Result<
    HttpRequest,
    RunnerError,
>)
    ensures
        is_built_request(method@, path@, headers.deep_view(), body@, outcome(built)),
{
    let uri = uri_for_path(path);
    let uri_parses = parses_as_uri(uri.as_str());
    build_checked_request(method, uri, uri_parses, headers, body)
}

/// Builds the request that an actor sees, for an address that can be parsed or cannot.
pub fn build_checked_request(method: String, uri: String, uri_parses: bool, headers: &Headers, body: Vec<u8>) -> (built:
    Result<HttpRequest, RunnerError>)
    ensures
        is_checked_request(method@, uri@, uri_parses, headers.deep_view(), body@, outcome(built)),
{
    if !parses_as_method(method.as_str()) {
        return Err(RunnerError::InvalidMethod);
    }
    if !uri_parses {
        return Err(RunnerError::InvalidUri);
    }
    let mut map = new_header_map();
    let mut at: usize = 0;
    let ghost pairs = headers.deep_view();
    assert(header_map_pairs(pairs.take(0)) =~= header_pairs(map));
    assert(pairs.skip(0) =~= pairs);
    while at < headers.len()
        invariant
            at <= headers.len(),
            pairs == headers.deep_view(),
            header_pairs(map) == header_map_pairs(pairs.take(at as int)),
            are_headers(pairs.take(at as int)),
            first_header_error(pairs) == first_header_error(pairs.skip(at as int)),
            is_token(method@),
            uri_parses,
        decreases headers.len() - at,
    {
        let header = &headers[at];
        let ghost sofar = pairs.take(at as int);
        proof {
            assert(pairs[at as int] == (header.0@, header.1@));
            assert(pairs.take(at + 1) =~= sofar.push(pairs[at as int]));
            assert(pairs.take(at + 1).drop_last() =~= sofar);
            assert(pairs.skip(at as int)[0] == pairs[at as int]);
            assert(pairs.skip(at as int).skip(1) =~= pairs.skip(at + 1));
            lemma_header_map_size(sofar);
        }
        if let Err(message) = append_header(&mut map, header.0.as_str(), header.1.as_str()) {
            return Err(RunnerError::InvalidHeader { message });
        }
        at = at + 1;
    }
    assert(pairs.take(at as int) =~= pairs);
    Ok(HttpRequest { method, uri, headers: map, body })
}

impl RunnerInner {
    /// Receives the head of a request. Gives the request where it is complete.
    pub fn handle_request_start(&mut self, key: TunnelRequestKey, start: RequestStart) -> (request: Option<
        PendingHttpRequest,
    >)
        requires
            old(self).wf(),
        ensures
            final(self).wf(),
            final(self)@ == old(self)@.request_started(key.deep_view(), start.deep_view()),
            request.deep_view() == old(self)@.request_at_once(start.deep_view()),
    {
        let RequestStart { actor_id, method, path, headers, body, stream } = start;
        let body = match body {
            Some(body) => body,
            None => Vec::new(),
        };
        let request = PendingHttpRequest { actor_id, method, path, headers, body };
        assert(request.deep_view() =~= pending_request(start.deep_view()));
        if !stream {
            return Some(request);
        }
        self.pending_http_requests.insert(key, request);
        None
    }

    /// Receives a part of the body of a request. Gives the request where it is complete.
    pub fn handle_request_chunk(&mut self, key: TunnelRequestKey, body: Vec<u8>, finish: bool) -> (request: Option<
        PendingHttpRequest,
    >)
        requires
            old(self).wf(),
        ensures
            final(self).wf(),
            final(self)@ == old(self)@.chunk_received(key.deep_view(), body.deep_view(), finish),
            request.deep_view() == old(self)@.request_at_end(key.deep_view(), body.deep_view(), finish),
    {
        broadcast use lemma_bytes_deep_view;

        let mut chunk = body;
        let mut request = match self.pending_http_requests.remove(&key) {
            None => {
                assert(self@ =~= old(self)@);
                return None;
            },
            Some(request) => request,
        };
        request.body.append(&mut chunk);
        assert(request.deep_view() =~= old(self)@.extended_request(key.deep_view(), body.deep_view()));
        if finish {
            return Some(request);
        }
        self.pending_http_requests.insert(key, request);
        assert(self@.pending_http_requests =~= old(self)@.pending_http_requests.insert(
            key.spec_code(),
            request.deep_view(),
        ));
        None
    }

    /// Drops a request of which more was to come.
    pub fn handle_request_abort(&mut self, key: TunnelRequestKey)
        requires
            old(self).wf(),
        ensures
            final(self).wf(),
            final(self)@ == old(self)@.without_pending_request(key.deep_view()),
    {
        self.pending_http_requests.remove(&key);
    }

    /// Begins to handle a complete request.
    pub fn process_http_request(&mut self, key: TunnelRequestKey, request: &PendingHttpRequest) -> (step: HttpStep)
        requires
            old(self).wf(),
        ensures
            final(self).wf(),
            final(self)@ == old(self)@.request_taken(key.deep_view(), request.deep_view()),
            old(self)@.is_http_step(key.deep_view(), request.deep_view(), step.deep_view()),
    {
        broadcast use lemma_bytes_deep_view;

        match self.wait_for_actor_started(request.actor_id.as_str()) {
            ActorWait::Absent => {
                let sent = self.send_response_error(key, 503, "runner.actor_not_found", "Actor not found");
                HttpStep::Rejected { sent }
            },
            ActorWait::Waiting { start_notify } => HttpStep::Waiting { start_notify },
            ActorWait::Up { generation, config } => match build_http_request(
                request.method.clone(),
                request.path.as_str(),
                &request.headers,
                request.body.duplicate(),
            ) {
                Err(error) => HttpStep::Invalid(error),
                Ok(built) => HttpStep::Fetch {
                    context: HttpContext {
                        actor_id: request.actor_id.clone(),
                        generation,
                        actor_name: config.name,
                        gateway_id: key.gateway_id,
                        request_id: key.request_id,
                    },
                    request: built,
                },
            },
        }
    }

    /// Answers a request with the response of the actor; with an error where it gave none.
    pub fn finish_http_request(&mut self, key: TunnelRequestKey, response: Option<HttpResponse>) -> (sent: Result<
        (),
        RunnerError,
    >)
        requires
            old(self).wf(),
        ensures
            final(self).wf(),
            final(self)@ == old(self)@.request_answered(key.deep_view(), response.deep_view()),
            outcome(sent) == old(self)@.send_outcome(),
    {
        match response {
            Some(response) => self.send_response_start(key, response),
            None => self.send_response_error(key, 500, "runner.internal", "Internal Server Error"),
        }
    }

    /// Sends a response of an actor.
    pub fn send_response_start(&mut self, key: TunnelRequestKey, response: HttpResponse) -> (sent: Result<
        (),
        RunnerError,
    >)
        requires
            old(self).wf(),
        ensures
            final(self).wf(),
            final(self)@ == old(self)@.tunnel_sent(key.deep_view(), response_message(response.deep_view())),
            outcome(sent) == old(self)@.send_outcome(),
    {
        let pairs = list_headers(&response.headers);
        let message = response_start(response.status, &pairs, response.body);
        self.send_tunnel_message(key, message)
    }

    /// Sends a response of the runner itself.
    pub fn send_response_error(&mut self, key: TunnelRequestKey, status: u16, error_code: &str, message: &str) -> (sent:
        Result<(), RunnerError>)
        requires
            old(self).wf(),
        ensures
            final(self).wf(),
            final(self)@ == old(self)@.tunnel_sent(
                key.deep_view(),
                error_message_for(status, error_code@, message@),
            ),
            outcome(sent) == old(self)@.send_outcome(),
    {
        broadcast use lemma_bytes_deep_view;

        let mut headers: Headers = Vec::new();
        headers.push(("content-type".to_owned(), "text/plain".to_owned()));
        headers.push(("x-rivet-error".to_owned(), error_code.to_owned()));
        assert(headers.deep_view() =~= seq![("content-type"@, "text/plain"@), ("x-rivet-error"@, error_code@)]);
        self.send_tunnel_message(
            key,
            ToServerTunnelMessageKind::ResponseStart {
                status,
                headers,
                body: Some(utf8_bytes(message)),
                stream: false,
            },
        )
    }
}

/// The response of an application that answers no requests.
pub fn not_implemented_response() -> (response: HttpResponse)
    ensures
        response.deep_view() == (HttpResponseView {
            status: 501,
            headers: Seq::empty(),
            body: encode_utf8("Not Implemented"@),
        }),
{
    HttpResponse { status: 501, headers: new_header_map(), body: utf8_bytes("Not Implemented") }
}

/// A response as it travels, for headers that were listed.
pub fn response_start(status: u16, pairs: &Vec<(String, Vec<u8>)>, body: Vec<u8>) -> (message: ToServerTunnelMessageKind)
    ensures
        message.deep_view() == response_message(
            HttpResponseView { status: status, headers: pairs.deep_view(), body: body@ },
        ),
        message.deep_view() is ResponseStart,
        names_are_distinct(message.deep_view()->ResponseStart_headers),
{
    broadcast use lemma_bytes_deep_view;

    let mut headers = read_headers(pairs);
    if !headers.contains("content-length") {
        headers.insert("content-length".to_owned(), decimal_text(body.len() as u64));
    }
    ToServerTunnelMessageKind::ResponseStart { status, headers: headers.list(), body: Some(body), stream: false }
}

/// The headers of a response that can be read as text.
fn read_headers(pairs: &Vec<(String, Vec<u8>)>) -> (headers: NameTable<String>)
    ensures
        headers.wf(),
        headers.deep_view() == readable_headers(pairs.deep_view()),
{
    broadcast use lemma_bytes_deep_view;

    let mut headers: NameTable<String> = NameTable::new();
    let mut at: usize = 0;
    let ghost whole = pairs.deep_view();
    assert(readable_headers(whole.take(0)) == headers.deep_view());
    while at < pairs.len()
        invariant
            at <= pairs.len(),
            whole == pairs.deep_view(),
            headers.wf(),
            headers.deep_view() == readable_headers(whole.take(at as int)),
        decreases pairs.len() - at,
    {
        let pair = &pairs[at];
        proof {
            assert(whole[at as int] == (pair.0@, pair.1@));
            assert(whole.take(at + 1).drop_last() =~= whole.take(at as int));
            assert(whole.take(at + 1).last() == whole[at as int]);
        }
        if let Some(text) = read_header_value(&pair.1) {
            headers.insert(pair.0.clone(), text);
        }
        at = at + 1;
    }
    assert(whole.take(at as int) =~= whole);
    headers
}

} // verus!
