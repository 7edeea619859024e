use engine_runner::actions::IncomingAction;
use engine_runner::protocol::{
    ActorCheckpoint, CommandStartActor, MessageId, RequestStart, ToClient, ToClientTunnelMessageKind, ToServer,
    ToServerTunnelMessageKind,
};
use engine_runner::requests::{
    build_checked_request, build_http_request, response_start, uri_for_path, HttpResponse, HttpStep,
};
use engine_runner::runtime::{PendingHttpRequest, SenderState};
use engine_runner::tunnel::TunnelRequestKey;
use engine_runner::{ActorConfig, HibernatingRequest, HttpContext, RunnerConfig, RunnerError, RunnerInner};

fn runner() -> RunnerInner {
    let config = RunnerConfig::builder()
        .endpoint("http://engine".to_string())
        .namespace("n".to_string())
        .runner_key("k".to_string())
        .build()
        .unwrap();
    let mut runner = RunnerInner::new(config);
    runner.sender = SenderState::Open;
    runner
}

fn start_actor(runner: &mut RunnerInner, actor_id: &str, hibernating_requests: Vec<HibernatingRequest>) {
    runner.handle_command_start_actor(
        ActorCheckpoint { actor_id: actor_id.to_string(), generation: 3, index: 0 },
        CommandStartActor {
            config: ActorConfig { name: "counter".to_string(), key: None, create_ts: 5, input: None },
            hibernating_requests,
        },
        77,
    );
}

fn bring_up(runner: &mut RunnerInner, actor_id: &str) {
    runner.mark_actor_started(actor_id, 3).unwrap();
}

fn key(number: u8) -> TunnelRequestKey {
    TunnelRequestKey { gateway_id: [1, 2, 3, 4], request_id: [0, 0, 0, number] }
}

fn sent(number: u8, message_index: u16, message_kind: ToServerTunnelMessageKind) -> ToServer {
    ToServer::TunnelMessage {
        message_id: MessageId { gateway_id: [1, 2, 3, 4], request_id: [0, 0, 0, number], message_index },
        message_kind,
    }
}

fn arrives(
    runner: &mut RunnerInner,
    number: u8,
    message_index: u16,
    message_kind: ToClientTunnelMessageKind,
) -> IncomingAction {
    runner.handle_incoming_message(ToClient::TunnelMessage {
        message_id: MessageId { gateway_id: [1, 2, 3, 4], request_id: [0, 0, 0, number], message_index },
        message_kind,
    })
}

fn pair(name: &str, value: &str) -> (String, String) {
    (name.to_string(), value.to_string())
}

fn head(body: Option<Vec<u8>>, stream: bool) -> ToClientTunnelMessageKind {
    ToClientTunnelMessageKind::RequestStart(RequestStart {
        actor_id: "a".to_string(),
        method: "POST".to_string(),
        path: "/p".to_string(),
        headers: vec![pair("x-one", "1")],
        body,
        stream,
    })
}

fn chunk(body: &[u8], finish: bool) -> ToClientTunnelMessageKind {
    ToClientTunnelMessageKind::RequestChunk { body: body.to_vec(), finish }
}

fn pending(body: &[u8]) -> PendingHttpRequest {
    PendingHttpRequest {
        actor_id: "a".to_string(),
        method: "POST".to_string(),
        path: "/p".to_string(),
        headers: vec![pair("x-one", "1")],
        body: body.to_vec(),
    }
}

fn response(status: u16, pairs: &[(&str, &[u8])], body: &[u8]) -> HttpResponse {
    let mut headers = http::HeaderMap::new();
    for (name, value) in pairs {
        headers.append(
            name.parse::<http::HeaderName>().unwrap(),
            http::HeaderValue::from_bytes(value).unwrap(),
        );
    }
    HttpResponse { status, headers, body: body.to_vec() }
}

#[test]
fn whole_request_is_handled_at_once() {
    let mut runner = runner();
    assert_eq!(
        arrives(&mut runner, 1, 0, head(Some(vec![1, 2]), false)),
        IncomingAction::ProcessRequest { key: key(1), request: pending(&[1, 2]) }
    );
    assert_eq!(
        arrives(&mut runner, 1, 0, head(None, false)),
        IncomingAction::ProcessRequest { key: key(1), request: pending(&[]) }
    );
    assert!(runner.pending_http_requests.get(&key(1)).is_none());
}

#[test]
fn streamed_body_is_put_together() {
    let mut runner = runner();
    assert_eq!(arrives(&mut runner, 1, 0, head(Some(vec![1]), true)), IncomingAction::Nothing);
    assert_eq!(arrives(&mut runner, 1, 1, chunk(&[2, 3], false)), IncomingAction::Nothing);
    assert_eq!(arrives(&mut runner, 2, 0, chunk(&[99], true)), IncomingAction::Nothing);
    assert_eq!(arrives(&mut runner, 1, 2, chunk(&[], false)), IncomingAction::Nothing);
    assert_eq!(
        arrives(&mut runner, 1, 3, chunk(&[4], true)),
        IncomingAction::ProcessRequest { key: key(1), request: pending(&[1, 2, 3, 4]) }
    );
    assert_eq!(arrives(&mut runner, 1, 4, chunk(&[5], true)), IncomingAction::Nothing);
}

#[test]
fn aborted_request_is_dropped() {
    let mut runner = runner();
    arrives(&mut runner, 1, 0, head(None, true));
    assert_eq!(
        arrives(&mut runner, 1, 1, ToClientTunnelMessageKind::RequestAbort),
        IncomingAction::Nothing
    );
    assert_eq!(arrives(&mut runner, 1, 2, chunk(&[4], true)), IncomingAction::Nothing);
}

#[test]
fn request_for_an_unknown_actor_is_answered_by_the_runner() {
    let mut runner = runner();
    arrives(&mut runner, 1, 6, head(None, false));
    match runner.process_http_request(key(1), &pending(&[])) {
        HttpStep::Rejected { sent } => assert_eq!(sent, Ok(())),
        _ => panic!("not rejected"),
    }
    assert_eq!(
        runner.outbox,
        vec![sent(
            1,
            6,
            ToServerTunnelMessageKind::ResponseStart {
                status: 503,
                headers: vec![
                    pair("content-type", "text/plain"),
                    pair("x-rivet-error", "runner.actor_not_found"),
                ],
                body: Some(b"Actor not found".to_vec()),
                stream: false,
            }
        )]
    );
}

#[test]
fn request_waits_for_its_actor_and_is_then_put_to_it() {
    let mut runner = runner();
    start_actor(&mut runner, "a", Vec::new());
    match runner.process_http_request(key(1), &pending(&[8])) {
        HttpStep::Waiting { start_notify } => assert_eq!(start_notify, 77),
        _ => panic!("not waiting"),
    }
    bring_up(&mut runner, "a");
    match runner.process_http_request(key(1), &pending(&[8])) {
        HttpStep::Fetch { context, request } => {
            assert_eq!(
                context,
                HttpContext {
                    actor_id: "a".to_string(),
                    generation: 3,
                    actor_name: "counter".to_string(),
                    gateway_id: [1, 2, 3, 4],
                    request_id: [0, 0, 0, 1],
                }
            );
            assert_eq!(request.method, "POST");
            assert_eq!(request.uri, "http://actor/p");
            assert_eq!(request.headers.get("x-one").unwrap(), "1");
            assert_eq!(request.body, vec![8]);
        }
        _ => panic!("not fetched"),
    }
    assert!(runner.outbox.is_empty());
}

#[test]
fn path_without_a_slash_gets_one() {
    let built = build_http_request("GET".to_string(), "a?b=1", &Vec::new(), Vec::new()).unwrap();
    assert_eq!(built.uri, "http://actor/a?b=1");
    let empty = build_http_request("GET".to_string(), "", &Vec::new(), Vec::new()).unwrap();
    assert_eq!(empty.uri, "http://actor/");
}

#[test]
fn invalid_parts_of_a_request_are_told_in_order() {
    let bad_headers = vec![pair("na me", "v")];
    let method = build_http_request("GE T".to_string(), "/ x", &bad_headers, Vec::new());
    assert_eq!(method.err(), Some(RunnerError::InvalidMethod));
    let none = build_http_request("".to_string(), "/", &Vec::new(), Vec::new());
    assert_eq!(none.err(), Some(RunnerError::InvalidMethod));
    let uri = build_http_request("GET".to_string(), "/ x", &bad_headers, Vec::new());
    assert_eq!(uri.err(), Some(RunnerError::InvalidUri));
    let name = build_http_request("GET".to_string(), "/", &bad_headers, Vec::new());
    assert_eq!(name.err().unwrap().message(), "invalid HTTP header name");
    let value = build_http_request("GET".to_string(), "/", &vec![pair("n", "a\r\nb")], Vec::new());
    assert_eq!(value.err().unwrap().message(), "failed to parse header value");
    let both = vec![pair("ok", "v"), pair("n", "\u{7f}"), pair("", "v")];
    let first = build_http_request("GET".to_string(), "/", &both, Vec::new());
    assert_eq!(
        first.err(),
        Some(RunnerError::InvalidHeader { message: "failed to parse header value".to_string() })
    );
    assert_eq!(RunnerError::InvalidMethod.message(), "invalid method");
    assert_eq!(RunnerError::InvalidUri.message(), "invalid uri");
}

#[test]
fn request_with_invalid_parts_is_not_put_to_its_actor() {
    let mut runner = runner();
    start_actor(&mut runner, "a", Vec::new());
    bring_up(&mut runner, "a");
    let mut request = pending(&[]);
    request.method = "\u{e9}".to_string();
    match runner.process_http_request(key(1), &request) {
        HttpStep::Invalid(error) => assert_eq!(error, RunnerError::InvalidMethod),
        _ => panic!("not invalid"),
    }
    assert!(runner.outbox.is_empty());
}

#[test]
fn repeated_headers_keep_their_values_in_order() {
    let headers = vec![pair("X-A", "1"), pair("b", "\u{e9}"), pair("x-a", "2")];
    let built = build_http_request("GET".to_string(), "/", &headers, Vec::new()).unwrap();
    let pairs: Vec<(String, Vec<u8>)> = built
        .headers
        .iter()
        .map(|(name, value)| (name.to_string(), value.as_bytes().to_vec()))
        .collect();
    assert_eq!(
        pairs,
        vec![
            ("x-a".to_string(), b"1".to_vec()),
            ("x-a".to_string(), b"2".to_vec()),
            ("b".to_string(), vec![0xc3, 0xa9]),
        ]
    );
}

#[test]
fn response_gets_the_length_of_its_body() {
    let mut runner = runner();
    let answer = response(201, &[("x-b", b"2"), ("x-a", b"1"), ("x-b", b"3")], b"hello world");
    assert_eq!(runner.finish_http_request(key(1), Some(answer)), Ok(()));
    assert_eq!(
        runner.outbox,
        vec![sent(
            1,
            0,
            ToServerTunnelMessageKind::ResponseStart {
                status: 201,
                headers: vec![pair("x-b", "3"), pair("x-a", "1"), pair("content-length", "11")],
                body: Some(b"hello world".to_vec()),
                stream: false,
            }
        )]
    );
}

#[test]
fn given_length_and_unreadable_headers() {
    let mut runner = runner();
    let answer = response(200, &[("content-length", b"7"), ("x-raw", &[0xff, 0x41]), ("x-tab", b"a\tb")], b"");
    runner.send_response_start(key(1), answer).unwrap();
    assert_eq!(
        runner.outbox,
        vec![sent(
            1,
            0,
            ToServerTunnelMessageKind::ResponseStart {
                status: 200,
                headers: vec![pair("content-length", "7"), pair("x-tab", "a\tb")],
                body: Some(Vec::new()),
                stream: false,
            }
        )]
    );
}

#[test]
fn actor_without_a_response_gives_an_internal_error() {
    let mut runner = runner();
    assert_eq!(runner.finish_http_request(key(1), None), Ok(()));
    assert_eq!(
        runner.outbox,
        vec![sent(
            1,
            0,
            ToServerTunnelMessageKind::ResponseStart {
                status: 500,
                headers: vec![pair("content-type", "text/plain"), pair("x-rivet-error", "runner.internal")],
                body: Some(b"Internal Server Error".to_vec()),
                stream: false,
            }
        )]
    );
    runner.sender = SenderState::Closed;
    assert_eq!(runner.finish_http_request(key(1), None), Err(RunnerError::SenderClosed));
}

#[test]
fn application_without_answers_is_not_implemented() {
    let answer = engine_runner::requests::not_implemented_response();
    assert_eq!(answer.status, 501);
    assert!(answer.headers.is_empty());
    assert_eq!(answer.body, b"Not Implemented".to_vec());
}

#[test]
fn address_that_cannot_be_parsed_is_refused() {
    let uri = || "http://actor/".to_string();
    let refused = build_checked_request("GET".to_string(), uri(), false, &Vec::new(), Vec::new());
    assert_eq!(refused.err(), Some(RunnerError::InvalidUri));
    let built = build_checked_request("GET".to_string(), uri(), true, &Vec::new(), vec![1]).ok().unwrap();
    assert_eq!(built.uri, "http://actor/");
    assert_eq!(built.body, vec![1]);
    assert_eq!(uri_for_path("x"), "http://actor/x");
    assert_eq!(uri_for_path("/x"), "http://actor/x");
}

#[test]
fn listed_headers_make_a_response() {
    let pairs = vec![("a".to_string(), b"1".to_vec()), ("a".to_string(), vec![0x7f])];
    assert_eq!(
        response_start(204, &pairs, Vec::new()),
        ToServerTunnelMessageKind::ResponseStart {
            status: 204,
            headers: vec![pair("a", "1"), pair("content-length", "0")],
            body: Some(Vec::new()),
            stream: false,
        }
    );
}

#[test]
fn too_many_headers_are_refused() {
    let headers: Vec<(String, String)> = (0..24577).map(|number| pair(&format!("h{number}"), "v")).collect();
    let full = build_http_request("GET".to_string(), "/", &headers, Vec::new());
    assert_eq!(full.err(), Some(RunnerError::InvalidHeader { message: "max size reached".to_string() }));
    let some = build_http_request("GET".to_string(), "/", &headers[..6554].to_vec(), Vec::new());
    assert_eq!(some.ok().unwrap().headers.len(), 6554);
}
