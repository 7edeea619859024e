use engine_runner::actions::{IncomingAction, WebSocketDelivery, WebSocketOpenStep};
use engine_runner::protocol::{
    ActorCheckpoint, CommandStartActor, MessageId, ToClient, ToClientTunnelMessageKind, ToServer,
    ToServerTunnelMessageKind, WebSocketOpen,
};
use engine_runner::runtime::{SenderState, WebSocketRuntimeState};
use engine_runner::tunnel::TunnelRequestKey;
use engine_runner::websocket::websocket_close_outcome;
use engine_runner::{
    ActorConfig, HibernatingRequest, RunnerConfig, RunnerError, RunnerInner, WebSocketContext, WebSocketMessage,
};

fn runner() -> RunnerInner {
    let config = RunnerConfig::builder()
        .endpoint("http://engine".to_string())
        .namespace("n".to_string())
        .runner_key("k".to_string())
        .build()
        .unwrap();
    let mut runner = RunnerInner::new(config);
    runner.sender = SenderState::Open;
    runner
}

fn start_actor(runner: &mut RunnerInner, actor_id: &str, hibernating_requests: Vec<HibernatingRequest>) {
    runner.handle_command_start_actor(
        ActorCheckpoint { actor_id: actor_id.to_string(), generation: 3, index: 0 },
        CommandStartActor {
            config: ActorConfig { name: "counter".to_string(), key: None, create_ts: 5, input: None },
            hibernating_requests,
        },
        77,
    );
}

fn bring_up(runner: &mut RunnerInner, actor_id: &str) {
    runner.mark_actor_started(actor_id, 3).unwrap();
}

fn key(number: u8) -> TunnelRequestKey {
    TunnelRequestKey { gateway_id: [1, 2, 3, 4], request_id: [0, 0, 0, number] }
}

fn sent(number: u8, message_index: u16, message_kind: ToServerTunnelMessageKind) -> ToServer {
    ToServer::TunnelMessage {
        message_id: MessageId { gateway_id: [1, 2, 3, 4], request_id: [0, 0, 0, number], message_index },
        message_kind,
    }
}

fn arrives(
    runner: &mut RunnerInner,
    number: u8,
    message_index: u16,
    message_kind: ToClientTunnelMessageKind,
) -> IncomingAction {
    runner.handle_incoming_message(ToClient::TunnelMessage {
        message_id: MessageId { gateway_id: [1, 2, 3, 4], request_id: [0, 0, 0, number], message_index },
        message_kind,
    })
}

fn closed(number: u8, message_index: u16, code: u16, reason: &str) -> ToServer {
    sent(
        number,
        message_index,
        ToServerTunnelMessageKind::WebSocketClose {
            code: Some(code),
            reason: Some(reason.to_string()),
            hibernate: false,
        },
    )
}

fn open() -> WebSocketOpen {
    WebSocketOpen {
        actor_id: "a".to_string(),
        path: "/ws".to_string(),
        headers: vec![("h".to_string(), "v".to_string())],
    }
}

fn context(number: u8, is_hibernatable: bool) -> WebSocketContext {
    WebSocketContext {
        actor_id: "a".to_string(),
        generation: 3,
        actor_name: "counter".to_string(),
        gateway_id: [1, 2, 3, 4],
        request_id: [0, 0, 0, number],
        path: "/ws".to_string(),
        headers: vec![("h".to_string(), "v".to_string())],
        is_hibernatable,
        is_restoring_hibernatable: false,
    }
}

fn opened(can_hibernate: bool) -> RunnerInner {
    let mut runner = runner();
    start_actor(&mut runner, "a", Vec::new());
    bring_up(&mut runner, "a");
    runner.accept_websocket(key(1), context(1, false), can_hibernate);
    runner
}

fn text(data: &[u8]) -> ToClientTunnelMessageKind {
    ToClientTunnelMessageKind::WebSocketMessage { data: data.to_vec(), binary: false }
}

fn delivered(action: &IncomingAction) -> Option<u16> {
    match action {
        IncomingAction::DeliverMessage { delivery, .. } => Some(delivery.message.message_index),
        IncomingAction::Nothing => None,
        _ => panic!("unexpected action"),
    }
}

#[test]
fn websocket_of_an_unknown_actor_is_closed() {
    let mut runner = runner();
    let action = arrives(&mut runner, 1, 5, ToClientTunnelMessageKind::WebSocketOpen(open()));
    assert_eq!(action, IncomingAction::OpenWebSocket { key: key(1), open: open() });
    assert_eq!(
        runner.handle_websocket_open(key(1), &open()),
        WebSocketOpenStep::Rejected { sent: Ok(()) }
    );
    assert_eq!(runner.outbox, vec![closed(1, 5, 1011, "runner.actor_not_found")]);
}

#[test]
fn websocket_waits_for_its_actor_and_is_then_opened() {
    let mut runner = runner();
    start_actor(&mut runner, "a", Vec::new());
    assert_eq!(
        runner.handle_websocket_open(key(1), &open()),
        WebSocketOpenStep::Waiting { start_notify: 77 }
    );
    bring_up(&mut runner, "a");
    assert_eq!(
        runner.handle_websocket_open(key(1), &open()),
        WebSocketOpenStep::Asking(context(1, false))
    );
    assert!(runner.websockets.get(&key(1)).is_none());
    assert_eq!(runner.accept_websocket(key(1), context(1, false), true), context(1, true));
    assert_eq!(
        runner.websockets.get(&key(1)),
        Some(&WebSocketRuntimeState {
            actor_id: "a".to_string(),
            generation: 3,
            actor_name: "counter".to_string(),
            path: "/ws".to_string(),
            headers: vec![("h".to_string(), "v".to_string())],
            is_hibernatable: true,
            is_restoring_hibernatable: false,
            server_message_index: 0,
        })
    );
    assert_eq!(runner.finish_websocket_open(key(1), true, Ok(())), Ok(()));
    assert_eq!(
        runner.outbox,
        vec![sent(1, 0, ToServerTunnelMessageKind::WebSocketOpen { can_hibernate: true })]
    );
}

#[test]
fn failed_open_callback_closes_the_websocket() {
    let mut runner = opened(false);
    let failed = runner.finish_websocket_open(key(1), false, Err("no".to_string())).unwrap_err();
    assert_eq!(failed, RunnerError::WebSocketCallbackFailed { message: "no".to_string() });
    assert_eq!(failed.message(), "websocket callback failed: no");
    assert!(runner.websockets.get(&key(1)).is_none());
    assert_eq!(runner.outbox, vec![closed(1, 0, 1011, "ws.open_error")]);
}

#[test]
fn failed_open_callback_without_a_way_to_tell() {
    let mut runner = opened(false);
    runner.sender = SenderState::Absent;
    assert_eq!(
        runner.finish_websocket_open(key(1), false, Err("no".to_string())),
        Err(RunnerError::SenderUnavailable)
    );
    assert!(runner.websockets.get(&key(1)).is_none());
}

#[test]
fn plain_websocket_takes_every_message() {
    let mut runner = opened(false);
    for index in [9u16, 9, 2, 40000] {
        assert_eq!(
            arrives(&mut runner, 1, index, text(&[1])),
            IncomingAction::DeliverMessage {
                key: key(1),
                delivery: WebSocketDelivery {
                    context: context(1, false),
                    message: WebSocketMessage { data: vec![1], binary: false, message_index: index },
                },
            }
        );
    }
    assert_eq!(runner.websockets.get(&key(1)).unwrap().server_message_index, 0);
}

#[test]
fn message_without_a_websocket_is_ignored() {
    let mut runner = runner();
    assert_eq!(arrives(&mut runner, 1, 0, text(&[1])), IncomingAction::Nothing);
}

#[test]
fn hibernatable_websocket_takes_each_message_once_and_in_order() {
    let mut runner = opened(true);
    let mut seen: Vec<u16> = Vec::new();
    for index in [0u16, 1, 1, 2, 65535, 1, 3, 2, 4] {
        if let Some(index) = delivered(&arrives(&mut runner, 1, index, text(&[1]))) {
            seen.push(index);
        }
    }
    assert_eq!(seen, vec![1, 2, 3, 4]);
    assert!(runner.outbox.is_empty());
}

#[test]
fn hibernatable_numbering_goes_round() {
    let mut runner = opened(true);
    let mut state = runner.websockets.get(&key(1)).unwrap().clone();
    state.server_message_index = 65534;
    runner.websockets.insert(key(1), state);
    assert_eq!(delivered(&arrives(&mut runner, 1, 65535, text(&[1]))), Some(65535));
    assert_eq!(delivered(&arrives(&mut runner, 1, 0, text(&[1]))), Some(0));
    assert_eq!(delivered(&arrives(&mut runner, 1, 65535, text(&[1]))), None);
    assert_eq!(delivered(&arrives(&mut runner, 1, 1, text(&[1]))), Some(1));
}

#[test]
fn gap_closes_the_websocket() {
    let mut runner = opened(true);
    assert_eq!(delivered(&arrives(&mut runner, 1, 1, text(&[1]))), Some(1));
    assert_eq!(delivered(&arrives(&mut runner, 1, 3, text(&[1]))), None);
    assert_eq!(runner.outbox, vec![closed(1, 1, 1008, "ws.message_index_skip")]);
    assert!(runner.websockets.get(&key(1)).is_none());
    assert_eq!(delivered(&arrives(&mut runner, 1, 2, text(&[1]))), None);
}

#[test]
fn failed_message_callback_closes_the_websocket() {
    let mut runner = opened(false);
    assert_eq!(runner.finish_websocket_message(key(1), true), Ok(()));
    assert!(runner.websockets.get(&key(1)).is_some());
    assert_eq!(runner.finish_websocket_message(key(1), false), Ok(()));
    assert!(runner.websockets.get(&key(1)).is_none());
    assert_eq!(runner.outbox, vec![closed(1, 0, 1011, "ws.message_error")]);
    runner.sender = SenderState::Closed;
    assert_eq!(runner.finish_websocket_message(key(1), false), Err(RunnerError::SenderClosed));
}

#[test]
fn closed_websocket_is_forgotten() {
    let mut runner = opened(true);
    let close = || ToClientTunnelMessageKind::WebSocketClose { code: Some(1001), reason: Some("bye".to_string()) };
    assert_eq!(
        arrives(&mut runner, 1, 1, close()),
        IncomingAction::CloseWebSocket {
            context: context(1, true),
            code: Some(1001),
            reason: Some("bye".to_string()),
        }
    );
    assert_eq!(arrives(&mut runner, 1, 2, close()), IncomingAction::Nothing);
    assert_eq!(websocket_close_outcome(true), Ok(()));
    let failed = websocket_close_outcome(false).unwrap_err();
    assert_eq!(failed.message(), "websocket close callback failed");
}

#[test]
fn outgoing_messages_are_numbered_consecutively() {
    let mut runner = runner();
    arrives(&mut runner, 1, 65534, text(&[1]));
    arrives(&mut runner, 1, 7, text(&[1]));
    runner.send_websocket_message([1, 2, 3, 4], [0, 0, 0, 1], vec![5], true).unwrap();
    runner.send_hibernatable_websocket_message_ack([1, 2, 3, 4], [0, 0, 0, 1], 12).unwrap();
    runner.send_websocket_message([1, 2, 3, 4], [0, 0, 0, 2], vec![6], false).unwrap();
    runner.close_websocket([1, 2, 3, 4], [0, 0, 0, 1], None, None, true).unwrap();
    assert_eq!(
        runner.outbox,
        vec![
            sent(1, 65534, ToServerTunnelMessageKind::WebSocketMessage { data: vec![5], binary: true }),
            sent(1, 65535, ToServerTunnelMessageKind::WebSocketMessageAck { index: 12 }),
            sent(2, 0, ToServerTunnelMessageKind::WebSocketMessage { data: vec![6], binary: false }),
            sent(
                1,
                0,
                ToServerTunnelMessageKind::WebSocketClose { code: None, reason: None, hibernate: true }
            ),
        ]
    );
}

#[test]
fn unsent_tunnel_message_takes_its_number() {
    let mut runner = runner();
    runner.sender = SenderState::Absent;
    assert_eq!(
        runner.send_websocket_message([1, 2, 3, 4], [0, 0, 0, 1], vec![5], true),
        Err(RunnerError::SenderUnavailable)
    );
    runner.sender = SenderState::Open;
    runner.send_hibernatable_websocket_message_ack([1, 2, 3, 4], [0, 0, 0, 1], 3).unwrap();
    assert_eq!(
        runner.outbox,
        vec![sent(1, 1, ToServerTunnelMessageKind::WebSocketMessageAck { index: 3 })]
    );
}

#[test]
fn tunnels_are_told_apart_by_every_byte() {
    let base = TunnelRequestKey { gateway_id: [1, 2, 3, 4], request_id: [5, 6, 7, 8] };
    assert_eq!(base.code(), 0x0102030405060708);
    for at in 0..4 {
        let mut gateway = base;
        gateway.gateway_id[at] ^= 1;
        let mut request = base;
        request.request_id[at] ^= 1;
        assert_ne!(base.code(), gateway.code());
        assert_ne!(base.code(), request.code());
        assert!(!base.same(&gateway));
        assert!(!base.same(&request));
    }
    assert!(base.same(&base));
}

#[test]
fn tunnels_do_not_interfere() {
    let mut runner = opened(true);
    runner.accept_websocket(key(2), context(2, false), true);
    assert_eq!(delivered(&arrives(&mut runner, 1, 1, text(&[1]))), Some(1));
    assert_eq!(delivered(&arrives(&mut runner, 1, 9, text(&[1]))), None);
    assert!(runner.websockets.get(&key(1)).is_none());
    assert_eq!(delivered(&arrives(&mut runner, 2, 1, text(&[1]))), Some(1));
    assert_eq!(delivered(&arrives(&mut runner, 2, 2, text(&[1]))), Some(2));
    assert_eq!(runner.tunnel_message_indices.get(&key(2)), Some(&1));
}
