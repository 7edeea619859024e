use engine_runner::actions::RestoreStep;
use engine_runner::protocol::{
    ActorCheckpoint, CommandStartActor, MessageId, ToServer, ToServerTunnelMessageKind,
};
use engine_runner::runtime::SenderState;
use engine_runner::tunnel::TunnelRequestKey;
use engine_runner::{
    ActorConfig, HibernatingRequest, HibernatingWebSocketMetadata, RunnerConfig, RunnerError, RunnerInner,
    WebSocketContext,
};

fn runner() -> RunnerInner {
    let config = RunnerConfig::builder()
        .endpoint("http://engine".to_string())
        .namespace("n".to_string())
        .runner_key("k".to_string())
        .build()
        .unwrap();
    let mut runner = RunnerInner::new(config);
    runner.sender = SenderState::Open;
    runner
}

fn start_actor(runner: &mut RunnerInner, actor_id: &str, hibernating_requests: Vec<HibernatingRequest>) {
    runner.handle_command_start_actor(
        ActorCheckpoint { actor_id: actor_id.to_string(), generation: 3, index: 0 },
        CommandStartActor {
            config: ActorConfig { name: "counter".to_string(), key: None, create_ts: 5, input: None },
            hibernating_requests,
        },
        77,
    );
}

fn bring_up(runner: &mut RunnerInner, actor_id: &str) {
    runner.mark_actor_started(actor_id, 3).unwrap();
}

fn key(number: u8) -> TunnelRequestKey {
    TunnelRequestKey { gateway_id: [1, 2, 3, 4], request_id: [0, 0, 0, number] }
}

fn sent(number: u8, message_index: u16, message_kind: ToServerTunnelMessageKind) -> ToServer {
    ToServer::TunnelMessage {
        message_id: MessageId { gateway_id: [1, 2, 3, 4], request_id: [0, 0, 0, number], message_index },
        message_kind,
    }
}

fn closed(number: u8, message_index: u16, code: u16, reason: &str) -> ToServer {
    sent(
        number,
        message_index,
        ToServerTunnelMessageKind::WebSocketClose {
            code: Some(code),
            reason: Some(reason.to_string()),
            hibernate: false,
        },
    )
}

fn request(number: u8) -> HibernatingRequest {
    HibernatingRequest { gateway_id: [1, 2, 3, 4], request_id: [0, 0, 0, number] }
}

fn meta(number: u8, path: &str) -> HibernatingWebSocketMetadata {
    HibernatingWebSocketMetadata {
        gateway_id: [1, 2, 3, 4],
        request_id: [0, 0, 0, number],
        client_message_index: 100 + number as u16,
        server_message_index: 200 + number as u16,
        path: path.to_string(),
        headers: vec![("h".to_string(), "v".to_string())],
    }
}

fn context(number: u8, path: &str) -> WebSocketContext {
    WebSocketContext {
        actor_id: "a".to_string(),
        generation: 3,
        actor_name: "counter".to_string(),
        gateway_id: [1, 2, 3, 4],
        request_id: [0, 0, 0, number],
        path: path.to_string(),
        headers: vec![("h".to_string(), "v".to_string())],
        is_hibernatable: true,
        is_restoring_hibernatable: true,
    }
}

fn stale(number: u8, path: &str) -> RestoreStep {
    RestoreStep::Close { context: context(number, path), code: 1000, reason: "ws.stale_metadata".to_string() }
}

fn hibernated(numbers: &[u8]) -> RunnerInner {
    let mut runner = runner();
    start_actor(&mut runner, "a", numbers.iter().map(|number| request(*number)).collect());
    bring_up(&mut runner, "a");
    runner
}

#[test]
fn restoring_opens_the_known_and_closes_the_rest() {
    let mut runner = hibernated(&[1, 2, 3]);
    let entries = vec![meta(4, "/stale"), meta(3, "/three"), meta(1, "/one"), meta(1, "/again"), meta(5, "/late")];
    let mut restore = runner.restore_hibernating_requests("a", entries).unwrap();
    assert_eq!(runner.advance_restore(&mut restore), RestoreStep::Open(context(1, "/one")));
    assert_eq!(runner.finish_restore_open(&mut restore, true), Ok(()));
    assert_eq!(runner.advance_restore(&mut restore), RestoreStep::Open(context(3, "/three")));
    assert_eq!(runner.outbox, vec![closed(2, 0, 1000, "ws.meta_not_found_during_restore")]);
    assert_eq!(runner.finish_restore_open(&mut restore, true), Ok(()));
    assert_eq!(runner.advance_restore(&mut restore), stale(4, "/stale"));
    assert_eq!(runner.finish_restore_close(&mut restore, true), Ok(()));
    assert_eq!(runner.advance_restore(&mut restore), stale(5, "/late"));
    assert_eq!(runner.finish_restore_close(&mut restore, true), Ok(()));
    assert_eq!(runner.advance_restore(&mut restore), RestoreStep::Finished);
    assert_eq!(runner.websockets.get(&key(1)).unwrap().server_message_index, 201);
    assert!(runner.websockets.get(&key(1)).unwrap().is_hibernatable);
    assert!(runner.websockets.get(&key(2)).is_none());
    assert_eq!(runner.websockets.get(&key(3)).unwrap().path, "/three");
    assert!(runner.websockets.get(&key(4)).is_none());
    assert!(runner.websockets.get(&key(5)).is_none());
}

#[test]
fn restored_websocket_goes_on_with_its_numbers() {
    let mut runner = hibernated(&[1]);
    let mut restore = runner.restore_hibernating_requests("a", vec![meta(1, "/one")]).unwrap();
    runner.advance_restore(&mut restore);
    runner.finish_restore_open(&mut restore, true).unwrap();
    runner.send_hibernatable_websocket_message_ack([1, 2, 3, 4], [0, 0, 0, 1], 5).unwrap();
    assert_eq!(
        runner.outbox,
        vec![sent(1, 101, ToServerTunnelMessageKind::WebSocketMessageAck { index: 5 })]
    );
    assert!(runner.handle_websocket_message(key(1), 201, vec![1], false).is_none());
    assert!(runner.handle_websocket_message(key(1), 202, vec![1], false).is_some());
}

#[test]
fn failed_open_callback_ends_one_websocket_only() {
    let mut runner = hibernated(&[1, 2]);
    let entries = vec![meta(1, "/one"), meta(2, "/two")];
    let mut restore = runner.restore_hibernating_requests("a", entries).unwrap();
    runner.advance_restore(&mut restore);
    assert_eq!(runner.finish_restore_open(&mut restore, false), Ok(()));
    assert_eq!(runner.outbox, vec![closed(1, 101, 1011, "ws.restore_error")]);
    assert!(runner.websockets.get(&key(1)).is_none());
    assert_eq!(runner.advance_restore(&mut restore), RestoreStep::Open(context(2, "/two")));
    runner.sender = SenderState::Closed;
    assert_eq!(runner.finish_restore_open(&mut restore, false), Err(RunnerError::SenderClosed));
}

#[test]
fn failed_close_callback_stops_the_restoring() {
    let mut runner = hibernated(&[]);
    let mut restore = runner.restore_hibernating_requests("a", vec![meta(1, "/one")]).unwrap();
    assert_eq!(runner.advance_restore(&mut restore), stale(1, "/one"));
    let failed = runner.finish_restore_close(&mut restore, false).unwrap_err();
    assert_eq!(failed, RunnerError::StaleWebSocketCloseCallbackFailed);
    assert_eq!(failed.message(), "stale websocket close callback failed");
}

#[test]
fn restoring_stops_where_the_engine_cannot_be_told() {
    let mut runner = hibernated(&[1, 2]);
    runner.sender = SenderState::Absent;
    let mut restore = runner.restore_hibernating_requests("a", vec![meta(2, "/two")]).unwrap();
    assert_eq!(
        runner.advance_restore(&mut restore),
        RestoreStep::Failed(RunnerError::SenderUnavailable)
    );
}

#[test]
fn restoring_begins_once_and_for_known_actors() {
    let mut runner = hibernated(&[]);
    assert!(runner.restore_hibernating_requests("a", Vec::new()).is_ok());
    let again = runner.restore_hibernating_requests("a", Vec::new()).err().unwrap();
    assert_eq!(again, RunnerError::AlreadyRestored { actor_id: "a".to_string() });
    assert_eq!(again.message(), "actor a already restored hibernating requests");
    assert_eq!(
        runner.restore_hibernating_requests("b", Vec::new()).err(),
        Some(RunnerError::ActorNotFound { actor_id: "b".to_string() })
    );
}
