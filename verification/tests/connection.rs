use engine_runner::actions::IncomingAction;
use engine_runner::connection::{
    connected_outcome, connected_step, next_reconnect_delay, shutdown_outcome, ConnectedStep, ConnectionAction,
    ConnectionEvent, RunAction, RunEvent, COMMAND_ACK_INTERVAL_SECS, RECONNECT_INITIAL_DELAY_MS,
};
use engine_runner::protocol::{CommandWrapper, ServerlessInit, ToClient, ToServer};
use engine_runner::runtime::SenderState;
use engine_runner::{AxumRunnerApp, Runner, RunnerConfig, RunnerError, RunnerInner};

fn runner_config() -> RunnerConfig {
    RunnerConfig::builder()
        .endpoint("http://engine".to_string())
        .namespace("n".to_string())
        .runner_key("k".to_string())
        .runner_name("name".to_string())
        .build()
        .unwrap()
}

fn runner() -> RunnerInner {
    RunnerInner::new(runner_config())
}

fn finished(action: ConnectionAction) -> Option<(u16, String)> {
    match action {
        ConnectionAction::Finish { disconnect } => disconnect,
        ConnectionAction::Continue { .. } => panic!("not finished"),
    }
}

#[test]
fn delays_double_up_to_the_longest() {
    let mut delay: u64 = RECONNECT_INITIAL_DELAY_MS;
    let mut delays: Vec<u64> = Vec::new();
    for _ in 0..8 {
        delays.push(delay);
        delay = next_reconnect_delay(delay);
    }
    assert_eq!(delays, vec![1000, 2000, 4000, 8000, 16000, 30000, 30000, 30000]);
    assert_eq!(next_reconnect_delay(u64::MAX), 30000);
    assert_eq!(next_reconnect_delay(0), 0);
    assert_eq!(COMMAND_ACK_INTERVAL_SECS, 300);
}

#[test]
fn runner_connects_sleeps_and_connects_again() {
    let mut inner = runner();
    inner.start().unwrap();
    let mut delay: u64 = RECONNECT_INITIAL_DELAY_MS;
    assert!(matches!(inner.run_next(&mut delay, RunEvent::Begun), RunAction::Connect));
    match inner.run_next(&mut delay, RunEvent::Disconnected { code: 1001, reason: "r".to_string() }) {
        RunAction::NotifyDisconnected { code, reason } => {
            assert_eq!(code, 1001);
            assert_eq!(reason, "r");
        }
        _ => panic!("no notice"),
    }
    assert_eq!(delay, 1000);
    assert!(matches!(
        inner.run_next(&mut delay, RunEvent::DisconnectNotified),
        RunAction::Sleep { millis: 1000 }
    ));
    assert_eq!(delay, 2000);
    assert!(matches!(inner.run_next(&mut delay, RunEvent::Slept), RunAction::Connect));
    assert!(matches!(
        inner.run_next(&mut delay, RunEvent::ConnectionEnded),
        RunAction::Sleep { millis: 2000 }
    ));
}

#[test]
fn shut_down_runner_stops() {
    let mut inner = runner();
    inner.start().unwrap();
    inner.request_shutdown();
    let mut delay: u64 = 1000;
    assert!(matches!(inner.run_next(&mut delay, RunEvent::Begun), RunAction::Stop));
    assert!(matches!(inner.run_next(&mut delay, RunEvent::ConnectionEnded), RunAction::Stop));
    assert!(matches!(inner.run_next(&mut delay, RunEvent::DisconnectNotified), RunAction::Stop));
    assert!(matches!(inner.run_next(&mut delay, RunEvent::Slept), RunAction::Stop));
    assert_eq!(delay, 1000);
}

#[test]
fn runner_starts_once() {
    let mut inner = runner();
    inner.request_shutdown();
    assert_eq!(inner.start(), Ok(()));
    assert!(!inner.shutdown);
    let again = inner.start().unwrap_err();
    assert_eq!(again, RunnerError::AlreadyStarted);
    assert_eq!(again.message(), "runner.start called more than once");
}

#[test]
fn new_connection_begins_with_the_greeting() {
    let mut inner = runner();
    assert_eq!(inner.send_to_server(ToServer::Stopping), Err(RunnerError::SenderUnavailable));
    inner.open_connection();
    assert_eq!(inner.sender, SenderState::Open);
    assert_eq!(inner.outbox, vec![inner.config.build_init_message()]);
}

#[test]
fn shutdown_tells_the_engine() {
    let mut inner = runner();
    inner.sender = SenderState::Open;
    assert_eq!(finished(inner.handle_connection_event(ConnectionEvent::ShutdownRequested)), None);
    assert_eq!(inner.outbox, vec![ToServer::Stopping]);
    assert_eq!(inner.sender, SenderState::Absent);
}

#[test]
fn end_of_a_connection_has_a_reason() {
    let mut inner = runner();
    inner.sender = SenderState::Open;
    let frame = Some((4000u16, "later".to_string()));
    assert_eq!(
        finished(inner.handle_connection_event(ConnectionEvent::Closed { frame })),
        Some((4000, "later".to_string()))
    );
    assert_eq!(inner.sender, SenderState::Absent);
    assert_eq!(
        finished(inner.handle_connection_event(ConnectionEvent::Closed { frame: None })),
        Some((1000, String::new()))
    );
    assert_eq!(
        finished(inner.handle_connection_event(ConnectionEvent::Ended)),
        Some((1006, "connection closed".to_string()))
    );
}

#[test]
fn acknowledgement_keeps_the_connection() {
    let mut inner = runner();
    inner.sender = SenderState::Open;
    match inner.handle_connection_event(ConnectionEvent::AcknowledgementDue) {
        ConnectionAction::Continue { acknowledged } => assert_eq!(acknowledged, Ok(())),
        ConnectionAction::Finish { .. } => panic!("finished"),
    }
    assert_eq!(inner.outbox, vec![ToServer::AckCommands { last_command_checkpoints: Vec::new() }]);
    assert_eq!(inner.sender, SenderState::Open);
}

#[test]
fn greeting_of_the_engine_gives_the_runner_an_id() {
    let mut inner = runner();
    assert_eq!(inner.runner_id(), None);
    assert_eq!(
        inner.handle_incoming_message(ToClient::Init { runner_id: "r-1".to_string() }),
        IncomingAction::Connected { resent: Ok(()) }
    );
    assert_eq!(inner.runner_id(), Some("r-1".to_string()));
    assert_eq!(inner.name(), "name");
}

#[test]
fn ping_is_answered() {
    let mut inner = runner();
    inner.sender = SenderState::Open;
    assert_eq!(
        inner.handle_incoming_message(ToClient::Ping { ts: -5 }),
        IncomingAction::Ponged { sent: Ok(()) }
    );
    assert_eq!(inner.outbox, vec![ToServer::Pong { ts: -5 }]);
    inner.sender = SenderState::Absent;
    assert_eq!(
        inner.handle_incoming_message(ToClient::Ping { ts: 1 }),
        IncomingAction::Ponged { sent: Err(RunnerError::SenderUnavailable) }
    );
}

#[test]
fn commands_are_handed_on_in_order() {
    let mut inner = runner();
    let commands: Vec<CommandWrapper> = Vec::new();
    assert_eq!(
        inner.handle_incoming_message(ToClient::Commands(commands)),
        IncomingAction::Commands(Vec::new())
    );
    assert_eq!(
        inner.handle_incoming_message(ToClient::AckEvents { last_event_checkpoints: Vec::new() }),
        IncomingAction::Nothing
    );
}

#[test]
fn serverless_packet_is_base64() {
    let mut inner = runner();
    assert_eq!(inner.get_serverless_init_packet(&vec![1, 2, 3]), None);
    inner.handle_incoming_message(ToClient::Init { runner_id: "r".to_string() });
    assert_eq!(inner.get_serverless_init_packet(&vec![0xff, 0xfe, 0xfd, 0x3e]), Some("//79Pg==".to_string()));
    assert_eq!(inner.get_serverless_init_packet(&b"hello".to_vec()), Some("aGVsbG8=".to_string()));
    assert_eq!(inner.get_serverless_init_packet(&Vec::new()), Some(String::new()));
}

#[test]
fn failed_callbacks_have_their_own_errors() {
    assert_eq!(connected_outcome(true), Ok(()));
    assert_eq!(
        connected_outcome(false).unwrap_err().message(),
        "runner app on_connected callback failed"
    );
    assert_eq!(shutdown_outcome(true), Ok(()));
    assert_eq!(shutdown_outcome(false).unwrap_err().message(), "runner app shutdown callback failed");
}

#[test]
fn runner_needs_an_application() {
    let missing = Runner::<u8>::builder(runner_config()).build().err().unwrap();
    assert_eq!(missing, RunnerError::RunnerAppRequired);
    assert_eq!(missing.message(), "runner app is required; call RunnerBuilder::app");
    let runner = Runner::<u8>::builder(runner_config()).app(4).app(5).build().ok().unwrap();
    assert_eq!(runner.app, 5);
    assert_eq!(runner.inner.name(), "name");
    assert!(!runner.inner.started);
}

#[test]
fn actors_are_offered_by_name() {
    let app = AxumRunnerApp::<u8>::new()
        .with_actor("counter".to_string(), 1)
        .with_actor("chat".to_string(), 2)
        .with_actor("counter".to_string(), 3);
    assert_eq!(app.actor("counter"), Some(&3));
    assert_eq!(app.actor("chat"), Some(&2));
    assert_eq!(app.actor("none"), None);
    assert_eq!(app.registered_actor("chat"), Ok(&2));
    let missing = app.registered_actor("none").unwrap_err();
    assert_eq!(missing, RunnerError::ActorNotRegistered { actor_name: "none".to_string() });
    assert_eq!(missing.message(), "actor 'none' is not registered");
}

#[test]
fn callback_on_connecting_waits_for_the_resend() {
    assert_eq!(connected_step(Ok(())), ConnectedStep::CallBack);
    assert_eq!(
        connected_step(Err(RunnerError::SenderClosed)),
        ConnectedStep::Fail(RunnerError::SenderClosed)
    );
}

#[test]
fn serverless_greeting_names_the_runner_and_the_protocol() {
    let mut inner = runner();
    assert_eq!(inner.serverless_init(4), None);
    inner.handle_incoming_message(ToClient::Init { runner_id: "r".to_string() });
    assert_eq!(
        inner.serverless_init(4),
        Some(ServerlessInit { runner_id: "r".to_string(), runner_protocol_version: 4 })
    );
}
