use engine_runner::protocol::{
    ActorCheckpoint, ActorIntent, CommandStartActor, Event, EventWrapper, ToClient, ToServer,
};
use engine_runner::runtime::SenderState;
use engine_runner::{ActorConfig, RunnerConfig, RunnerError, RunnerInner};

fn runner() -> RunnerInner {
    let config = RunnerConfig::builder()
        .endpoint("http://engine".to_string())
        .namespace("n".to_string())
        .runner_key("k".to_string())
        .build()
        .unwrap();
    let mut runner = RunnerInner::new(config);
    runner.sender = SenderState::Open;
    runner
}

fn with_actor(runner: &mut RunnerInner, actor_id: &str, generation: u32, index: i64) {
    runner.handle_command_start_actor(
        ActorCheckpoint { actor_id: actor_id.to_string(), generation, index },
        CommandStartActor {
            config: ActorConfig { name: "counter".to_string(), key: None, create_ts: 5, input: None },
            hibernating_requests: Vec::new(),
        },
        1,
    );
}

fn intent(actor_id: &str, generation: u32, index: i64, intent: ActorIntent) -> EventWrapper {
    EventWrapper {
        checkpoint: ActorCheckpoint { actor_id: actor_id.to_string(), generation, index },
        inner: Event::Intent(intent),
    }
}

fn checkpoint(actor_id: &str, generation: u32, index: i64) -> ActorCheckpoint {
    ActorCheckpoint { actor_id: actor_id.to_string(), generation, index }
}

#[test]
fn events_are_numbered_and_sent() {
    let mut runner = runner();
    with_actor(&mut runner, "a", 3, 0);
    assert_eq!(runner.sleep_actor("a", None), Ok(()));
    assert_eq!(runner.stop_actor("a", Some(3)), Ok(()));
    assert_eq!(
        runner.outbox,
        vec![
            ToServer::Events(vec![intent("a", 3, 0, ActorIntent::Sleep)]),
            ToServer::Events(vec![intent("a", 3, 1, ActorIntent::Stop)]),
        ]
    );
    assert!(runner.can_emit("a"));
    assert!(runner.can_emit("nobody"));
}

#[test]
fn alarms_are_set_and_cleared() {
    let mut runner = runner();
    with_actor(&mut runner, "a", 1, 0);
    runner.set_alarm("a", Some(99), None).unwrap();
    runner.clear_alarm("a", None).unwrap();
    let history = &runner.actors.get("a").unwrap().event_history;
    assert_eq!(history[0].inner, Event::SetAlarm(Some(99)));
    assert_eq!(history[1].inner, Event::SetAlarm(None));
}

#[test]
fn unknown_actor_and_wrong_generation_are_refused() {
    let mut runner = runner();
    let unknown = runner.sleep_actor("x", None).unwrap_err();
    assert_eq!(unknown, RunnerError::ActorNotFound { actor_id: "x".to_string() });
    assert_eq!(unknown.message(), "actor x not found");
    with_actor(&mut runner, "a", 3, 0);
    let wrong = runner.stop_actor("a", Some(2)).unwrap_err();
    assert_eq!(wrong, RunnerError::GenerationExpected { expected: 3, got: 2 });
    assert_eq!(wrong.message(), "actor generation mismatch, expected 3, got 2");
    assert!(runner.outbox.is_empty());
    assert_eq!(runner.actors.get("a").unwrap().next_event_idx, 0);
}

#[test]
fn event_that_could_not_be_sent_is_kept() {
    let mut runner = runner();
    with_actor(&mut runner, "a", 1, 0);
    runner.sender = SenderState::Absent;
    assert_eq!(runner.sleep_actor("a", None), Err(RunnerError::SenderUnavailable));
    runner.sender = SenderState::Closed;
    assert_eq!(runner.stop_actor("a", None), Err(RunnerError::SenderClosed));
    assert_eq!(RunnerError::SenderUnavailable.message(), "runner websocket sender unavailable");
    assert_eq!(RunnerError::SenderClosed.message(), "failed to queue message to websocket writer");
    assert!(runner.outbox.is_empty());
    runner.sender = SenderState::Open;
    runner.handle_incoming_message(ToClient::Init { runner_id: "r".to_string() });
    assert_eq!(
        runner.outbox,
        vec![ToServer::Events(vec![
            intent("a", 1, 0, ActorIntent::Sleep),
            intent("a", 1, 1, ActorIntent::Stop),
        ])]
    );
}

#[test]
fn acknowledged_events_are_not_resent() {
    let mut runner = runner();
    with_actor(&mut runner, "a", 1, 0);
    with_actor(&mut runner, "b", 1, 0);
    for _ in 0..3 {
        runner.sleep_actor("a", None).unwrap();
    }
    runner.sleep_actor("b", None).unwrap();
    runner.outbox.clear();
    runner.handle_ack_events(&vec![checkpoint("a", 1, 1), checkpoint("a", 1, 2)]);
    assert_eq!(runner.resend_unacknowledged_events(), Ok(()));
    assert_eq!(
        runner.outbox,
        vec![ToServer::Events(vec![
            intent("a", 1, 2, ActorIntent::Sleep),
            intent("b", 1, 0, ActorIntent::Sleep),
        ])]
    );
}

#[test]
fn acknowledgement_of_another_generation_drops_nothing() {
    let mut runner = runner();
    with_actor(&mut runner, "a", 2, 0);
    runner.sleep_actor("a", None).unwrap();
    runner.handle_ack_events(&vec![checkpoint("a", 1, 100)]);
    assert_eq!(runner.actors.get("a").unwrap().event_history.len(), 1);
    runner.handle_ack_events(&vec![checkpoint("a", 2, 0)]);
    assert_eq!(runner.actors.get("a").unwrap().event_history.len(), 0);
    assert_eq!(runner.actors.get("a").unwrap().next_event_idx, 1);
}

#[test]
fn nothing_is_resent_where_nothing_is_pending() {
    let mut runner = runner();
    runner.sender = SenderState::Absent;
    assert_eq!(runner.resend_unacknowledged_events(), Ok(()));
    assert!(runner.outbox.is_empty());
}

#[test]
fn commands_are_acknowledged_for_actors_that_had_one() {
    let mut runner = runner();
    with_actor(&mut runner, "a", 1, 4);
    with_actor(&mut runner, "b", 2, -1);
    with_actor(&mut runner, "c", 3, 0);
    assert_eq!(runner.send_command_acknowledgement(), Ok(()));
    assert_eq!(
        runner.outbox,
        vec![ToServer::AckCommands {
            last_command_checkpoints: vec![checkpoint("a", 1, 4), checkpoint("c", 3, 0)],
        }]
    );
}

#[test]
fn acknowledgement_is_sent_without_actors_too() {
    let mut runner = runner();
    assert_eq!(runner.send_command_acknowledgement(), Ok(()));
    assert_eq!(runner.outbox, vec![ToServer::AckCommands { last_command_checkpoints: Vec::new() }]);
    runner.sender = SenderState::Closed;
    assert_eq!(runner.send_command_acknowledgement(), Err(RunnerError::SenderClosed));
}

#[test]
fn actors_are_looked_up() {
    let mut runner = runner();
    with_actor(&mut runner, "a", 1, 0);
    with_actor(&mut runner, "b", 2, 0);
    assert!(runner.has_actor("a", None));
    assert!(runner.has_actor("b", Some(2)));
    assert!(!runner.has_actor("b", Some(1)));
    assert!(!runner.has_actor("c", None));
    assert_eq!(runner.get_actor_ids(), vec!["a".to_string(), "b".to_string()]);
}
