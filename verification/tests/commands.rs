use engine_runner::actions::{ActorStartEnd, ActorWait, CommandAction};
use engine_runner::protocol::{
    ActorCheckpoint, ActorState, Command, CommandStartActor, CommandWrapper, Event, EventWrapper, StopCode, ToServer,
};
use engine_runner::runtime::{SenderState, WebSocketRuntimeState};
use engine_runner::tunnel::TunnelRequestKey;
use engine_runner::{
    ActorConfig, ActorContext, ActorLifecycleEvent, HibernatingRequest, RunnerConfig, RunnerError, RunnerInner,
};

fn runner() -> RunnerInner {
    let config = RunnerConfig::builder()
        .endpoint("http://engine".to_string())
        .namespace("n".to_string())
        .runner_key("k".to_string())
        .build()
        .unwrap();
    let mut runner = RunnerInner::new(config);
    runner.sender = SenderState::Open;
    runner
}

fn actor_config() -> ActorConfig {
    ActorConfig { name: "counter".to_string(), key: Some("key".to_string()), create_ts: 5, input: Some(vec![1, 2]) }
}

fn checkpoint(generation: u32) -> ActorCheckpoint {
    ActorCheckpoint { actor_id: "a".to_string(), generation, index: 7 }
}

fn start(generation: u32) -> CommandWrapper {
    CommandWrapper {
        checkpoint: checkpoint(generation),
        inner: Command::StartActor(CommandStartActor {
            config: actor_config(),
            hibernating_requests: vec![HibernatingRequest { gateway_id: [1; 4], request_id: [2; 4] }],
        }),
    }
}

fn context(generation: u32) -> ActorContext {
    ActorContext {
        actor_id: "a".to_string(),
        generation,
        actor_name: "counter".to_string(),
        config: actor_config(),
        hibernating_requests: vec![HibernatingRequest { gateway_id: [1; 4], request_id: [2; 4] }],
    }
}

fn websocket_of(actor_id: &str) -> WebSocketRuntimeState {
    WebSocketRuntimeState {
        actor_id: actor_id.to_string(),
        generation: 1,
        actor_name: "counter".to_string(),
        path: "/".to_string(),
        headers: Vec::new(),
        is_hibernatable: false,
        is_restoring_hibernatable: false,
        server_message_index: 0,
    }
}

fn key(number: u8) -> TunnelRequestKey {
    TunnelRequestKey { gateway_id: [0, 0, 0, number], request_id: [9; 4] }
}

fn state_update(generation: u32, index: i64, state: ActorState) -> ToServer {
    ToServer::Events(vec![EventWrapper {
        checkpoint: ActorCheckpoint { actor_id: "a".to_string(), generation, index },
        inner: Event::StateUpdate(state),
    }])
}

#[test]
fn started_actor_is_up_after_its_callback() {
    let mut runner = runner();
    assert_eq!(runner.wait_for_actor_started("a"), ActorWait::Absent);
    assert_eq!(runner.handle_command(start(1), 40), Ok(CommandAction::Start(context(1))));
    assert_eq!(runner.wait_for_actor_started("a"), ActorWait::Waiting { start_notify: 40 });
    assert_eq!(
        runner.finish_actor_start("a", 1, Ok(())),
        ActorStartEnd::Running { start_notify: 40, reported: Ok(()) }
    );
    assert_eq!(
        runner.wait_for_actor_started("a"),
        ActorWait::Up { generation: 1, config: actor_config() }
    );
    assert_eq!(runner.outbox, vec![state_update(1, 0, ActorState::Running)]);
    assert_eq!(
        runner.lifecycle,
        vec![ActorLifecycleEvent::Started { actor_id: "a".to_string(), generation: 1 }]
    );
}

#[test]
fn running_is_announced_even_if_it_cannot_be_reported() {
    let mut runner = runner();
    runner.handle_command(start(1), 1).unwrap();
    runner.sender = SenderState::Absent;
    assert_eq!(
        runner.finish_actor_start("a", 1, Ok(())),
        ActorStartEnd::Running { start_notify: 1, reported: Err(RunnerError::SenderUnavailable) }
    );
    assert_eq!(runner.lifecycle.len(), 1);
    assert_eq!(runner.actors.get("a").unwrap().event_history.len(), 1);
}

#[test]
fn late_callback_of_a_replaced_actor_changes_nothing() {
    let mut runner = runner();
    runner.handle_command(start(1), 1).unwrap();
    runner.handle_command(start(2), 2).unwrap();
    assert_eq!(
        runner.finish_actor_start("a", 1, Ok(())),
        ActorStartEnd::Unmarked(RunnerError::GenerationMismatch)
    );
    assert_eq!(RunnerError::GenerationMismatch.message(), "actor generation mismatch");
    assert_eq!(runner.wait_for_actor_started("a"), ActorWait::Waiting { start_notify: 2 });
    assert!(runner.outbox.is_empty());
    assert!(runner.lifecycle.is_empty());
    assert_eq!(
        runner.finish_actor_start("b", 1, Ok(())),
        ActorStartEnd::Unmarked(RunnerError::ActorNotFound { actor_id: "b".to_string() })
    );
}

#[test]
fn failed_start_is_reported_and_forgotten() {
    let mut runner = runner();
    runner.handle_command(start(1), 1).unwrap();
    runner.websockets.insert(key(1), websocket_of("a"));
    runner.websockets.insert(key(2), websocket_of("b"));
    assert_eq!(runner.finish_actor_start("a", 1, Err("boom".to_string())), ActorStartEnd::Abandoned);
    assert_eq!(
        runner.outbox,
        vec![state_update(
            1,
            0,
            ActorState::Stopped { code: StopCode::Error, message: Some("boom".to_string()) }
        )]
    );
    assert_eq!(runner.wait_for_actor_started("a"), ActorWait::Absent);
    assert!(runner.websockets.get(&key(1)).is_none());
    assert!(runner.websockets.get(&key(2)).is_some());
    assert!(runner.lifecycle.is_empty());
}

#[test]
fn stopped_actor_is_gone_with_its_websockets() {
    let mut runner = runner();
    runner.handle_command(start(1), 1).unwrap();
    runner.websockets.insert(key(1), websocket_of("a"));
    runner.websockets.insert(key(2), websocket_of("b"));
    runner.websockets.insert(key(3), websocket_of("a"));
    let stop = CommandWrapper { checkpoint: checkpoint(1), inner: Command::StopActor };
    assert_eq!(runner.handle_command(stop, 2), Ok(CommandAction::Stop(context(1))));
    assert_eq!(runner.finish_actor_stop("a", 1, true), Ok(()));
    assert_eq!(
        runner.outbox,
        vec![state_update(1, 0, ActorState::Stopped { code: StopCode::Success, message: None })]
    );
    assert!(!runner.has_actor("a", None));
    assert!(runner.websockets.get(&key(1)).is_none());
    assert!(runner.websockets.get(&key(2)).is_some());
    assert!(runner.websockets.get(&key(3)).is_none());
    assert_eq!(
        runner.lifecycle,
        vec![ActorLifecycleEvent::Stopped { actor_id: "a".to_string(), generation: 1 }]
    );
}

#[test]
fn stop_uses_the_generation_of_the_command() {
    let mut runner = runner();
    runner.handle_command(start(1), 1).unwrap();
    let stop = CommandWrapper { checkpoint: checkpoint(9), inner: Command::StopActor };
    assert_eq!(runner.handle_command(stop, 2), Ok(CommandAction::Stop(context(9))));
    assert_eq!(runner.actors.get("a").unwrap().last_command_idx, 7);
}

#[test]
fn stop_of_an_unknown_actor_fails() {
    let mut runner = runner();
    let stop = CommandWrapper { checkpoint: checkpoint(1), inner: Command::StopActor };
    assert_eq!(
        runner.handle_command(stop, 1),
        Err(RunnerError::ActorNotFound { actor_id: "a".to_string() })
    );
}

#[test]
fn actor_stays_where_its_stop_cannot_be_completed() {
    let mut runner = runner();
    runner.handle_command(start(1), 1).unwrap();
    let failed = runner.finish_actor_stop("a", 1, false).unwrap_err();
    assert_eq!(failed, RunnerError::ActorStopCallbackFailed);
    assert_eq!(failed.message(), "actor stop callback failed");
    assert!(runner.has_actor("a", None));
    assert!(runner.outbox.is_empty());
    runner.sender = SenderState::Closed;
    assert_eq!(runner.finish_actor_stop("a", 1, true), Err(RunnerError::SenderClosed));
    assert!(runner.has_actor("a", None));
    assert!(runner.lifecycle.is_empty());
}

#[test]
fn restarted_actor_begins_afresh() {
    let mut runner = runner();
    runner.handle_command(start(1), 1).unwrap();
    runner.finish_actor_start("a", 1, Ok(()));
    assert_eq!(runner.actors.get("a").unwrap().next_event_idx, 1);
    runner.handle_command(start(2), 2).unwrap();
    let actor = runner.actors.get("a").unwrap();
    assert_eq!(actor.generation, 2);
    assert_eq!(actor.next_event_idx, 0);
    assert!(actor.event_history.is_empty());
    assert!(!actor.started);
    assert_eq!(runner.get_actor_ids(), vec!["a".to_string()]);
}

#[test]
fn commands_are_taken_up_in_order() {
    let mut runner = runner();
    let stop = CommandWrapper { checkpoint: checkpoint(1), inner: Command::StopActor };
    let mut commands = vec![start(1), stop];
    assert_eq!(
        runner.handle_commands(&mut commands, 1),
        Some(Ok(CommandAction::Start(context(1))))
    );
    assert_eq!(runner.handle_commands(&mut commands, 2), Some(Ok(CommandAction::Stop(context(1)))));
    assert!(commands.is_empty());
    assert_eq!(runner.handle_commands(&mut commands, 3), None);
}

#[test]
fn commands_after_a_failing_one_are_dropped() {
    let mut runner = runner();
    let stop = || CommandWrapper { checkpoint: checkpoint(1), inner: Command::StopActor };
    let mut commands = vec![stop(), start(1)];
    assert_eq!(
        runner.handle_commands(&mut commands, 1),
        Some(Err(RunnerError::ActorNotFound { actor_id: "a".to_string() }))
    );
    assert!(commands.is_empty());
    assert_eq!(runner.handle_commands(&mut commands, 2), None);
    assert!(!runner.has_actor("a", None));
}

#[test]
fn commands_after_a_failed_stop_are_dropped() {
    let mut runner = runner();
    let stop = || CommandWrapper { checkpoint: checkpoint(1), inner: Command::StopActor };
    let mut commands = vec![start(1), stop(), start(2)];
    runner.handle_commands(&mut commands, 1);
    runner.handle_commands(&mut commands, 2);
    assert_eq!(
        runner.finish_commanded_stop(&mut commands, "a", 1, false),
        Err(RunnerError::ActorStopCallbackFailed)
    );
    assert!(commands.is_empty());
    commands.push(start(2));
    assert_eq!(runner.finish_commanded_stop(&mut commands, "a", 1, true), Ok(()));
    assert_eq!(commands.len(), 1);
}
