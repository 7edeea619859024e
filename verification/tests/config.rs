use engine_runner::protocol::ToServer;
use engine_runner::{RunnerConfig, RunnerConfigBuilder, RunnerError};

fn minimal() -> RunnerConfigBuilder {
    RunnerConfig::builder().endpoint("http://engine:6420/".to_string()).namespace("default".to_string())
}

fn ready() -> RunnerConfig {
    minimal().runner_key("k".to_string()).build().unwrap()
}

#[test]
fn defaults_fill_in_what_was_not_set() {
    let config = minimal().build_with(255).unwrap();
    assert_eq!(config.endpoint, "http://engine:6420/");
    assert_eq!(config.token, "dev");
    assert_eq!(config.namespace, "default");
    assert_eq!(config.runner_name, "engine-runner");
    assert_eq!(config.runner_key, "key-0000000000ff");
    assert_eq!(config.version, 1);
    assert_eq!(config.total_slots, 100);
    assert_eq!(config.pegboard_endpoint, None);
    assert_eq!(config.prepopulate_actor_names.len(), 0);
    assert!(config.metadata.is_none());
}

#[test]
fn long_drawn_keys_are_not_cut() {
    let config = minimal().build_with(u64::MAX).unwrap();
    assert_eq!(config.runner_key, "key-ffffffffffffffff");
}

#[test]
fn drawn_key_has_at_least_twelve_digits() {
    let config = minimal().build().unwrap();
    assert!(config.runner_key.starts_with("key-"));
    assert!(config.runner_key.len() >= 16);
    assert!(config.runner_key[4..].chars().all(|ch| ch.is_ascii_hexdigit()));
}

#[test]
fn settings_are_kept() {
    let config = minimal()
        .token("secret".to_string())
        .runner_name("r".to_string())
        .runner_key("fixed".to_string())
        .version(7)
        .total_slots(3)
        .pegboard_endpoint("https://peg".to_string())
        .build()
        .unwrap();
    assert_eq!(config.token, "secret");
    assert_eq!(config.runner_name, "r");
    assert_eq!(config.runner_key, "fixed");
    assert_eq!(config.version, 7);
    assert_eq!(config.total_slots, 3);
    assert_eq!(config.pegboard_endpoint, Some("https://peg".to_string()));
}

#[test]
fn endpoint_is_required_first() {
    let missing_both = RunnerConfig::builder().build();
    assert_eq!(missing_both.err(), Some(RunnerError::EndpointRequired));
    let missing_namespace = RunnerConfig::builder().endpoint("e".to_string()).build();
    assert_eq!(missing_namespace.err(), Some(RunnerError::NamespaceRequired));
    assert_eq!(RunnerError::EndpointRequired.message(), "endpoint is required");
    assert_eq!(RunnerError::NamespaceRequired.message(), "namespace is required");
}

#[test]
fn websocket_address_names_the_runner() {
    let config = ready();
    assert_eq!(
        config.build_ws_url(4),
        "ws://engine:6420/runners/connect?protocol_version=4&namespace=default&runner_key=k"
    );
}

#[test]
fn websocket_address_prefers_the_pegboard_endpoint_and_encodes() {
    let config = RunnerConfig::builder()
        .endpoint("http://engine".to_string())
        .namespace("a b/\u{e9}".to_string())
        .runner_key("x&y=~z".to_string())
        .pegboard_endpoint("https://peg.example//".to_string())
        .build()
        .unwrap();
    assert_eq!(
        config.build_ws_url(12),
        "wss://peg.example/runners/connect?protocol_version=12&namespace=a%20b%2F%C3%A9&runner_key=x%26y%3D~z"
    );
}

#[test]
fn protocol_header_carries_the_token() {
    assert_eq!(ready().websocket_protocol_header().unwrap(), "rivet, rivet_token.dev");
    let broken = minimal().token("a\nb".to_string()).build().unwrap();
    assert_eq!(broken.websocket_protocol_header(), Err(RunnerError::InvalidProtocolHeader));
    let tab = minimal().token("a\tb".to_string()).build().unwrap();
    assert_eq!(tab.websocket_protocol_header().unwrap(), "rivet, rivet_token.a\tb");
}

#[test]
fn greeting_without_names_and_metadata() {
    assert_eq!(
        ready().build_init_message(),
        ToServer::Init {
            name: "engine-runner".to_string(),
            version: 1,
            total_slots: 100,
            prepopulate_actor_names: None,
            metadata: None,
        }
    );
}

#[test]
fn greeting_writes_names_and_metadata_as_json() {
    let mut member = serde_json::Map::new();
    member.insert("a".to_string(), serde_json::Value::from(1));
    let config = minimal()
        .prepopulate_actor_name("counter".to_string(), serde_json::Value::from("old"))
        .prepopulate_actor_name("chat".to_string(), serde_json::Value::Null)
        .prepopulate_actor_name("counter".to_string(), serde_json::Value::Object(member))
        .metadata(serde_json::Value::from(true))
        .build()
        .unwrap();
    assert_eq!(
        config.build_init_message(),
        ToServer::Init {
            name: "engine-runner".to_string(),
            version: 1,
            total_slots: 100,
            prepopulate_actor_names: Some(vec![
                ("counter".to_string(), "{\"a\":1}".to_string()),
                ("chat".to_string(), "null".to_string()),
            ]),
            metadata: Some("true".to_string()),
        }
    );
}

#[test]
fn greeting_leaves_out_an_empty_list_of_names() {
    let config = ready();
    match config.greeting_with(Vec::new(), Some("{}".to_string())) {
        ToServer::Init { prepopulate_actor_names, metadata, .. } => {
            assert_eq!(prepopulate_actor_names, None);
            assert_eq!(metadata, Some("{}".to_string()));
        }
        _ => panic!("no greeting"),
    }
}

#[test]
fn announcement_defaults_to_no_metadata() {
    assert_eq!(engine_runner::PrepopulateActorName::default().metadata, serde_json::Value::Null);
}
