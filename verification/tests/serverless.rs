use engine_runner::serverless::{
    available_init_packet, datacenter_listed, internal_error, resolve_datacenter_name, status_is_success, upsert_listed,
    upsert_responded, upsert_serverless_runner_config, UpsertAction, UpsertState,
};
use engine_runner::{RunnerError, ServerlessConfig, ServerlessConfigBuilder, ServerlessRunner};

fn minimal() -> ServerlessConfigBuilder {
    ServerlessConfig::builder().endpoint("http://engine//".to_string()).namespace("a b".to_string())
}

fn failure(action: UpsertAction) -> RunnerError {
    match action {
        UpsertAction::Fail(error) => error,
        _ => panic!("no failure"),
    }
}

fn parsed(text: &str) -> serde_json::Value {
    serde_json::from_str(text).unwrap()
}

#[test]
fn serverless_defaults() {
    let config = minimal().build_with(1).unwrap();
    assert_eq!(config.max_runners, 1000);
    assert_eq!(config.slots_per_runner, 1);
    assert_eq!(config.request_lifespan, 300);
    assert_eq!(config.runner.runner_key, "key-000000000001");
}

#[test]
fn serverless_settings_are_kept() {
    let config = minimal()
        .token("t".to_string())
        .runner_name("r".to_string())
        .runner_key("k".to_string())
        .version(2)
        .total_slots(3)
        .pegboard_endpoint("p".to_string())
        .metadata(serde_json::Value::Null)
        .prepopulate_actor_name("x".to_string(), serde_json::Value::Null)
        .max_runners(4)
        .slots_per_runner(5)
        .request_lifespan(6)
        .build()
        .unwrap();
    assert_eq!(config.runner.token, "t");
    assert_eq!(config.runner.runner_name, "r");
    assert_eq!(config.runner.runner_key, "k");
    assert_eq!(config.runner.version, 2);
    assert_eq!(config.runner.total_slots, 3);
    assert_eq!(config.runner.pegboard_endpoint, Some("p".to_string()));
    assert_eq!(config.runner.metadata, Some(serde_json::Value::Null));
    assert_eq!(config.runner.prepopulate_actor_names.len(), 1);
    assert_eq!((config.max_runners, config.slots_per_runner, config.request_lifespan), (4, 5, 6));
}

#[test]
fn serverless_config_needs_an_endpoint_and_a_namespace() {
    assert_eq!(ServerlessConfig::builder().build().err(), Some(RunnerError::EndpointRequired));
    let missing = ServerlessConfig::builder().endpoint("e".to_string()).build();
    assert_eq!(missing.err(), Some(RunnerError::NamespaceRequired));
}

#[test]
fn serverless_runner_needs_an_application() {
    let config = minimal().build().unwrap();
    let missing = ServerlessRunner::<u8>::builder(config.clone()).build().err().unwrap();
    assert_eq!(missing, RunnerError::ServerlessAppRequired);
    assert_eq!(missing.message(), "runner app is required; call ServerlessRunnerBuilder::app");
    let runner = ServerlessRunner::<u8>::builder(config).app(9).build().ok().unwrap();
    assert_eq!(runner.runner.app, 9);
    assert_eq!(runner.config.max_runners, 1000);
    assert_eq!(runner.runner.inner.config.namespace, "a b");
}

#[test]
fn addresses_are_trimmed_and_encoded() {
    let config = minimal().runner_name("r/1".to_string()).build().unwrap();
    assert_eq!(config.runner_config_url(), "http://engine/runner-configs/r%2F1?namespace=a%20b");
    assert_eq!(config.datacenters_url(), "http://engine/datacenters");
}

#[test]
fn config_body_nests_the_settings_under_the_datacenter() {
    let config = minimal().max_runners(2).slots_per_runner(3).request_lifespan(4).build().unwrap();
    let body = config.serverless_runner_config_body("https://me", "fra");
    let expected = "{\"datacenters\":{\"fra\":{\"serverless\":{\"url\":\"https://me\",\"max_runners\":2,\
        \"slots_per_runner\":3,\"request_lifespan\":4}}}}";
    assert_eq!(body, parsed(expected));
}

#[test]
fn metadata_lists_the_actor_names() {
    let config = minimal()
        .version(8)
        .prepopulate_actor_name("counter".to_string(), parsed("{\"a\":[1]}"))
        .prepopulate_actor_name("chat".to_string(), serde_json::Value::Null)
        .build()
        .unwrap();
    let expected = "{\"runtime\":\"rivetkit\",\"version\":\"1\",\
        \"actorNames\":{\"counter\":{\"a\":[1]},\"chat\":null},\"runner\":{\"version\":8}}";
    assert_eq!(config.serverless_metadata(), parsed(expected));
}

#[test]
fn first_datacenter_is_found() {
    let listing = "{\"datacenters\":[{\"name\":\"fra\"},{\"name\":\"ams\"}]}";
    assert_eq!(resolve_datacenter_name(200, &listing.as_bytes().to_vec()), Ok(Some("fra".to_string())));
    assert_eq!(datacenter_listed(299, Some(&parsed(listing))), Ok(Some("fra".to_string())));
}

#[test]
fn unexpected_listings_give_no_datacenter() {
    for text in [
        "[]",
        "{}",
        "{\"datacenters\":{}}",
        "{\"datacenters\":[]}",
        "{\"datacenters\":[{}]}",
        "{\"datacenters\":[{\"name\":7}]}",
        "{\"datacenters\":[\"fra\"]}",
    ] {
        assert_eq!(resolve_datacenter_name(200, &text.as_bytes().to_vec()), Ok(None));
        assert_eq!(datacenter_listed(200, Some(&parsed(text))), Ok(None));
    }
}

fn refused() -> UpsertState {
    UpsertState::Refused { status: "400 Bad Request".to_string(), body: "b".to_string() }
}

#[test]
fn configuring_begins_with_the_default_datacenter() {
    match upsert_serverless_runner_config() {
        (UpsertState::First, UpsertAction::Put { datacenter_name }) => assert_eq!(datacenter_name, "default"),
        _ => panic!("no request"),
    }
}

#[test]
fn response_for_the_default_datacenter_decides() {
    let respond = |code: u16, status: &str, body: &str| {
        upsert_responded(UpsertState::First, code, status.to_string(), body.to_string())
    };
    assert!(matches!(respond(200, "200 OK", "").1, UpsertAction::Done));
    assert!(matches!(respond(299, "299", "").1, UpsertAction::Done));
    match respond(400, "400 Bad Request", "b") {
        (UpsertState::Refused { status, body }, UpsertAction::List) => {
            assert_eq!(status, "400 Bad Request");
            assert_eq!(body, "b");
        }
        _ => panic!("no listing"),
    }
    assert_eq!(
        failure(respond(500, "500 Internal Server Error", "oops").1).message(),
        "serverless runner config upsert failed: 500 Internal Server Error oops"
    );
    assert!(!status_is_success(199));
    assert!(!status_is_success(300));
}

#[test]
fn listing_leads_to_another_attempt_or_the_first_refusal() {
    match upsert_listed(refused(), Some("fra".to_string())) {
        (UpsertState::Retried, UpsertAction::Put { datacenter_name }) => assert_eq!(datacenter_name, "fra"),
        _ => panic!("no request"),
    }
    let stands = RunnerError::UpsertFailed { status: "400 Bad Request".to_string(), body: "b".to_string() };
    assert_eq!(failure(upsert_listed(refused(), Some("default".to_string())).1), stands);
    assert_eq!(failure(upsert_listed(refused(), None).1), stands);
}

#[test]
fn second_attempt_is_the_last() {
    let respond = |code: u16| {
        upsert_responded(UpsertState::Retried, code, "status".to_string(), "c".to_string()).1
    };
    assert!(matches!(respond(204), UpsertAction::Done));
    assert_eq!(
        failure(respond(400)),
        RunnerError::UpsertFailed { status: "status".to_string(), body: "c".to_string() }
    );
}

#[test]
fn missing_packet_is_an_internal_error() {
    assert_eq!(available_init_packet(Some("p".to_string())), Ok("p".to_string()));
    let missing = available_init_packet(None).unwrap_err();
    assert_eq!(internal_error(&missing), (500, "runner init packet unavailable".to_string()));
}

#[test]
fn refused_listing_gives_no_datacenter() {
    let listing = b"{\"datacenters\":[{\"name\":\"fra\"}]}".to_vec();
    for code in [199u16, 300, 404, 500] {
        assert_eq!(resolve_datacenter_name(code, &listing), Ok(None));
        assert_eq!(resolve_datacenter_name(code, &b"no json".to_vec()), Ok(None));
        assert_eq!(datacenter_listed(code, None), Ok(None));
    }
}

#[test]
fn undecodable_listing_is_an_error() {
    let failed = resolve_datacenter_name(200, &b"{".to_vec()).unwrap_err();
    assert_eq!(failed, RunnerError::DatacentersUndecodable);
    assert_eq!(failed.message(), "failed to decode datacenters response");
    assert_eq!(resolve_datacenter_name(200, &Vec::new()), Err(RunnerError::DatacentersUndecodable));
    assert_eq!(datacenter_listed(200, None), Err(RunnerError::DatacentersUndecodable));
}

#[test]
fn metadata_without_actor_names_holds_an_empty_object() {
    let config = minimal().build().unwrap();
    assert_eq!(config.serverless_metadata().get("actorNames"), Some(&parsed("{}")));
}
