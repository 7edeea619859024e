use engine_runner::actions::IncomingAction;
use engine_runner::kv::{
    kv_delete_result, kv_drop_result, kv_get_result, kv_list_result, kv_put_result, kv_response, kv_u64_entries,
    kv_u64_result, KvReply,
};
use engine_runner::protocol::{KvListQuery, KvRequestData, KvResponseData, ToClient, ToServer};
use engine_runner::runtime::SenderState;
use engine_runner::{KvOperation, RunnerConfig, RunnerError, RunnerInner};

fn runner() -> RunnerInner {
    let config = RunnerConfig::builder()
        .endpoint("http://engine".to_string())
        .namespace("n".to_string())
        .runner_key("k".to_string())
        .build()
        .unwrap();
    let mut runner = RunnerInner::new(config);
    runner.sender = SenderState::Open;
    runner
}

fn request(request_id: u32, data: KvRequestData) -> ToServer {
    ToServer::KvRequest { actor_id: "a".to_string(), request_id, data }
}

fn failure() -> KvResponseData {
    KvResponseData::Error { message: "full".to_string() }
}

#[test]
fn requests_are_numbered_and_sent() {
    let mut runner = runner();
    let key = vec![1u8, 2];
    assert_eq!(runner.kv_get("a", vec![key.clone()]), Ok(0));
    assert_eq!(runner.kv_list_all("a", Some(true), Some(5)), Ok(1));
    assert_eq!(runner.kv_list_prefix("a", key.clone(), None, None), Ok(2));
    assert_eq!(runner.kv_list_range("a", vec![1], vec![9], true, None, Some(1)), Ok(3));
    assert_eq!(runner.kv_put("a", vec![(vec![1], vec![2]), (vec![3], vec![4])]), Ok(4));
    assert_eq!(runner.kv_delete("a", vec![key.clone()]), Ok(5));
    assert_eq!(runner.kv_drop("a"), Ok(6));
    assert_eq!(
        runner.outbox,
        vec![
            request(0, KvRequestData::Get { keys: vec![key.clone()] }),
            request(1, KvRequestData::List { query: KvListQuery::All, reverse: Some(true), limit: Some(5) }),
            request(
                2,
                KvRequestData::List {
                    query: KvListQuery::Prefix { key: key.clone() },
                    reverse: None,
                    limit: None,
                }
            ),
            request(
                3,
                KvRequestData::List {
                    query: KvListQuery::Range { start: vec![1], end: vec![9], exclusive: true },
                    reverse: None,
                    limit: Some(1),
                }
            ),
            request(4, KvRequestData::Put { keys: vec![vec![1], vec![3]], values: vec![vec![2], vec![4]] }),
            request(5, KvRequestData::Delete { keys: vec![key] }),
            request(6, KvRequestData::Drop),
        ]
    );
}

#[test]
fn request_numbers_wrap_around() {
    let mut runner = runner();
    runner.next_kv_request_id = u32::MAX;
    assert_eq!(runner.kv_drop("a"), Ok(u32::MAX));
    assert_eq!(runner.kv_drop("a"), Ok(0));
}

#[test]
fn unsent_request_stays_pending() {
    let mut runner = runner();
    runner.sender = SenderState::Absent;
    assert_eq!(runner.kv_drop("a"), Err(RunnerError::SenderUnavailable));
    assert!(runner.pending_kv_requests.contains(&0));
    assert_eq!(runner.next_kv_request_id, 1);
}

#[test]
fn reply_reaches_its_request_once() {
    let mut runner = runner();
    runner.kv_drop("a").unwrap();
    let reply = || ToClient::KvResponse { request_id: 0, data: KvResponseData::Drop };
    assert_eq!(
        runner.handle_incoming_message(reply()),
        IncomingAction::KvReply { request_id: 0, data: KvResponseData::Drop }
    );
    assert_eq!(runner.handle_incoming_message(reply()), IncomingAction::Nothing);
    assert_eq!(runner.handle_kv_response(77, KvResponseData::Put), None);
}

#[test]
fn missing_replies_are_told_apart() {
    assert_eq!(kv_response(KvReply::Response(KvResponseData::Put)), Ok(KvResponseData::Put));
    let timed_out = kv_response(KvReply::TimedOut).unwrap_err();
    assert_eq!(timed_out.message(), "timed out waiting for kv response");
    let closed = kv_response(KvReply::ChannelClosed).unwrap_err();
    assert_eq!(closed.message(), "kv response channel closed");
}

#[test]
fn values_are_matched_to_the_requested_keys() {
    let response = KvResponseData::Get {
        keys: vec![vec![1], vec![2], vec![1], vec![3]],
        values: vec![vec![10], vec![20], vec![11]],
    };
    let requested = vec![vec![2], vec![1], vec![9], vec![3]];
    assert_eq!(
        kv_get_result(&requested, response),
        Ok(vec![Some(vec![20]), Some(vec![10]), None, None])
    );
}

#[test]
fn listed_keys_and_values_are_paired() {
    let response = KvResponseData::List { keys: vec![vec![1], vec![2], vec![3]], values: vec![vec![4], vec![5]] };
    assert_eq!(kv_list_result(response), Ok(vec![(vec![1], vec![4]), (vec![2], vec![5])]));
}

#[test]
fn operations_without_a_result_succeed() {
    assert_eq!(kv_put_result(KvResponseData::Put), Ok(()));
    assert_eq!(kv_delete_result(KvResponseData::Delete), Ok(()));
    assert_eq!(kv_drop_result(KvResponseData::Drop), Ok(()));
}

#[test]
fn failures_of_the_store_name_the_operation() {
    assert_eq!(kv_get_result(&Vec::new(), failure()).unwrap_err().message(), "kv get failed: full");
    assert_eq!(kv_list_result(failure()).unwrap_err().message(), "kv list failed: full");
    assert_eq!(kv_put_result(failure()).unwrap_err().message(), "kv put failed: full");
    assert_eq!(kv_delete_result(failure()).unwrap_err().message(), "kv delete failed: full");
    assert_eq!(kv_drop_result(failure()).unwrap_err().message(), "kv drop failed: full");
}

#[test]
fn replies_to_another_operation_are_refused() {
    assert_eq!(
        kv_put_result(KvResponseData::Delete),
        Err(RunnerError::UnexpectedKvResponse {
            operation: KvOperation::Put,
            response: KvResponseData::Delete,
        })
    );
    assert_eq!(kv_get_result(&Vec::new(), KvResponseData::Put).unwrap_err().message(), "unexpected kv get response: KvPutResponse");
    assert_eq!(kv_list_result(KvResponseData::Put).unwrap_err().message(), "unexpected kv list response: KvPutResponse");
    assert_eq!(kv_delete_result(KvResponseData::Put).unwrap_err().message(), "unexpected kv delete response: KvPutResponse");
    assert_eq!(kv_drop_result(KvResponseData::Put).unwrap_err().message(), "unexpected kv drop response: KvPutResponse");
}

#[test]
fn numbers_are_written_lowest_byte_first() {
    assert_eq!(
        kv_u64_entries(vec![7], 0x0102030405060708),
        vec![(vec![7], vec![8, 7, 6, 5, 4, 3, 2, 1])]
    );
}

#[test]
fn written_number_is_read_back() {
    for number in [0u64, 1, 256, 0xfedcba9876543210, u64::MAX] {
        let entries = kv_u64_entries(vec![1], number);
        let reply = KvResponseData::Get { keys: vec![entries[0].0.clone()], values: vec![entries[0].1.clone()] };
        let values = kv_get_result(&vec![vec![1]], reply).unwrap();
        assert_eq!(kv_u64_result(values), Ok(Some(number)));
    }
}

#[test]
fn only_eight_bytes_are_a_number() {
    assert_eq!(kv_u64_result(Vec::new()), Ok(None));
    assert_eq!(kv_u64_result(vec![None, Some(vec![0; 8])]), Ok(None));
    let short = kv_u64_result(vec![Some(vec![1, 2, 3])]).unwrap_err();
    assert_eq!(short, RunnerError::KvValueLength { length: 3 });
    assert_eq!(short.message(), "expected u64 value to be 8 bytes, got 3");
}

#[test]
fn written_entries_are_listed_back() {
    let mut runner = runner();
    let entries = vec![(vec![1], vec![2]), (vec![1], vec![3]), (Vec::new(), vec![4])];
    runner.kv_put("a", entries.clone()).unwrap();
    match runner.outbox.pop() {
        Some(ToServer::KvRequest { data: KvRequestData::Put { keys, values }, .. }) => {
            assert_eq!(kv_list_result(KvResponseData::List { keys, values }), Ok(entries));
        }
        _ => panic!("nothing was written"),
    }
}

#[test]
fn unexpected_reply_is_written_out() {
    let reply = KvResponseData::Get { keys: vec![vec![1, 20], Vec::new()], values: vec![vec![255]] };
    assert_eq!(
        kv_put_result(reply).unwrap_err().message(),
        "unexpected kv put response: KvGetResponse(KvGetResponse { keys: [[1, 20], []], values: [[255]] })"
    );
    let reply = KvResponseData::List { keys: Vec::new(), values: Vec::new() };
    assert_eq!(
        kv_drop_result(reply).unwrap_err().message(),
        "unexpected kv drop response: KvListResponse(KvListResponse { keys: [], values: [] })"
    );
}
