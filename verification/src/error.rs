//! What can go wrong.

use crate::protocol::{KvResponseData, KvResponseDataView};
use crate::text::{byte_runs_listed, decimal, decimal_text, join, list_byte_runs};
use vstd::prelude::*;
use vstd::string::StringExecFns;

verus! {

/// An operation on the key-value store.
#[derive(Clone, Copy, Debug, PartialEq, Eq, Structural)]
pub enum KvOperation {
    Get,
    List,
    Put,
    Delete,
    Drop,
}

/// Why a runner operation failed.
#[derive(Clone, Debug, PartialEq, Eq)]
pub enum RunnerError {
    EndpointRequired,
    NamespaceRequired,
    RunnerAppRequired,
    ServerlessAppRequired,
    AlreadyStarted,
    ActorNotFound { actor_id: String },
    GenerationMismatch,
    GenerationExpected { expected: u32, got: u32 },
    AlreadyRestored { actor_id: String },
    SenderUnavailable,
    SenderClosed,
    InvalidProtocolHeader,
    InvalidMethod,
    InvalidUri,
    InvalidHeader { message: String },
    KvFailed { operation: KvOperation, message: String },
    UnexpectedKvResponse { operation: KvOperation, response: KvResponseData },
    KvTimedOut,
    KvChannelClosed,
    KvValueLength { length: usize },
    ActorStopCallbackFailed,
    WebSocketCallbackFailed { message: String },
    WebSocketCloseCallbackFailed,
    StaleWebSocketCloseCallbackFailed,
    ConnectedCallbackFailed,
    ShutdownCallbackFailed,
    ActorNotRegistered { actor_name: String },
    InitPacketUnavailable,
    DatacentersUndecodable,
    UpsertFailed { status: String, body: String },
}

/// The contents of a [`RunnerError`].
#[verifier::ext_equal]
pub enum RunnerErrorView {
    EndpointRequired,
    NamespaceRequired,
    RunnerAppRequired,
    ServerlessAppRequired,
    AlreadyStarted,
    ActorNotFound { actor_id: Seq<char> },
    GenerationMismatch,
    GenerationExpected { expected: u32, got: u32 },
    AlreadyRestored { actor_id: Seq<char> },
    SenderUnavailable,
    SenderClosed,
    InvalidProtocolHeader,
    InvalidMethod,
    InvalidUri,
    InvalidHeader { message: Seq<char> },
    KvFailed { operation: KvOperation, message: Seq<char> },
    UnexpectedKvResponse { operation: KvOperation, response: KvResponseDataView },
    KvTimedOut,
    KvChannelClosed,
    KvValueLength { length: usize },
    ActorStopCallbackFailed,
    WebSocketCallbackFailed { message: Seq<char> },
    WebSocketCloseCallbackFailed,
    StaleWebSocketCloseCallbackFailed,
    ConnectedCallbackFailed,
    ShutdownCallbackFailed,
    ActorNotRegistered { actor_name: Seq<char> },
    InitPacketUnavailable,
    DatacentersUndecodable,
    UpsertFailed { status: Seq<char>, body: Seq<char> },
}

impl DeepView for RunnerError {
    type V = RunnerErrorView;

    open spec fn deep_view(&self) -> RunnerErrorView {
        match self {
            RunnerError::EndpointRequired => RunnerErrorView::EndpointRequired,
            RunnerError::NamespaceRequired => RunnerErrorView::NamespaceRequired,
            RunnerError::RunnerAppRequired => RunnerErrorView::RunnerAppRequired,
            RunnerError::ServerlessAppRequired => RunnerErrorView::ServerlessAppRequired,
            RunnerError::AlreadyStarted => RunnerErrorView::AlreadyStarted,
            RunnerError::ActorNotFound { actor_id } => RunnerErrorView::ActorNotFound {
                actor_id: actor_id.deep_view(),
            },
            RunnerError::GenerationMismatch => RunnerErrorView::GenerationMismatch,
            RunnerError::GenerationExpected { expected, got } => RunnerErrorView::GenerationExpected {
                expected: *expected,
                got: *got,
            },
            RunnerError::AlreadyRestored { actor_id } => RunnerErrorView::AlreadyRestored {
                actor_id: actor_id.deep_view(),
            },
            RunnerError::SenderUnavailable => RunnerErrorView::SenderUnavailable,
            RunnerError::SenderClosed => RunnerErrorView::SenderClosed,
            RunnerError::InvalidProtocolHeader => RunnerErrorView::InvalidProtocolHeader,
            RunnerError::InvalidMethod => RunnerErrorView::InvalidMethod,
            RunnerError::InvalidUri => RunnerErrorView::InvalidUri,
            RunnerError::InvalidHeader { message } => RunnerErrorView::InvalidHeader { message: message.deep_view() },
            RunnerError::KvFailed { operation, message } => RunnerErrorView::KvFailed {
                operation: *operation,
                message: message.deep_view(),
            },
            RunnerError::UnexpectedKvResponse { operation, response } => RunnerErrorView::UnexpectedKvResponse {
                operation: *operation,
                response: response.deep_view(),
            },
            RunnerError::KvTimedOut => RunnerErrorView::KvTimedOut,
            RunnerError::KvChannelClosed => RunnerErrorView::KvChannelClosed,
            RunnerError::KvValueLength { length } => RunnerErrorView::KvValueLength {
                length: *length,
            },
            RunnerError::ActorStopCallbackFailed => RunnerErrorView::ActorStopCallbackFailed,
            RunnerError::WebSocketCallbackFailed { message } => RunnerErrorView::WebSocketCallbackFailed {
                message: message.deep_view(),
            },
            RunnerError::WebSocketCloseCallbackFailed => RunnerErrorView::WebSocketCloseCallbackFailed,
            RunnerError::StaleWebSocketCloseCallbackFailed => RunnerErrorView::StaleWebSocketCloseCallbackFailed,
            RunnerError::ConnectedCallbackFailed => RunnerErrorView::ConnectedCallbackFailed,
            RunnerError::ShutdownCallbackFailed => RunnerErrorView::ShutdownCallbackFailed,
            RunnerError::ActorNotRegistered { actor_name } => RunnerErrorView::ActorNotRegistered {
                actor_name: actor_name.deep_view(),
            },
            RunnerError::InitPacketUnavailable => RunnerErrorView::InitPacketUnavailable,
            RunnerError::DatacentersUndecodable => RunnerErrorView::DatacentersUndecodable,
            RunnerError::UpsertFailed { status, body } => RunnerErrorView::UpsertFailed {
                status: status.deep_view(),
                body: body.deep_view(),
            },
        }
    }
}

/// The contents of the outcome of an operation.
pub open spec fn outcome<T: DeepView>(result: Result<T, RunnerError>) -> Result<T::V, RunnerErrorView> {
    match result {
        Ok(value) => Ok(value.deep_view()),
        Err(error) => Err(error.deep_view()),
    }
}

/// The name of an operation.
pub open spec fn operation_name(operation: KvOperation) -> Seq<char> {
    match operation {
        KvOperation::Get => "get"@,
        KvOperation::List => "list"@,
        KvOperation::Put => "put"@,
        KvOperation::Delete => "delete"@,
        KvOperation::Drop => "drop"@,
    }
}

/// Keys and values as they stand in a reply.
pub open spec fn entries_text(keys: Seq<Seq<u8>>, values: Seq<Seq<u8>>) -> Seq<char> {
    "{ keys: "@ + byte_runs_listed(keys) + ", values: "@ + byte_runs_listed(values) + " }"@
}

/// A reply of the store, written out: what kind of reply it is, and what it holds.
pub open spec fn reply_text(response: KvResponseDataView) -> Seq<char> {
    match response {
        KvResponseDataView::Error { message } => "KvErrorResponse(KvErrorResponse { message: \""@ + message + "\" })"@,
        KvResponseDataView::Get { keys, values } => "KvGetResponse(KvGetResponse "@ + entries_text(keys, values) + ")"@,
        KvResponseDataView::List { keys, values } => "KvListResponse(KvListResponse "@ + entries_text(keys, values)
            + ")"@,
        KvResponseDataView::Put => "KvPutResponse"@,
        KvResponseDataView::Delete => "KvDeleteResponse"@,
        KvResponseDataView::Drop => "KvDropResponse"@,
    }
}

fn write_entries(keys: &Vec<Vec<u8>>, values: &Vec<Vec<u8>>) -> (text: String)
    ensures
        text@ == entries_text(keys.deep_view(), values.deep_view()),
{
    let keys_text = list_byte_runs(keys);
    let values_text = list_byte_runs(values);
    sentence("{ keys: ", keys_text.as_str(), ", values: ", values_text.as_str()).concat(" }")
}

fn write_reply(response: &KvResponseData) -> (text: String)
    ensures
        text@ == reply_text(response.deep_view()),
{
    match response {
        KvResponseData::Error { message } => join("KvErrorResponse(KvErrorResponse { message: \"", message.as_str()).concat(
            "\" })",
        ),
        KvResponseData::Get { keys, values } => {
            let entries = write_entries(keys, values);
            join("KvGetResponse(KvGetResponse ", entries.as_str()).concat(")")
        },
        KvResponseData::List { keys, values } => {
            let entries = write_entries(keys, values);
            join("KvListResponse(KvListResponse ", entries.as_str()).concat(")")
        },
        KvResponseData::Put => "KvPutResponse".to_owned(),
        KvResponseData::Delete => "KvDeleteResponse".to_owned(),
        KvResponseData::Drop => "KvDropResponse".to_owned(),
    }
}

/// The text of an error.
pub open spec fn error_message(error: RunnerErrorView) -> Seq<char> {
    match error {
        RunnerErrorView::EndpointRequired => "endpoint is required"@,
        RunnerErrorView::NamespaceRequired => "namespace is required"@,
        RunnerErrorView::RunnerAppRequired => "runner app is required; call RunnerBuilder::app"@,
        RunnerErrorView::ServerlessAppRequired => "runner app is required; call ServerlessRunnerBuilder::app"@,
        RunnerErrorView::AlreadyStarted => "runner.start called more than once"@,
        RunnerErrorView::GenerationMismatch => "actor generation mismatch"@,
        RunnerErrorView::SenderUnavailable => "runner websocket sender unavailable"@,
        RunnerErrorView::SenderClosed => "failed to queue message to websocket writer"@,
        RunnerErrorView::InvalidProtocolHeader => "invalid protocol header"@,
        RunnerErrorView::InvalidMethod => "invalid method"@,
        RunnerErrorView::InvalidUri => "invalid uri"@,
        RunnerErrorView::InvalidHeader { message } => message,
        RunnerErrorView::KvTimedOut => "timed out waiting for kv response"@,
        RunnerErrorView::KvChannelClosed => "kv response channel closed"@,
        RunnerErrorView::ActorStopCallbackFailed => "actor stop callback failed"@,
        RunnerErrorView::WebSocketCloseCallbackFailed => "websocket close callback failed"@,
        RunnerErrorView::StaleWebSocketCloseCallbackFailed => "stale websocket close callback failed"@,
        RunnerErrorView::ConnectedCallbackFailed => "runner app on_connected callback failed"@,
        RunnerErrorView::ShutdownCallbackFailed => "runner app shutdown callback failed"@,
        RunnerErrorView::DatacentersUndecodable => "failed to decode datacenters response"@,
        RunnerErrorView::InitPacketUnavailable => "runner init packet unavailable"@,
        RunnerErrorView::ActorNotFound { actor_id } => "actor "@ + actor_id + " not found"@,
        RunnerErrorView::GenerationExpected { expected, got } => "actor generation mismatch, expected "@ + decimal(
            expected as nat,
        ) + ", got "@ + decimal(got as nat),
        RunnerErrorView::AlreadyRestored { actor_id } => "actor "@ + actor_id
            + " already restored hibernating requests"@,
        RunnerErrorView::KvFailed { operation, message } => "kv "@ + operation_name(operation) + " failed: "@
            + message,
        RunnerErrorView::UnexpectedKvResponse { operation, response } => "unexpected kv "@ + operation_name(operation)
            + " response: "@ + reply_text(response),
        RunnerErrorView::KvValueLength { length } => "expected u64 value to be 8 bytes, got "@ + decimal(
            length as nat,
        ),
        RunnerErrorView::WebSocketCallbackFailed { message } => "websocket callback failed: "@ + message,
        RunnerErrorView::ActorNotRegistered { actor_name } => "actor '"@ + actor_name + "' is not registered"@,
        RunnerErrorView::UpsertFailed { status, body } => "serverless runner config upsert failed: "@ + status + " "@
            + body,
    }
}

fn operation_text(operation: KvOperation) -> (name: &'static str)
    ensures
        name@ == operation_name(operation),
{
    match operation {
        KvOperation::Get => "get",
        KvOperation::List => "list",
        KvOperation::Put => "put",
        KvOperation::Delete => "delete",
        KvOperation::Drop => "drop",
    }
}

fn sentence(first: &str, second: &str, third: &str, fourth: &str) -> (text: String)
    ensures
        text@ == first@ + second@ + third@ + fourth@,
{
    join(first, second).concat(third).concat(fourth)
}

impl RunnerError {
    /// The text of the error.
    pub fn message(&self) -> (text: String)
        ensures
            text@ == error_message(self.deep_view()),
    {
        match self {
            RunnerError::EndpointRequired => "endpoint is required".to_owned(),
            RunnerError::NamespaceRequired => "namespace is required".to_owned(),
            RunnerError::RunnerAppRequired => "runner app is required; call RunnerBuilder::app".to_owned(),
            RunnerError::ServerlessAppRequired => "runner app is required; call ServerlessRunnerBuilder::app".to_owned(),
            RunnerError::AlreadyStarted => "runner.start called more than once".to_owned(),
            RunnerError::GenerationMismatch => "actor generation mismatch".to_owned(),
            RunnerError::SenderUnavailable => "runner websocket sender unavailable".to_owned(),
            RunnerError::SenderClosed => "failed to queue message to websocket writer".to_owned(),
            RunnerError::InvalidProtocolHeader => "invalid protocol header".to_owned(),
            RunnerError::InvalidMethod => "invalid method".to_owned(),
            RunnerError::InvalidUri => "invalid uri".to_owned(),
            RunnerError::InvalidHeader { message } => message.clone(),
            RunnerError::KvTimedOut => "timed out waiting for kv response".to_owned(),
            RunnerError::KvChannelClosed => "kv response channel closed".to_owned(),
            RunnerError::ActorStopCallbackFailed => "actor stop callback failed".to_owned(),
            RunnerError::WebSocketCloseCallbackFailed => "websocket close callback failed".to_owned(),
            RunnerError::StaleWebSocketCloseCallbackFailed => "stale websocket close callback failed".to_owned(),
            RunnerError::ConnectedCallbackFailed => "runner app on_connected callback failed".to_owned(),
            RunnerError::ShutdownCallbackFailed => "runner app shutdown callback failed".to_owned(),
            RunnerError::DatacentersUndecodable => "failed to decode datacenters response".to_owned(),
            RunnerError::InitPacketUnavailable => "runner init packet unavailable".to_owned(),
            RunnerError::ActorNotFound { actor_id } => join("actor ", actor_id.as_str()).concat(" not found"),
            RunnerError::GenerationExpected { expected, got } => {
                let expected_text = decimal_text(*expected as u64);
                let got_text = decimal_text(*got as u64);
                sentence(
                    "actor generation mismatch, expected ",
                    expected_text.as_str(),
                    ", got ",
                    got_text.as_str(),
                )
            },
            RunnerError::AlreadyRestored { actor_id } => join("actor ", actor_id.as_str()).concat(
                " already restored hibernating requests",
            ),
            RunnerError::KvFailed { operation, message } => sentence(
                "kv ",
                operation_text(*operation),
                " failed: ",
                message.as_str(),
            ),
            RunnerError::UnexpectedKvResponse { operation, response } => {
                let reply = write_reply(response);
                sentence("unexpected kv ", operation_text(*operation), " response: ", reply.as_str())
            },
            RunnerError::KvValueLength { length } => {
                let length_text = decimal_text(*length as u64);
                join("expected u64 value to be 8 bytes, got ", length_text.as_str())
            },
            RunnerError::WebSocketCallbackFailed { message } => join("websocket callback failed: ", message.as_str()),
            RunnerError::ActorNotRegistered { actor_name } => join("actor '", actor_name.as_str()).concat(
                "' is not registered",
            ),
            RunnerError::UpsertFailed { status, body } => sentence(
                "serverless runner config upsert failed: ",
                status.as_str(),
                " ",
                body.as_str(),
            ),
        }
    }
}

} // verus!
