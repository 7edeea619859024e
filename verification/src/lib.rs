//! Verified core of an actor runner.
//!
//! A runner connects to an engine, is told which actors to start and stop, and hands HTTP requests
//! and WebSockets on to them. This crate holds what a runner knows and decides, as a state that is
//! stepped: [`RunnerInner`] takes in what happened, queues messages, and says what is to be done
//! next. Sockets, tasks and callbacks are left to whoever drives it.

pub mod actions;
pub mod actor;
pub mod commands;
pub mod config;
pub mod connection;
pub mod duplicate;
pub mod error;
pub mod events;
pub mod external;
pub mod incoming;
pub mod kv;
pub mod laws;
pub mod names;
pub mod protocol;
pub mod requests;
pub mod restore;
pub mod runner;
pub mod runtime;
pub mod sequence;
pub mod serverless;
pub mod state;
pub mod text;
pub mod tunnel;
pub mod websocket;

pub use actor::{
    ActorConfig, ActorContext, ActorLifecycleEvent, HibernatingRequest, HibernatingWebSocketMetadata, HttpContext,
    WebSocketContext, WebSocketMessage,
};
pub use config::{PrepopulateActorName, RunnerConfig, RunnerConfigBuilder};
pub use error::{KvOperation, RunnerError};
pub use runner::{AxumRunnerApp, Runner, RunnerBuilder};
pub use sequence::{wrapping_add_u16, wrapping_lt_u16, wrapping_lte_u16, wrapping_sub_u16};
pub use serverless::{ServerlessConfig, ServerlessConfigBuilder, ServerlessRunner, ServerlessRunnerBuilder};
pub use state::RunnerInner;
