# engine-runner

A runner for actors. It connects to an engine over a WebSocket, starts and stops actors as it is
told, and hands HTTP requests and WebSockets that arrive through tunnels on to them.

`src/` is the core, verified with Verus. It holds what a runner knows and decides, without sockets,
tasks or clocks: `RunnerInner` is stepped with what happened, queues messages to the engine and news
for subscribers, and says what is to be done next. Every step has an exact contract over
`RunnerModel`, and `laws.rs` states what holds of several steps taken together. `external.rs` holds
everything that is believed of other crates.

`app/` is the async shell: it owns the sockets and tasks, runs the callbacks of the application,
serves actors with axum, and steps the core. The wire format of the messages is supplied by whoever
embeds the runner, through `Codec`.

`tests/` runs the core.
