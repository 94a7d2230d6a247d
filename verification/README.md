# brick_channel

Device-local bridge between an agent daemon and the process that owns the device's user interface.
Clients connect over a WebSocket on a Unix domain socket and exchange JSON frames with the agent.

`src/` is the library, written in Verus. It holds the rules and no I/O:

- `frames`, `messages`, `keys`: what is said, and the text keys it is filed under
- `wire`, `wire_laws`: how frames are written as JSON, and that no two are written alike
- `router`, `approvals`, `session`, `channel`: what the channel knows
- `inbound`, `history`: what comes of each frame of a client
- `outbound`: what the agent's side asks the channel to send
- `listen`, `connection`, `clock`: setting up, letting clients in, writing, time stamps
- `laws`: what holds of the channel over any frames of any sessions
- `outside`: the calls and types taken on trust from other crates

The library never waits and never sends. It returns what is to be done: deliveries, an action for a
frame, the steps to listening. `app/` does it, with `tokio` and `tokio-tungstenite`.

Senders are known as `<userId>:<deviceId>`. Session keys join their parts with `|`. Where that would
be the key of another session, they are written without any `|`, so no two sessions share a key.
