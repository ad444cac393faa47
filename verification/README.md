# hikaru

The decision core of a Discord bot's gateway client, verified with Verus.

- `src/` is the library. `gateway/` holds the close codes and how a client
  resolves them, the gateway opcodes and their decoding, the payloads a shard
  sends, and `shardconnection.rs`: what a shard does with each message and
  payload the gateway sends, with laws over whole sequences of payloads.
  `client/` and `bot.rs` say which shards are started, `rest.rs` builds REST
  addresses, and `util/` shows periods of time and defines the error type.
- `app/` is the program around it: the WebSocket and HTTP connections, the
  JSON form of payloads, the tasks and timers, and logging.
- `tests/` runs the library on concrete values.
