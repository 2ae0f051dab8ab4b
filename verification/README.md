# p2p_web_app

A small peer-to-peer node with an HTTP front end. `src/` is the verified
library (Verus); `app/` is the executable around it: libp2p swarm, actix-web
server, file I/O and serde.

- `src/config.rs` – start-up configuration, its defaults, loading outcome.
- `src/keys.rs` – random server names, MD5-based name keys.
- `src/text.rs` – decimal and lowercase-hex rendering.
- `src/status.rs` – the network status reported by `GET /status`.
- `src/events.rs` – how swarm events change the status and what the swarm is asked to do.
- `src/event_laws.rs` – what holds after any sequence of swarm events.
- `src/commands.rs` – the actor's answers to status requests and registrations.
- `src/boot.rs` – which boot nodes are dialed.
- `src/web_server.rs` – the HTTP replies.
