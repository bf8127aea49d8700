# waf_gate

An HTTP server whose traffic passes a ModSecurity engine, with the decisions in a library that
Verus verifies.

- `src/exchange.rs` takes a request past the engine to the service and the response past the
  engine back. It issues directives and is told what came of them.
- `src/protocol.rs` holds what the two sides say to each other, `src/message.rs` what is read of
  a message head, `src/intervention.rs` what an answer of the engine means.
- `src/rules.rs` sets the engine up with its rules, and `src/probe.rs` tries it on a request that
  it has to refuse; each states its own law.
- `src/laws.rs` states what holds of every exchange, in the terms of `src/history.rs`. The
  invariant behind it is in `src/stages.rs`.
- `app/` is the server: it carries out the directives on the engine and the sockets.
