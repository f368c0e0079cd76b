# raw_node

The raw node of a Raft group, written in Verus. It sits between an application
and a consensus algorithm: it turns the application's requests into messages,
keeps messages that must not come from the network away from the algorithm, and
tells the application what to save, send and apply.

- `src/raw_node.rs`: `Ready` and `RawNode`.
- `src/raft.rs`: the state of a node as plain values, and the trait `Consensus`,
  which promises nothing, so that all that is proved holds with every algorithm.
- `src/raft_log.rs`: the log of a node.
- `src/eraftpb.rs`: entries, messages, snapshots and changes of members.
- `src/wire.rs`: the bytes of a change of members, written with `prost`.
- `src/laws.rs`: what holds across the functions of a raw node.
- `app/`: a raw node that logs with `slog`.

What a call of the consensus algorithm was made on, and what it returned, is
stated with `call_ensures` of the trait's method.
