# rlog

A replicated message log. A master node accepts client messages, numbers
them, stores them and replicates them to secondary nodes; each node lists
the messages whose identifiers run from 0 without a gap.

- `src/` is the verified library (Verus): the node logs and their
  listings, the master's quorum check, message acceptance and replication
  driver, the heartbeat bookkeeping, the secondary's handling of a
  replicated message, and an all-or-nothing replication variant.
- `app/` holds the HTTP servers (actix-web, reqwest, tokio) around it:
  `rlog master` or `rlog secondary <port>`.
- `tests/` runs the library on concrete values.
