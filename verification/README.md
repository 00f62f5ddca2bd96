# tdn_rpc

The RPC front end of a peer-to-peer node. JSON-RPC requests come in over HTTP,
over WebSocket and from within the process; the application hears of them and
its answers find the way back.

- `src/` is the library, written and proved in Verus. `http` and `ws` are the
  connections, `router` stands between them and the application, `server` orders
  the start of the listeners, `message`, `jsonrpc`, `peer` and `text` hold what
  they share. `laws` states what holds of whole runs.
- `app/` runs the library: sockets, channels and tasks.
- `tests/` runs the library on given values.

What the library takes on trust of `httparse`, `serde_json`, `tdn_types`,
`rand_chacha` and the standard library stands in the functions marked
`external_body`, each with a comment that says what is claimed.
