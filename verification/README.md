# debug_mcp

The verified core of a debugger server. The server drives `lldb-dap` over the Debug Adapter
Protocol on behalf of a client that speaks MCP.

`src/` is a Verus library. It does no input or output of its own: whoever uses it performs the
actions that it asks for and hands back what came of them.

| Part | Modules |
|------|---------|
| The wire | `framing`, `wire`, `bytes`, `error` |
| Requests and responses | `client`, `stop_waiter`, `read_loop`, `id_map` |
| The debugger | `detect`, `subprocess`, `args`, `requests`, `body`, `backend`, `handshake`, `factory` |
| The session | `state`, `breakpoint`, `file_breakpoints`, `output_buffer`, `manager`, `pump` |
| The test client | `stdio`, `harness` |
| Shared | `types`, `json`, `text`, `model` |

The modules whose names end in `_laws` state and prove what holds over several operations: that
frames are read back as they were written, whatever pieces the bytes arrive in; that every request
is answered once; that a launch or an attach comes to the same result in whatever order the
debugger's messages arrive, and that a launch never loses its first stop; that what began before a
reset has no say after it. `exchange` is the model of a connection that some of these speak of.

What is taken on trust is the behaviour of `serde_json`, `base64` and a few functions of the
standard library. Each such function stands behind one wrapper, marked
`#[verifier::external_body]`, whose comment says what is claimed of it; the wrappers are in `json`,
`body`, `bytes` and `detect`.

`app/` is the program around the library: processes, streams, locks, tasks, and the conversion of
messages from and to JSON. `tests/` runs the library on concrete values.
