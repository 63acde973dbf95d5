# audioipc

Verified core of an IPC layer that remotes an audio API between processes.

`src/` is the library, checked by Verus:

- `handle` — platform handles, their wire form, the handle that arrives
  with a message, and shared memory file names.
- `interest` — readiness interests of a registered connection.
- `connection` — the decision state of an event-loop connection: what to do
  next after each receive, driver step, flush, send and re-registration.
- `event_loop` — routing of poll events to connections, and which requests
  end the loop.
- `rpc` — the `Client`/`Server` traits and the handlers that pair requests
  with responses in order.
- `frame` — read and write decisions of a framed transport: when to read,
  decode or end the stream, and when a send is accepted, waits for a flush
  or is refused.
- `messages` — message types and stream parameter conversions.
- `server` — the server's request dispatch: which backend call a request
  needs, the reply built from what the call gave, the stream table, and the
  server poll's routing, reading, flushing and connection decisions.
- `backend` — the audio backend's context, streams and stream table, and the
  calls the server makes on them.
- `client` — the client side of remoted context and stream operations: the
  request each sends and the value each takes from the server's reply.
- `client_stream` — the client side of a remoted stream: what its callback
  thread does on each message, and how much data a reply carries.
- `device_info` — device type labels and format names from their flag bits.
- `shm` — the bounds of shared memory views and what a failed allocation
  comes to.
- `thread_priority` — idempotent real-time promotion of callback threads.
- `message_stream` — the async socket stream.

`app/` holds what runs around it: sockets and descriptor passing, shared
memory mappings, serialization, the event loop thread and RPC proxies, and the
stream volume, which the backend takes as a float.
