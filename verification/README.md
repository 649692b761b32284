# mdcore

The shared core of the my-domain clients: LAN discovery, end-to-end encrypted
messaging between a user's devices, the features that ride on it (clipboard,
notifications, calls, app subscriptions, liveness), and the ladder by which two
devices find a path to each other.

- `src/` is the verified core. It holds the state and takes the decisions; every
  verified function states in its contract what it returns and what it changes. `engine` is
  the top; `transport`, `traversal`, `discovery`, `registry` and `features` are below
  it; `wire` and `service` are the seam for the binary framing.
- `app/` is the host: sockets, threads, HTTP, WebRTC, the clock, and the JSON forms of
  what goes over the wire. It brings the core what happened and performs the effects
  that come back.
- `tests/` runs the core on concrete values.

Public proof functions whose names begin with `law_` state what holds of several
functions together: that a frame decodes to what was encoded, that a chunked message
arrives whole in whatever order its datagrams come, that the connection ladder ends and
leaves nothing behind, and the like.

What the core takes on trust is what outside crates compute: Argon2id, XChaCha20-Poly1305,
base64, JSON, random bytes and UUIDs, and upper-casing in the standard library. Each such
call stands behind one small function whose comment says what is claimed of it.
