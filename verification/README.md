# cloudcafe

A small multi-user VR space: a server that keeps track of connected clients
and relays their avatar poses and voice, and a StereoKit client that shows
the other players.

- `src/` is the verified library (Verus): socket addresses and their bincode
  wire form, the server's client registry and info-channel protocol, the
  avatar and voice relays, the client's roster, the VRM bone table, the
  head-position protocol, frame pacing and the persisted settings.
- `tests/` exercises the library on concrete values.
- `app/` is the program around it: sockets, threads, serde copies of the
  message types, StereoKit rendering, VRM parsing and the floating-point
  tracking code.
