# Akraz

Akraz shares one pointer and keyboard between trusted computers on a local network. A daemon on
each computer captures input, decides when the pointer crosses to a peer, and acts out what peers
send; a desktop application starts the daemon and pairs computers.

- `src/` holds the decisions, verified with Verus: the input state machine (`runtime`, `capture`,
  `recovery`), the peer sessions (`wire`, `session`, `managed`, `commands`), identities and pairing
  (`identity`, `store`, `pairing`, `protocol`), discovery (`discovery`, `mdns`, `peers`), the control
  channel (`endpoint`, `rpc`, `snapshot`, `server`), and the application (`settings`, `launch`,
  `lifecycle`, `control`, `calls`, `tryout`).
- `app/` is the process around it: sockets, files, threads and child processes. It carries out the
  actions that the library asks for and hands the outcomes back.
- `tests/` runs the library against the outside crates it calls.

Times are nanoseconds of a clock that never goes back. Where a step needs the outside world, the
library names the action to take and waits for the event that reports its outcome.
