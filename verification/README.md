# afpacket

Bindings for Linux `AF_PACKET` (raw) sockets, with a verified core.

- `src/` is the library, verified with Verus. It decides what the system
  calls of a packet socket are handed and what their results mean: the
  protocol in network byte order and the link-layer address of `bind`,
  the promiscuous membership to add or drop, the BPF program of
  `SO_ATTACH_FILTER`, the interface name buffer and the index that a
  lookup returns, when draining stops, and, for macOS, the BPF device
  paths to try. It names no item of a single target, so it builds on
  Linux and on macOS.
- `app/` makes the system calls, with the numbers of the target from
  `libc`: the blocking `sync::RawPacketStream` with `Read` and `Write`
  (Linux and macOS), and the `async` wrapper on `async-io`.
- `tests/` runs the library on concrete values.
