# nattype

Detects the NAT type of the local network (full cone, restricted, port
restricted, symmetric, …) with STUN, over UDP (RFC 3489 style change
requests) and over TCP (a port reachability service), trying a UPnP IGD or
NAT-PMP port mapping when the plain tests do not show a full cone.

Layout:

- `src/` — the verified library (Verus):
  - `nat_type.rs` — the NAT types, their codes and names;
  - `addr.rs` — transport addresses;
  - `stun.rs` — STUN messages: encoding and decoding through `stun_codec`,
    transaction ids, `CHANGE-REQUEST`, and the address attributes
    (`MAPPED-ADDRESS`, `XOR-MAPPED-ADDRESS`, `CHANGED-ADDRESS`);
  - `client.rs` — one Binding transaction: the requests it sends, which
    received datagram is its reply, and the summary of the reply; the Binding
    exchange of the TCP test;
  - `udp.rs`, `tcp.rs` — the two detections as step functions from what the
    network driver observed to what it must do next, with the verdict each
    run ends in;
  - `portcheck.rs`, `upnp.rs`, `detector.rs` — the port check answer, the
    port mapping fallbacks and the detector itself.
- `app/` — the command line program: sockets, name lookups, HTTP, UPnP and
  NAT-PMP, driving the detections.
- `tests/` — tests of the library.
