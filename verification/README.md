# monoce-os

A Firecracker microVM manager whose decisions are proved with Verus.

- `src/` is the library: limits and capacity, networks, storage layout, VM
  states, images, and the procedures that create, start, pause, stop and
  destroy a VM. It performs no I/O. A procedure names the effect it needs next
  (`effect::Effect`) and goes on with the reply (`effect::Reply`).
- `app/` is the program around it: it performs the effects, reads and writes VM
  configurations as JSON, and prints.
- `tests/` runs the library against concrete values and a host in memory.

Every function of the library has a contract over plain mathematical values.
What holds across several calls stands in public proof functions whose names
begin with `law_`: for example, that two VMs never share a network, that
reservations never overcommit a host, and that destroying a VM gives back what
creating it took.

The calls into `serde_json`, `uuid` and `String::from_utf8_lossy` are believed,
not proved. They are the functions marked `external_body` in `src/json.rs`,
`src/vm.rs` and `src/api.rs`.
