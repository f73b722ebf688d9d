# win_async

Asynchronous socket polling through the Windows AFD device, and Windows I/O rings.

- `src/` is the verified library (Verus). It holds the request blocks and ring memory as plain
  values. It gives the arguments of the device open (`NtCreateFile`), the poll device control
  (`NtDeviceIoControlFile`), the cancel and the ring creation, and what each request comes to
  from the kernel's answer. It stores submission entries in a ring's submission queue.
  The pointers themselves (to the name, the status blocks and the buffers) are taken in `app/`.
  - `src/iocp/afd.rs`: poll events, the AFD device's open, poll and cancel requests.
  - `src/ioring/`: submission entries and operations (`op.rs`), the ring's shared memory
    (`inner.rs`), offset access into a run of entries (`util.rs`), and the ring itself (`mod.rs`).
- `app/` makes the Windows system calls (`NtCreateFile`, `NtDeviceIoControlFile`,
  `NtCancelIoFileEx`, `CreateIoRing`, `SubmitIoRing`, `RtlNtStatusToDosError`), and moves values
  between the kernel's memory layouts and the library's types.
- `tests/` runs the library on concrete values.
