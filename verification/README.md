# iscsi_target

An iSCSI target library (RFC 3720) whose logic is proved with Verus.

The library in `src/` holds everything the target decides:

- `pdu` — the 48-byte header, the data segment and its padding, builders
  and parsers for each PDU kind, and `key=value` text parameters.
- `scsi` — the `ScsiBlockDevice` trait and the SCSI commands a block device
  answers (INQUIRY, READ CAPACITY, READ/WRITE 10/16, MODE SENSE, ...).
- `auth` — CHAP: challenges, MD5 responses and their check.
- `session` — session state, sequence numbers and the command window,
  parameter negotiation, and the login phase with CHAP and the access list.
- `target` — the target's configuration and what it does with each PDU a
  connection receives.
- `client` — the requests an initiator sends and what it makes of the
  answers.
- `bytes`, `text`, `error` — big-endian fields, character helpers, errors.

Each public function states its result in its `ensures`, with two
exceptions: `IscsiTarget::stop` and `IscsiTarget::is_running` set and read
the target's running flag, a `std::sync::atomic::AtomicBool`, and Verus
knows nothing of what its `store` and `load` do, so these two functions
have no `ensures`.  What a block device does with a write or a flush is
the device's own business: the contracts of the command handlers state
which calls they make, with which arguments, and what follows from each
answer; the capacity, block size, identification strings and read data
that a response is built from are what the device returned to those
calls.  Laws that relate several functions (round trips of the wire
format and of text parameters, the command window, negotiation, the login
stages, Data-In framing) are proof functions next to the code they are
about.

`app/` holds the sockets and threads: the TCP server that runs a target
(`TargetServer::run`) and a TCP client (`IscsiClient`).  `tests/` exercises
the library on concrete values.
