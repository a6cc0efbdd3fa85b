# fuse_session

The core of a multi-threaded FUSE session, verified with Verus, and a thin layer of ordinary
Rust around it that does the system calls.

- `src/` is the verified library.
  - `wire`, `ll`, `operation`: requests, read from the raw bytes that the kernel sends.
  - `owned_request`, `channel`: requests that own their bytes, and handles for their replies.
  - `async_fs`: the calls into a filesystem, and what an unimplemented one answers.
  - `session`, `async_session`: who may use a mount, what is done about a request in each state
    of a session, and how its readers run.
  - `kernel_config`, `reply`: replies, byte for byte.
  - `uring_session`: queues, commands and completions of a session that uses io_uring.
  - `platform`: operating systems and their error numbers, as values that decisions depend on.
- `tests/` runs the library on concrete messages.
- `app/` is the layer around it: device files, threads, tasks, the io_uring instance, and the
  traits that a filesystem and a way to mount implement.

Public proof functions whose names begin with `law_` state what holds of the library as a whole.
Functions marked `external_body` are the only ones whose contracts are believed without proof;
the comment above each says what it claims.
