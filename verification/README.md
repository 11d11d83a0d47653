# gcore

The system-call logic of the Gcore kernel (RISC-V and LoongArch), written in
Verus and verified: each public function states in its contract what it
returns and how it changes the state it is given, and the properties that
relate several calls stand as proof functions named `law_*`.

## Layout

- `src/` — the verified library.
  - `errno`, `time`, `signal`, `task`: error numbers, time values, signal
    sets, and the task table with its lookups.
  - `process`, `sigframe`, `wait`, `limits`, `clock`, `futex`: process
    control, returning from a signal handler, waiting for children, resource
    limits, clocks and sleeping, futex decisions.
  - `pipe`, `unix`, `net`, `sockio`, `icmp`: pipes, Unix domain socket pairs
    and their descriptor table, the socket system calls, scatter-gather
    message I/O, and raw ICMP sockets over `smoltcp`.
  - `uspace`, `process_vm`, `exec`: user memory as the kernel sees it,
    copies between processes, `execve` arguments, `clone` and `mmap`.
  - `fmt`, `meminfo_labels`, `procfs`, `dev`, `stat`, `random`, `vfs`: device
    and proc files, and the SplitMix64 generator behind `/dev/urandom`.
  - `info`, `smp`, `pci`, `heap`, `preload`, `usr_call`: system information
    calls, per-hart processors, PCI BAR assignment, the large-allocation
    table of the kernel heap, the boot-time copy of linked-in programs, and
    the decisions of the user library.
- `tests/` — tests on concrete values, run against the compiled library.
- `app/` — what cannot be verified: the `rand_core` interface of the
  generator, endpoint conversion for `smoltcp`, and the user library
  that traps into the kernel.

Where a system call reads or writes user memory, the library works on a
`UserSpace` value; where the kernel performs I/O (copying a reply out,
blocking, reading a clock), the caller passes the outcome in as a plain value
and the contract says what is returned for each outcome.
