//! A verified model of the Gcore kernel's system-call logic: error numbers,
//! signals, time arithmetic, the task table, device files, Unix domain
//! sockets, user-space copies between processes, the per-hart processors and
//! the PCI memory window allocator.
pub mod errno;
pub mod time;
pub mod signal;
pub mod task;
pub mod process;
pub mod sigframe;
pub mod wait;
pub mod limits;
pub mod clock;
pub mod futex;
pub mod fmt;
pub mod meminfo_labels;
pub mod stat;
pub mod procfs;
pub mod random;
pub mod dev;
pub mod pipe;
pub mod unix;
pub mod net;
pub mod uspace;
pub mod process_vm;
pub mod sockio;
pub mod info;
pub mod exec;
pub mod pci;
pub mod smp;
pub mod vfs;
pub mod socket_error;
pub mod usr_call;
pub mod preload;
pub mod icmp;
pub mod heap;
