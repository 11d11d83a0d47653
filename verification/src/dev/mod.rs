//! Device files under /dev and the short /proc/meminfo device.
pub mod hwclock;
pub mod urandom;
pub mod proc_meminfo;
pub mod timerfd;
