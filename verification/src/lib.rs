//! Verified core of a small x86_64 teaching kernel and hypervisor: address
//! arithmetic, descriptor encodings, device-register decoding, memory
//! allocators, threads and channels, virtual CPUs and machines, a simple
//! on-disk file system and a DWARF call-frame unwinder.
use vstd::prelude::*;

pub mod addressing;
pub mod boot;
pub mod bytes;
pub mod channel;
pub mod dev;
pub mod interrupt;
pub mod kev;
pub mod mm;
pub mod panicking;
pub mod simple_fs;
pub mod thread;
pub mod x86_64;
pub mod unwind;

