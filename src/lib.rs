//! Early boot support for an aarch64 target: a PL011 serial driver, an
//! allocation-free diagnostic logger on top of it, the panic report path, and
//! the capability contract that boot-time storage drivers implement.

pub mod filesystem;
pub mod level;
pub mod logger;
pub mod memory_fs;
pub mod uart;
