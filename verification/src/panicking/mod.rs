//! Reporting a kernel panic: the backtrace of the panicking thread, each
//! frame with its function name and source location from the debugging
//! information of the kernel image.
pub mod format;
pub mod symbols;
