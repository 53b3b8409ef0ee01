//! The collectors: what they measure, and the samples they make of it.

pub mod counter;
pub mod cpu;
pub mod disk_io;
pub mod key;
pub mod memory;
pub mod network;
pub mod storage;
