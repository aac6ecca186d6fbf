//! A minimal virtual-machine monitor: one vCPU, one flat guest memory region,
//! and the exit-dispatch loop that drives a guest until it halts or faults.

pub mod cpu;
pub mod error;
pub mod exec;
pub mod image;
pub mod memory;
pub mod vm;
