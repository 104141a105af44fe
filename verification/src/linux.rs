//! Interfaces that are specific to the Linux kernel.

pub mod sysfs;
