//! A small operating-system interaction layer for a Raspberry Pi robot.
//!
//! Two independent components are offered: an interface for reading and
//! writing Linux kernel attributes through the sysfs virtual filesystem
//! ([`linux::sysfs::Sysfs`]), and scope-bound temporary directories that are
//! created with a unique name and removed when the owning value is dropped
//! ([`unix::temporary_directory::TemporaryDirectory`]).

pub mod linux;
pub mod temporary_directory;
pub mod unix;
