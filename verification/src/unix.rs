//! Features that are specific to Unix-like operating systems.

pub mod temporary_directory;
