//! Abstractions to make managing temporary directories easier.

use vstd::prelude::*;
use crate::unix::temporary_directory::TemporaryDirectoryError;

verus! {

/// A secure, uniquely-named temporary directory.
///
/// This is an RAII construct that automatically initializes and finalizes a
/// temporary directory bound by the lifetime of the object. It is a thin
/// layer over the Unix implementation in
/// [`crate::unix::temporary_directory`].
pub struct TemporaryDirectory {
    inner: crate::unix::temporary_directory::TemporaryDirectory,
}

impl TemporaryDirectory {
    /// The path of the underlying temporary directory.
    pub closed spec fn spec_path(self) -> Seq<char> {
        self.inner.spec_path()
    }

    /// Securely creates a uniquely-named temporary directory.
    ///
    /// The path of the underlying temporary directory is the system's
    /// temporary directory path composed with a random string. The directory
    /// is removed recursively, best effort, when the value is dropped.
    ///
    /// # Errors
    ///
    /// This function will return an error if it fails to create a temporary
    /// directory.
    pub fn new() -> (r: Result<Self, TemporaryDirectoryError>) {
        match crate::unix::temporary_directory::TemporaryDirectory::new() {
            Ok(inner) => Ok(TemporaryDirectory { inner }),
            Err(e) => Err(e),
        }
    }

    /// Returns the path to the underlying temporary directory.
    ///
    /// Can be used to compose additional paths to interact with entities
    /// within the temporary directory.
    pub fn get_path(&self) -> (r: &str)
        ensures
            r@ == self.spec_path(),
    {
        self.inner.path()
    }
}

} // verus!
