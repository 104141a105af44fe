//! Abstractions to make managing temporary directories easier.

use vstd::prelude::*;

verus! {

#[verifier::external_type_specification]
#[verifier::external_body]
pub struct ExTempDir(tempfile::TempDir);

/// Error returned when a temporary directory cannot be created.
#[derive(Clone, Copy, Debug, PartialEq, Eq)]
pub enum TemporaryDirectoryError {
    /// The native unique-directory operation reported failure; holds the
    /// operating-system error code when one was reported.
    CreationFailed(Option<i32>),
}

/// A secure, uniquely-named temporary directory.
///
/// This is an RAII construct that automatically initializes and finalizes a
/// temporary directory bound by the lifetime of the object: the directory is
/// created when the value is constructed, is owned exclusively by the value,
/// and is removed recursively, best effort, when the value is dropped.
pub struct TemporaryDirectory {
    _dir: tempfile::TempDir,
    path: String,
}

impl TemporaryDirectory {
    /// The path of the underlying temporary directory.
    pub closed spec fn spec_path(self) -> Seq<char> {
        self.path@
    }

    /// Securely creates a uniquely-named temporary directory.
    ///
    /// The path of the underlying temporary directory is the system's
    /// temporary directory path composed with a random string.
    ///
    /// Relies on `tempfile::TempDir::new`: it creates a directory with a
    /// fresh unique name inside the system temporary directory, and its
    /// `Drop` implementation removes the directory and everything beneath it
    /// recursively, swallowing removal errors.
    ///
    /// # Errors
    ///
    /// This function will return an error if it fails to create a temporary
    /// directory.
    #[verifier::external_body]
    pub fn new() -> (r: Result<Self, TemporaryDirectoryError>) {
        match tempfile::TempDir::new() {
            Ok(dir) => {
                let path = dir.path().to_string_lossy().into_owned();
                Ok(TemporaryDirectory { _dir: dir, path })
            }
            Err(e) => Err(TemporaryDirectoryError::CreationFailed(e.raw_os_error())),
        }
    }

    /// Returns the path to the underlying temporary directory.
    ///
    /// Can be used to compose additional paths to interact with entities
    /// within the temporary directory. The path is stable for the life of
    /// the value.
    pub fn path(&self) -> (r: &str)
        ensures
            r@ == self.spec_path(),
    {
        self.path.as_str()
    }
}

} // verus!
