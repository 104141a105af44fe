//! Interfaces for interacting with the Linux kernel sysfs.

use vstd::prelude::*;
use vstd::string::StrSliceExecFns;
use vstd::string::StringExecFns;
use vstd::utf8::decode_utf8;
use vstd::utf8::valid_utf8;

verus! {

/// Errors from reading or writing a kernel attribute.
#[derive(Clone, Copy, Debug, PartialEq, Eq)]
pub enum AttributeError {
    /// The resolved path does not exist.
    NotFound,
    /// The resolved path exists but the operation is not permitted.
    PermissionDenied,
    /// The bytes read from the attribute are not valid UTF-8 text.
    InvalidEncoding,
    /// Any other I/O failure reported by the underlying operation.
    IoError,
}

/// The absolute path denoting attribute identifier `id` under the root
/// directory `root`, composed the way a Unix path join composes paths: an
/// absolute identifier stands alone; otherwise exactly one separator stands
/// between a non-empty root and the identifier.
pub open spec fn joined_path(root: Seq<char>, id: Seq<char>) -> Seq<char> {
    if id.len() > 0 && id[0] == '/' {
        id
    } else if root.len() == 0 {
        id
    } else if root[root.len() - 1] == '/' {
        root + id
    } else {
        root + seq!['/'] + id
    }
}

/// Compares two string slices character by character.
fn str_eq(a: &str, b: &str) -> (r: bool)
    ensures
        r == (a@ == b@),
{
    let a_len: usize = a.unicode_len();
    let b_len: usize = b.unicode_len();
    if a_len != b_len {
        return false;
    }
    let mut i: usize = 0;
    while i < a_len
        invariant
            a_len == a@.len(),
            b_len == b@.len(),
            a_len == b_len,
            i <= a_len,
            forall|j: int| 0 <= j < i ==> a@[j] == b@[j],
        decreases a_len - i,
    {
        if a.get_char(i) != b.get_char(i) {
            return false;
        }
        i += 1;
    }
    proof {
        assert(a@ =~= b@);
    }
    true
}

/// Joins the root directory and an attribute identifier into one owned path.
fn join_path(root: &str, id: &str) -> (r: String)
    ensures
        r@ == joined_path(root@, id@),
{
    if id.unicode_len() > 0 && id.get_char(0) == '/' {
        return id.to_owned();
    }
    let root_len: usize = root.unicode_len();
    if root_len == 0 {
        return id.to_owned();
    }
    let mut r = root.to_owned();
    if root.get_char(root_len - 1) != '/' {
        r.append("/");
        proof {
            reveal_strlit("/");
            assert(r@ =~= root@ + seq!['/']);
        }
    }
    r.append(id);
    r
}

/// Relies on `fs_err::read`: it reads the entire contents of the file at
/// `path`. The bytes depend on what the kernel exposes at that path, so
/// nothing is promised of them; failures are reduced to the error taxonomy
/// by their operating-system error kind.
#[verifier::external_body]
fn read_file(path: &str) -> (r: Result<Vec<u8>, AttributeError>) {
    match fs_err::read(path) {
        Ok(bytes) => Ok(bytes),
        Err(e) => Err(
            match e.kind() {
                std::io::ErrorKind::NotFound => AttributeError::NotFound,
                std::io::ErrorKind::PermissionDenied => AttributeError::PermissionDenied,
                _ => AttributeError::IoError,
            },
        ),
    }
}

/// Relies on `fs_err::write`: it writes `contents` as the entire contents of
/// the file at `path`, truncating any previous contents. Whether that
/// succeeds depends on the filesystem, so nothing is promised of the result;
/// failures are reduced to the error taxonomy by their operating-system
/// error kind.
#[verifier::external_body]
fn write_file(path: &str, contents: &[u8]) -> (r: Result<(), AttributeError>) {
    match fs_err::write(path, contents) {
        Ok(()) => Ok(()),
        Err(e) => Err(
            match e.kind() {
                std::io::ErrorKind::NotFound => AttributeError::NotFound,
                std::io::ErrorKind::PermissionDenied => AttributeError::PermissionDenied,
                _ => AttributeError::IoError,
            },
        ),
    }
}

/// Relies on `String::from_utf8`: it succeeds exactly when the bytes are
/// valid UTF-8, and then returns the text those bytes encode.
#[verifier::external_body]
fn from_utf8_bytes(bytes: Vec<u8>) -> (r: Result<String, AttributeError>)
    ensures
        r is Ok <==> valid_utf8(bytes@),
        r is Ok ==> r->Ok_0@ == decode_utf8(bytes@),
        r is Err ==> r->Err_0 == AttributeError::InvalidEncoding,
{
    match String::from_utf8(bytes) {
        Ok(text) => Ok(text),
        Err(_) => Err(AttributeError::InvalidEncoding),
    }
}

/// How one attribute operation on identifier `id` leaves the store: the
/// identifier's resolution is cached, the root directory is unchanged, and
/// apart from possibly adding this one resolution the cache is unchanged.
pub open spec fn resolved_into(pre: Sysfs, post: Sysfs, id: Seq<char>) -> bool {
    &&& post.wf()
    &&& post.root() == pre.root()
    &&& post.is_cached(id)
    &&& pre.is_cached(id) ==> post == pre
    &&& !pre.is_cached(id) ==> post.cache() == pre.cache().push((id, joined_path(pre.root(), id)))
}

/// Interface for reading and writing to kernel attributes using paths that
/// are relative to the sysfs root directory.
///
/// The store resolves each attribute identifier against its root directory,
/// memoizes the resolved path, and performs the read or write against the
/// resolved path. The cache is populated lazily, at most once per distinct
/// identifier, and is never invalidated: the root directory is immutable for
/// the life of the store, so an identifier always resolves to one path.
///
/// A store is owned by a single caller and its operations take the store
/// exclusively; no internal synchronization is provided.
#[derive(Debug)]
pub struct Sysfs<'a> {
    path_cache: Vec<(String, String)>,
    root_dir: &'a str,
}

impl<'a> Sysfs<'a> {
    /// The root directory the store was bound to at construction.
    pub closed spec fn root(self) -> Seq<char> {
        self.root_dir@
    }

    /// The cached identifier/resolved-path pairs, in insertion order.
    pub closed spec fn cache(self) -> Seq<(Seq<char>, Seq<char>)> {
        Seq::new(
            self.path_cache@.len(),
            |i: int| (self.path_cache@[i].0@, self.path_cache@[i].1@),
        )
    }

    /// Whether identifier `id` already has a cached resolution.
    pub open spec fn is_cached(self, id: Seq<char>) -> bool {
        exists|i: int| 0 <= i < self.cache().len() && self.cache()[i].0 == id
    }

    /// Well-formedness: each identifier is cached at most once, and every
    /// cached path is the join of the root directory and its identifier.
    pub open spec fn wf(self) -> bool {
        &&& forall|i: int, j: int|
            0 <= i < j < self.cache().len() ==> self.cache()[i].0 != self.cache()[j].0
        &&& forall|i: int|
            0 <= i < self.cache().len() ==> self.cache()[i].1 == joined_path(
                self.root(),
                self.cache()[i].0,
            )
    }

    /// Creates a new `Sysfs` interface bound to the standard sysfs root.
    pub fn new() -> (r: Self)
        ensures
            r.wf(),
            r.root() == "/sys"@,
            r.cache().len() == 0,
    {
        Self::default()
    }

    /// Creates a new `Sysfs` interface with a non-standard root directory.
    ///
    /// The root is not validated: whether it exists only matters once an
    /// attribute under it is read or written.
    pub fn with_root_dir(root_dir: &'a str) -> (r: Self)
        ensures
            r.wf(),
            r.root() == root_dir@,
            r.cache().len() == 0,
    {
        Sysfs { path_cache: Vec::new(), root_dir }
    }

    /// Records the resolution of `attribute_path` in the cache.
    fn cache_path(&mut self, attribute_path: String, path: String)
        ensures
            final(self).root() == old(self).root(),
            final(self).cache() == old(self).cache().push((attribute_path@, path@)),
    {
        let ghost id = attribute_path@;
        let ghost p = path@;
        self.path_cache.push((attribute_path, path));
        proof {
            assert(self.cache() =~= old(self).cache().push((id, p)));
        }
    }

    /// Returns the cached resolution of `path`.
    fn get_cached_path(&self, path: &str) -> (r: &String)
        requires
            self.wf(),
            self.is_cached(path@),
        ensures
            r@ == joined_path(self.root(), path@),
    {
        let n: usize = self.path_cache.len();
        let mut i: usize = 0;
        while i < n
            invariant
                self.wf(),
                self.is_cached(path@),
                n == self.cache().len(),
                i <= n,
                forall|j: int| 0 <= j < i ==> self.cache()[j].0 != path@,
            decreases n - i,
        {
            if str_eq(self.path_cache[i].0.as_str(), path) {
                proof {
                    assert(self.cache()[i as int]
                        == (self.path_cache@[i as int].0@, self.path_cache@[i as int].1@));
                }
                return &self.path_cache[i].1;
            }
            i += 1;
        }
        proof {
            assert(false);
        }
        vstd::pervasive::unreached()
    }

    /// Whether `path` already has a cached resolution.
    fn has_cached_path(&self, path: &str) -> (r: bool)
        ensures
            r == self.is_cached(path@),
    {
        let n: usize = self.path_cache.len();
        let mut i: usize = 0;
        while i < n
            invariant
                n == self.cache().len(),
                i <= n,
                forall|j: int| 0 <= j < i ==> self.cache()[j].0 != path@,
            decreases n - i,
        {
            if str_eq(self.path_cache[i].0.as_str(), path) {
                proof {
                    assert(self.cache()[i as int].0 == path@);
                }
                return true;
            }
            i += 1;
        }
        false
    }

    /// Resolves `attribute_path` against the root directory, caching the
    /// resolution on first use.
    ///
    /// A repeated resolution of an identifier is answered from the cache and
    /// leaves the store unchanged, so a given identifier always resolves to
    /// the same path for the life of the store.
    fn resolve_path(&mut self, attribute_path: &str) -> (r: String)
        requires
            old(self).wf(),
        ensures
            final(self).wf(),
            final(self).root() == old(self).root(),
            r@ == joined_path(old(self).root(), attribute_path@),
            final(self).is_cached(attribute_path@),
            old(self).is_cached(attribute_path@) ==> *final(self) == *old(self),
            !old(self).is_cached(attribute_path@) ==> final(self).cache() == old(self).cache()
                .push((attribute_path@, r@)),
    {
        if !self.has_cached_path(attribute_path) {
            let path = join_path(self.root_dir, attribute_path);
            self.cache_path(attribute_path.to_owned(), path);
            proof {
                assert(self.cache().last().0 == attribute_path@);
                assert(self.is_cached(attribute_path@));
            }
        }
        self.get_cached_path(attribute_path).clone()
    }

    /// Reads the raw bytes of the kernel attribute at `path`.
    ///
    /// The bytes are whatever the kernel exposes at the resolved path; the
    /// read is a single operation and is not retried. The error mirrors the
    /// failure of the underlying read.
    pub fn read(&mut self, path: &str) -> (r: Result<Vec<u8>, AttributeError>)
        requires
            old(self).wf(),
        ensures
            resolved_into(*old(self), *final(self), path@),
    {
        let resolved = self.resolve_path(path);
        read_file(resolved.as_str())
    }

    /// Reads the kernel attribute at `path` into a [`String`].
    ///
    /// Fails like [`Sysfs::read`], and additionally with
    /// [`AttributeError::InvalidEncoding`] when the bytes read are not valid
    /// UTF-8 text.
    pub fn read_to_string(&mut self, path: &str) -> (r: Result<String, AttributeError>)
        requires
            old(self).wf(),
        ensures
            resolved_into(*old(self), *final(self), path@),
    {
        let resolved = self.resolve_path(path);
        match read_file(resolved.as_str()) {
            Ok(bytes) => from_utf8_bytes(bytes),
            Err(e) => Err(e),
        }
    }

    /// Writes `contents` to the kernel attribute at `path`, truncating any
    /// existing contents.
    ///
    /// No partial-write recovery is attempted; the error mirrors the failure
    /// of the underlying write.
    pub fn write(&mut self, path: &str, contents: &[u8]) -> (r: Result<(), AttributeError>)
        requires
            old(self).wf(),
        ensures
            resolved_into(*old(self), *final(self), path@),
    {
        let resolved = self.resolve_path(path);
        write_file(resolved.as_str(), contents)
    }
}

impl<'a> Default for Sysfs<'a> {
    /// Binds the store to `/sys`, the standard sysfs root, with an empty
    /// cache.
    fn default() -> (r: Self)
        ensures
            r.wf(),
            r.root() == "/sys"@,
            r.cache().len() == 0,
    {
        Sysfs { path_cache: Vec::new(), root_dir: "/sys" }
    }
}

impl<'a> PartialEq for Sysfs<'a> {
    fn eq(&self, other: &Self) -> (r: bool) {
        if !str_eq(self.root_dir, other.root_dir) {
            return false;
        }
        let n: usize = self.path_cache.len();
        if n != other.path_cache.len() {
            proof {
                assert(self.cache().len() == self.path_cache@.len());
                assert(other.cache().len() == other.path_cache@.len());
            }
            return false;
        }
        let mut i: usize = 0;
        while i < n
            invariant
                n == self.cache().len(),
                n == other.cache().len(),
                i <= n,
                self.root() == other.root(),
                forall|j: int| 0 <= j < i ==> self.cache()[j] == other.cache()[j],
            decreases n - i,
        {
            proof {
                assert(self.cache()[i as int]
                    == (self.path_cache@[i as int].0@, self.path_cache@[i as int].1@));
                assert(other.cache()[i as int]
                    == (other.path_cache@[i as int].0@, other.path_cache@[i as int].1@));
            }
            if !str_eq(self.path_cache[i].0.as_str(), other.path_cache[i].0.as_str()) {
                return false;
            }
            if !str_eq(self.path_cache[i].1.as_str(), other.path_cache[i].1.as_str()) {
                return false;
            }
            i += 1;
        }
        proof {
            assert(self.cache() =~= other.cache());
        }
        true
    }
}

impl<'a> vstd::std_specs::cmp::PartialEqSpecImpl for Sysfs<'a> {
    open spec fn obeys_eq_spec() -> bool {
        true
    }

    open spec fn eq_spec(&self, other: &Self) -> bool {
        self.root() == other.root() && self.cache() == other.cache()
    }
}

/// Law: resolution is stable. In a well-formed store an identifier is cached
/// at most once, and its cached path is exactly the join of the root
/// directory and the identifier, so repeated resolutions of one identifier
/// always yield one and the same path.
pub proof fn lemma_resolution_stable(s: Sysfs, i: int, j: int)
    requires
        s.wf(),
        0 <= i < s.cache().len(),
        0 <= j < s.cache().len(),
        s.cache()[i].0 == s.cache()[j].0,
    ensures
        i == j,
        s.cache()[i].1 == joined_path(s.root(), s.cache()[i].0),
{
}

/// Law: the cache only grows. An attribute operation never evicts or
/// rewrites an existing resolution; at most it appends the one resolution it
/// needed.
pub proof fn lemma_cache_never_evicts(pre: Sysfs, post: Sysfs, id: Seq<char>, i: int)
    requires
        resolved_into(pre, post, id),
        0 <= i < pre.cache().len(),
    ensures
        pre.cache().len() <= post.cache().len(),
        post.cache()[i] == pre.cache()[i],
{
}

} // verus!
