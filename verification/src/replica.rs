//! The replica manager: creation, permissioning, and the owning handle.
//!
//! A replication request creates a fresh temporary directory, copies the
//! running binary's bytes into a file inside it, marks the copy executable,
//! and returns a [`Replicate`] handle owning both.  Dropping the handle
//! deletes the copy (eagerly for the randomized variant) and then the
//! directory recursively; deletion failures during destruction are
//! swallowed, as destructors cannot surface errors.

use vstd::prelude::*;
use vstd::string::*;

use crate::error::{io_kind, IoError};
use crate::pathname::{file_name, file_name_spec, join_path, join_spec, strictly_inside,
    valid_name};
use crate::resolver::{current_exe_path, exe_path};
use crate::stream::{copy_fd_into, gained_bytes, is_prefix, lemma_prefix_decompose, open_sink,
    open_source, SinkFd};

verus! {

/// The permission bits every replica is given: read, write and execute for
/// the owner; read and execute for group and other.
pub const REPLICA_MODE: u32 = 0o755;

/// Executability: the permission bits every replica is given include the
/// execute bit for owner, group, and other.
pub proof fn lemma_replica_mode_executable()
    ensures
        REPLICA_MODE & 0o100 == 0o100,
        REPLICA_MODE & 0o010 == 0o010,
        REPLICA_MODE & 0o001 == 0o001,
{
    assert(0o755u32 & 0o100 == 0o100) by (bit_vector);
    assert(0o755u32 & 0o010 == 0o010) by (bit_vector);
    assert(0o755u32 & 0o001 == 0o001) by (bit_vector);
}

/// A declaration of the temporary-directory type of the `tempfile` crate:
/// an exclusively owned directory, removed recursively when dropped.
#[verifier::external_type_specification]
#[verifier::external_body]
pub struct ExTempDir(tempfile::TempDir);

/// A declaration of the temporary-path type of the `tempfile` crate: the
/// closed file's path, deleting the file best-effort when dropped.
#[verifier::external_type_specification]
#[verifier::external_body]
pub struct ExTempPath(tempfile::TempPath);

/// Relies on `tempfile::tempdir`: creates a fresh, exclusively owned
/// temporary directory under the system temporary root, removed recursively
/// when the returned value is dropped; its path is returned alongside.
#[verifier::external_body]
fn make_temp_dir() -> (r: Result<(tempfile::TempDir, String), IoError>)
    ensures
        r matches Err(e) ==> e != IoError::InvalidInput,
{
    match tempfile::tempdir() {
        Ok(d) => {
            let path = d.path().to_string_lossy().into_owned();
            Ok((d, path))
        },
        Err(e) => Err(io_kind(&e)),
    }
}

/// An ASCII letter or digit, the alphabet of randomized name suffixes.
pub open spec fn is_alnum_char(c: char) -> bool {
    ('0' <= c && c <= '9') || ('a' <= c && c <= 'z') || ('A' <= c && c <= 'Z')
}

/// Relies on `tempfile::Builder::tempfile_in` and
/// `NamedTempFile::into_temp_path`: creates a fresh, empty file inside
/// `dir` named `prefix` followed by `rand` random ASCII alphanumeric
/// characters, retrying on name collisions when `rand` is nonzero and
/// failing on a collision when it is zero; then closes it, leaving a path
/// value that deletes the file, best-effort, when dropped.  The chosen
/// filename is returned alongside.  The builder joins the candidate name to
/// `dir` unexamined, so a prefix holding a separator would land the file
/// elsewhere: such prefixes are excluded.
#[verifier::external_body]
fn make_temp_file_in(dir: &str, prefix: &str, rand: usize) -> (r: Result<
    (tempfile::TempPath, String),
    IoError,
>)
    requires
        forall|i: int| 0 <= i < prefix@.len() ==> prefix@[i] != '/',
    ensures
        r matches Ok(t) ==> {
            &&& t.1@.len() == prefix@.len() + rand
            &&& t.1@.subrange(0, prefix@.len() as int) == prefix@
            &&& forall|i: int| prefix@.len() <= i < t.1@.len() ==> is_alnum_char(#[trigger] t.1@[i])
        },
        r matches Err(e) ==> e != IoError::InvalidInput,
{
    let builder_result = tempfile::Builder::new().prefix(prefix).suffix("").rand_bytes(
        rand,
    ).tempfile_in(dir);
    let file = match builder_result {
        Ok(f) => f,
        Err(e) => return Err(io_kind(&e)),
    };
    let name = match file.path().file_name() {
        Some(n) => n.to_string_lossy().into_owned(),
        None => return Err(IoError::Other),
    };
    Ok((file.into_temp_path(), name))
}

/// Relies on `TempPath::keep`: disables the eager deletion of the file, so
/// that only the containing directory's recursive removal reclaims it.
#[verifier::external_body]
fn persist(path: tempfile::TempPath) -> (r: Result<(), IoError>)
    ensures
        r matches Err(e) ==> e != IoError::InvalidInput,
{
    match path.keep() {
        Ok(_) => Ok(()),
        Err(e) => Err(io_kind(&e.error)),
    }
}

/// Relies on `nix::sys::stat::fchmodat` following symbolic links: sets the
/// permission bits of the file at `path` to exactly `mode`.
#[verifier::external_body]
fn set_mode(path: &str, mode: u32) -> (r: Result<(), IoError>)
    ensures
        r matches Err(e) ==> e != IoError::InvalidInput,
{
    let m = nix::sys::stat::Mode::from_bits_truncate(mode);
    match nix::sys::stat::fchmodat(None, path, m, nix::sys::stat::FchmodatFlags::FollowSymlink) {
        Ok(()) => Ok(()),
        Err(e) => Err(crate::error::errno_kind(e)),
    }
}

/// Copies the bytes of the currently running executable, already resolved
/// to `self_path`, into the sink.  The ghost result is the full byte
/// sequence the executable's descriptor yielded, read to the end of its
/// stream on success: the sink then took exactly those bytes; on failure it
/// took some prefix of them and nothing else.  The source descriptor is
/// closed whether or not the copy succeeded.
fn copy_self_into_writer(self_path: &str, writer: &mut SinkFd) -> (r: (
    Result<u64, IoError>,
    Ghost<Seq<u8>>,
))
    ensures
        is_prefix(old(writer).log_view(), final(writer).log_view()),
        r.0 matches Ok(n) ==> {
            &&& final(writer).log_view() == old(writer).log_view() + r.1@
            &&& n as nat == r.1@.len()
        },
        r.0 matches Err(e) ==> e != IoError::InvalidInput && is_prefix(
            gained_bytes(old(writer).log_view(), final(writer).log_view()),
            r.1@,
        ),
{
    let mut src = match open_source(self_path) {
        Ok(s) => s,
        Err(e) => {
            proof {
                crate::stream::lemma_prefix_refl(old(writer).log_view());
                assert(gained_bytes(old(writer).log_view(), old(writer).log_view())
                    =~= Seq::<u8>::empty());
                crate::stream::lemma_prefix_refl(Seq::<u8>::empty());
            }
            return (Err(e), Ghost(Seq::empty()));
        },
    };
    let copied = copy_fd_into(&mut src, writer);
    let ghost yielded = src.log_view();
    proof {
        assert(gained_bytes(Seq::<u8>::empty(), yielded) =~= yielded);
        lemma_prefix_decompose(old(writer).log_view(), writer.log_view());
    }
    src.close();
    match copied {
        Ok(n) => (Ok(n), Ghost(yielded)),
        Err(e) => (Err(e), Ghost(yielded)),
    }
}

/// Marks the file at `path` executable by giving it the replica permission
/// bits.
fn make_executable(path: &str) -> (r: Result<(), IoError>)
    ensures
        r matches Err(e) ==> e != IoError::InvalidInput,
{
    set_mode(path, REPLICA_MODE)
}

/// How the copy's own deletion is owned.
enum ReplicaPath {
    /// The randomized variant holds a path value that deletes the copy
    /// eagerly, and idempotently, when the handle is dropped.
    Randomized(tempfile::TempPath),
    /// The name-preserving variant owns the copy only through the
    /// directory's recursive deletion.
    Fixed,
}

/// A temporary copy of the running executable.
///
/// The copy lives alone in a fresh temporary directory and carries execute
/// permission.  Dropping the handle deletes the copy and the directory;
/// deletion failures are swallowed.
pub struct Replicate {
    /// The directory resource: dropping it removes the directory tree.
    parent: tempfile::TempDir,
    /// The directory's path.
    parent_path: String,
    /// The copy's filename inside the directory.
    name: String,
    /// The copy's full path.
    full_path: String,
    /// The deletion tracking for the copy itself.
    path: ReplicaPath,
}

impl Replicate {
    /// The copy's path always names an entry directly inside the owned
    /// directory.
    #[verifier::type_invariant]
    spec fn wf(self) -> bool {
        &&& valid_name(self.name@)
        &&& self.full_path@ == join_spec(self.parent_path@, self.name@)
    }

    /// The path of the owned temporary directory.
    pub closed spec fn dir_view(self) -> Seq<char> {
        self.parent_path@
    }

    /// The path of the copy.
    pub closed spec fn path_view(self) -> Seq<char> {
        self.full_path@
    }

    /// The copy's filename.
    pub closed spec fn name_view(self) -> Seq<char> {
        self.name@
    }

    /// Whether the handle came from the randomized-name operation.
    pub closed spec fn is_randomized(self) -> bool {
        self.path matches ReplicaPath::Randomized(_)
    }

    /// Creates a replica of the currently running program under a
    /// randomized filename: the fixed prefix `replicate_` followed by five
    /// random alphanumeric characters.  The copy and its directory are
    /// deleted when the handle is dropped.
    pub fn new() -> (r: Result<Replicate, IoError>)
        ensures
            r matches Ok(h) ==> {
                &&& h.is_randomized()
                &&& valid_name(h.name_view())
                &&& h.name_view().len() == "replicate_"@.len() + 5
                &&& h.name_view().subrange(0, "replicate_"@.len() as int) == "replicate_"@
                &&& h.path_view() == join_spec(h.dir_view(), h.name_view())
            },
            r matches Err(e) ==> e != IoError::InvalidInput,
    {
        let self_path = match exe_path() {
            Ok(p) => p,
            Err(e) => return Err(e),
        };
        Self::new_from(self_path.as_str())
    }

    /// Creates a randomized-name replica copied from the given resolved
    /// self path; the resolver-free entry point for callers that obtained
    /// the running binary's path by other means.
    pub fn new_from(self_path: &str) -> (r: Result<Replicate, IoError>)
        ensures
            r matches Ok(h) ==> {
                &&& h.is_randomized()
                &&& valid_name(h.name_view())
                &&& h.name_view().len() == "replicate_"@.len() + 5
                &&& h.name_view().subrange(0, "replicate_"@.len() as int) == "replicate_"@
                &&& h.path_view() == join_spec(h.dir_view(), h.name_view())
            },
            r matches Err(e) ==> e != IoError::InvalidInput,
    {
        let (parent, parent_path) = match make_temp_dir() {
            Ok(t) => t,
            Err(e) => return Err(e),
        };
        proof {
            lemma_replicate_prefix_separator_free();
        }
        let (temp_path, name) = match make_temp_file_in(parent_path.as_str(), "replicate_", 5) {
            Ok(t) => t,
            Err(e) => return Err(e),
        };
        let full_path = join_path(parent_path.as_str(), name.as_str());
        match fill_copy(self_path, full_path.as_str()) {
            Ok(()) => (),
            Err(e) => return Err(e),
        }
        match make_executable(full_path.as_str()) {
            Ok(()) => (),
            Err(e) => return Err(e),
        }
        proof {
            lemma_replicate_prefix_separator_free();
            lemma_prefix_name_valid("replicate_"@, name@);
        }
        Ok(
            Replicate {
                parent,
                parent_path,
                name,
                full_path,
                path: ReplicaPath::Randomized(temp_path),
            },
        )
    }

    /// Creates a replica of the currently running program whose filename
    /// equals the resolved self path's final component.  The directory and
    /// the copy inside it are deleted when the handle is dropped.
    pub fn same_name() -> (r: Result<Replicate, IoError>)
        ensures
            r matches Ok(h) ==> {
                &&& !h.is_randomized()
                &&& valid_name(h.name_view())
                &&& h.path_view() == join_spec(h.dir_view(), h.name_view())
            },
    {
        let self_path = match current_exe_path() {
            Ok(p) => p,
            Err(e) => return Err(e),
        };
        Self::same_name_from(self_path.as_str())
    }

    /// Creates a name-preserving replica copied from the given resolved
    /// self path: the copy's filename is exactly the final component of
    /// `self_path`, and a path without one is rejected as invalid input.
    pub fn same_name_from(self_path: &str) -> (r: Result<Replicate, IoError>)
        ensures
            r matches Ok(h) ==> {
                &&& !h.is_randomized()
                &&& valid_name(h.name_view())
                &&& file_name_spec(self_path@) == Some(h.name_view())
                &&& h.path_view() == join_spec(h.dir_view(), h.name_view())
            },
            (r matches Err(e) && e == IoError::InvalidInput) <==> file_name_spec(self_path@)
                is None,
    {
        let filename = match file_name(self_path) {
            Some(n) => n,
            None => return Err(IoError::InvalidInput),
        };
        let (parent, parent_path) = match make_temp_dir() {
            Ok(t) => t,
            Err(e) => return Err(e),
        };
        let (temp_path, name) = match make_temp_file_in(parent_path.as_str(), filename.as_str(), 0)
            {
            Ok(t) => t,
            Err(e) => return Err(e),
        };
        proof {
            assert(name@ =~= filename@);
        }
        let full_path = join_path(parent_path.as_str(), name.as_str());
        match fill_copy(self_path, full_path.as_str()) {
            Ok(()) => (),
            Err(e) => return Err(e),
        }
        match persist(temp_path) {
            Ok(()) => (),
            Err(e) => return Err(e),
        }
        match make_executable(full_path.as_str()) {
            Ok(()) => (),
            Err(e) => return Err(e),
        }
        Ok(Replicate { parent, parent_path, name, full_path, path: ReplicaPath::Fixed })
    }

    /// Returns the path of the temporary directory holding the copy.
    pub fn parent(&self) -> (r: &String)
        ensures
            r@ == self.dir_view(),
    {
        &self.parent_path
    }

    /// Returns the path of the copy.
    pub fn path(&self) -> (r: &String)
        ensures
            r@ == self.path_view(),
            strictly_inside(self.path_view(), self.dir_view()),
    {
        proof {
            use_type_invariant(&*self);
            assert(self.path_view() == join_spec(self.dir_view(), self.name_view()));
        }
        &self.full_path
    }

    /// Returns the copy's filename.
    pub fn name(&self) -> (r: &String)
        ensures
            r@ == self.name_view(),
            valid_name(self.name_view()),
    {
        proof {
            use_type_invariant(&*self);
        }
        &self.name
    }
}

/// Fills the fresh, empty copy at `full_path` with the bytes of the running
/// executable resolved at `self_path`, closing the writer either way.  The
/// byte-for-byte fidelity of the transfer is stated one call down, on
/// `copy_self_into_writer`, whose sink this function opens over `full_path`
/// and then closes.
fn fill_copy(self_path: &str, full_path: &str) -> (r: Result<(), IoError>)
    ensures
        r matches Err(e) ==> e != IoError::InvalidInput,
{
    let mut writer = match open_sink(full_path) {
        Ok(s) => s,
        Err(e) => return Err(e),
    };
    let copied = copy_self_into_writer(self_path, &mut writer);
    writer.close();
    match copied.0 {
        Ok(_) => Ok(()),
        Err(e) => Err(e),
    }
}

/// The characters of the randomized-name prefix are all separator-free.
proof fn lemma_replicate_prefix_separator_free()
    ensures
        forall|i: int| 0 <= i < "replicate_"@.len() ==> #[trigger] "replicate_"@[i] != '/',
{
    reveal_strlit("replicate_");
}

/// A name made of a separator-free prefix followed by alphanumeric
/// characters is a valid filename component.
proof fn lemma_prefix_name_valid(prefix: Seq<char>, name: Seq<char>)
    requires
        name.len() > prefix.len(),
        name.subrange(0, prefix.len() as int) == prefix,
        forall|i: int| 0 <= i < prefix.len() ==> #[trigger] prefix[i] != '/',
        forall|i: int| prefix.len() <= i < name.len() ==> is_alnum_char(#[trigger] name[i]),
    ensures
        valid_name(name),
{
    assert forall|i: int| 0 <= i < name.len() implies name[i] != '/' by {
        if i < prefix.len() {
            assert(name[i] == prefix.subrange(0, prefix.len() as int)[i]);
            assert(name[i] == prefix[i]);
        }
    }
}

} // verus!
