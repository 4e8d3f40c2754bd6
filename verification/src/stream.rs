//! Byte streams over raw file descriptors, with a ghost account of every
//! byte moved.
//!
//! A source carries the log of the bytes its reads have yielded and whether
//! the end of the stream has been reached; a sink carries the log of the
//! bytes its writes have taken.  Only the trusted read and write wrappers
//! extend the logs, so a verified caller can tie what a sink received to
//! what a source yielded, byte for byte.

use vstd::prelude::*;

use crate::error::{errno_kind, IoError};

verus! {

/// `p` is an initial segment of `s`.
pub open spec fn is_prefix(p: Seq<u8>, s: Seq<u8>) -> bool {
    p.len() <= s.len() && p == s.subrange(0, p.len() as int)
}

/// The bytes `cur` holds beyond the earlier value `prev`.
pub open spec fn gained_bytes(prev: Seq<u8>, cur: Seq<u8>) -> Seq<u8> {
    cur.skip(prev.len() as int)
}

/// A sequence is the concatenation of any prefix of it and what it gained
/// over that prefix.
pub(crate) proof fn lemma_prefix_decompose(a: Seq<u8>, b: Seq<u8>)
    requires
        is_prefix(a, b),
    ensures
        b == a + gained_bytes(a, b),
{
    assert(b =~= a + b.skip(a.len() as int));
}

/// Appending to a sequence extends it, and what is gained over a prefix
/// grows by exactly the appended bytes.
pub(crate) proof fn lemma_gained_append(a: Seq<u8>, b: Seq<u8>, c: Seq<u8>)
    requires
        is_prefix(a, b),
    ensures
        is_prefix(a, b + c),
        gained_bytes(a, b + c) == gained_bytes(a, b) + c,
{
    assert((b + c).subrange(0, a.len() as int) =~= a);
    assert((b + c).skip(a.len() as int) =~= b.skip(a.len() as int) + c);
}

/// Prefixes are preserved under appending the same bytes in front.
pub(crate) proof fn lemma_prefix_append_left(g: Seq<u8>, p: Seq<u8>, c: Seq<u8>)
    requires
        is_prefix(p, c),
    ensures
        is_prefix(g + p, g + c),
{
    assert((g + c).subrange(0, (g + p).len() as int) =~= g + p);
}

/// Every sequence is a prefix of itself.
pub(crate) proof fn lemma_prefix_refl(s: Seq<u8>)
    ensures
        is_prefix(s, s),
{
    assert(s.subrange(0, s.len() as int) =~= s);
}

/// An open, read-only byte stream: a file descriptor together with the
/// ghost log of every byte its reads have yielded, and whether the end of
/// the stream has been reached.
pub struct SourceFd {
    fd: i32,
    log: Ghost<Seq<u8>>,
    eof: Ghost<bool>,
}

/// An open, write-only byte stream: a file descriptor together with the
/// ghost log of every byte its writes have taken.
pub struct SinkFd {
    fd: i32,
    log: Ghost<Seq<u8>>,
}

impl SourceFd {
    /// The bytes reads on this source have yielded so far.
    pub closed spec fn log_view(self) -> Seq<u8> {
        self.log@
    }

    /// Whether a read has reached the end of the stream.
    pub closed spec fn at_eof(self) -> bool {
        self.eof@
    }

    /// Reads the next chunk into the front of `buf` and returns how many
    /// bytes arrived; zero means the end of the stream.
    pub fn read_into(&mut self, buf: &mut Vec<u8>) -> (r: Result<usize, IoError>)
        ensures
            final(buf)@.len() == old(buf)@.len(),
            r matches Ok(n) ==> {
                &&& n <= final(buf)@.len()
                &&& final(self).log_view() == old(self).log_view() + final(buf)@.subrange(
                    0,
                    n as int,
                )
                &&& final(self).at_eof() == (old(self).at_eof() || n == 0)
            },
            r matches Err(e) ==> e != IoError::InvalidInput && *final(self) == *old(self),
    {
        read_some(self, buf)
    }

    /// Releases the descriptor; a failure to close a read-only stream is
    /// swallowed, as no data can be lost.
    pub fn close(self) {
        close_fd(self.fd);
    }
}

impl SinkFd {
    /// The bytes writes on this sink have taken so far.
    pub closed spec fn log_view(self) -> Seq<u8> {
        self.log@
    }

    /// Releases the descriptor.  The writes are unbuffered system calls,
    /// so a failure to close is swallowed, as the original writer's
    /// implicit close would swallow it.
    pub(crate) fn close(self) {
        close_fd(self.fd);
    }
}

/// Relies on `nix::fcntl::open` with `O_RDONLY`: opens the file at `path`
/// for reading.
#[verifier::external_body]
fn open_fd_read(path: &str) -> (r: Result<i32, IoError>)
    ensures
        r matches Err(e) ==> e != IoError::InvalidInput,
{
    match nix::fcntl::open(path, nix::fcntl::OFlag::O_RDONLY, nix::sys::stat::Mode::empty()) {
        Ok(fd) => Ok(fd),
        Err(e) => Err(errno_kind(e)),
    }
}

/// Relies on `nix::fcntl::open` with `O_WRONLY`: opens the existing file at
/// `path` for writing.
#[verifier::external_body]
fn open_fd_write(path: &str) -> (r: Result<i32, IoError>)
    ensures
        r matches Err(e) ==> e != IoError::InvalidInput,
{
    match nix::fcntl::open(path, nix::fcntl::OFlag::O_WRONLY, nix::sys::stat::Mode::empty()) {
        Ok(fd) => Ok(fd),
        Err(e) => Err(errno_kind(e)),
    }
}

/// Opens the file at `path` as a read-only stream.  A fresh descriptor has
/// yielded nothing and is not at the end of its stream.
pub(crate) fn open_source(path: &str) -> (r: Result<SourceFd, IoError>)
    ensures
        r matches Ok(s) ==> s.log_view() == Seq::<u8>::empty() && !s.at_eof(),
        r matches Err(e) ==> e != IoError::InvalidInput,
{
    match open_fd_read(path) {
        Ok(fd) => Ok(SourceFd { fd, log: Ghost(Seq::empty()), eof: Ghost(false) }),
        Err(e) => Err(e),
    }
}

/// Opens the existing file at `path` as a write-only stream.  A fresh
/// descriptor has taken no bytes yet.
pub(crate) fn open_sink(path: &str) -> (r: Result<SinkFd, IoError>)
    ensures
        r matches Ok(s) ==> s.log_view() == Seq::<u8>::empty(),
        r matches Err(e) ==> e != IoError::InvalidInput,
{
    match open_fd_write(path) {
        Ok(fd) => Ok(SinkFd { fd, log: Ghost(Seq::empty()) }),
        Err(e) => Err(e),
    }
}

/// Relies on `nix::unistd::read`: reads at most `buf.len()` bytes into the
/// front of `buf`; for a regular file a return of zero means the end of the
/// file, and a failing read yields no bytes.  The ghost log gains exactly
/// the yielded bytes.
#[verifier::external_body]
fn read_some(src: &mut SourceFd, buf: &mut Vec<u8>) -> (r: Result<usize, IoError>)
    ensures
        final(buf)@.len() == old(buf)@.len(),
        r matches Ok(n) ==> {
            &&& n <= final(buf)@.len()
            &&& final(src).log_view() == old(src).log_view() + final(buf)@.subrange(0, n as int)
            &&& final(src).at_eof() == (old(src).at_eof() || n == 0)
        },
        r matches Err(e) ==> e != IoError::InvalidInput && *final(src) == *old(src),
{
    match nix::unistd::read(src.fd, buf.as_mut_slice()) {
        Ok(n) => Ok(n),
        Err(e) => Err(errno_kind(e)),
    }
}

/// Relies on `nix::unistd::write`: writes some prefix of `buf[start..end]`
/// to the sink and returns how many bytes it took, never more than were
/// offered; a failing write takes none.  The ghost log gains exactly the
/// taken bytes.
#[verifier::external_body]
fn write_some(dst: &mut SinkFd, buf: &Vec<u8>, start: usize, end: usize) -> (r: Result<
    usize,
    IoError,
>)
    requires
        start <= end <= buf@.len(),
    ensures
        r matches Ok(n) ==> {
            &&& n <= end - start
            &&& final(dst).log_view() == old(dst).log_view() + buf@.subrange(
                start as int,
                start as int + n as int,
            )
        },
        r matches Err(e) ==> e != IoError::InvalidInput && *final(dst) == *old(dst),
{
    match nix::unistd::write(dst.fd, &buf[start..end]) {
        Ok(n) => Ok(n),
        Err(e) => Err(errno_kind(e)),
    }
}

/// Relies on `nix::unistd::close`: releases the descriptor; failures are
/// swallowed by the callers, which document why that is safe for them.
#[verifier::external_body]
fn close_fd(fd: i32) {
    let _ = nix::unistd::close(fd);
}

/// Writes the whole of `buf[..n]` to the sink, looping until every byte is
/// taken; a write that takes nothing is reported as an error rather than
/// retried forever.  On success the sink's log grows by exactly `buf[..n]`;
/// on failure, by some prefix of it.
pub(crate) fn write_all(dst: &mut SinkFd, buf: &Vec<u8>, n: usize) -> (r: Result<(), IoError>)
    requires
        n <= buf@.len(),
    ensures
        r matches Ok(()) ==> final(dst).log_view() == old(dst).log_view() + buf@.subrange(
            0,
            n as int,
        ),
        r matches Err(e) ==> e != IoError::InvalidInput && (exists|k: int|
            0 <= k <= n && final(dst).log_view() == old(dst).log_view() + buf@.subrange(0, k)),
{
    proof {
        assert(old(dst).log_view() + buf@.subrange(0, 0) =~= old(dst).log_view());
    }
    let mut start: usize = 0;
    while start < n
        invariant
            start <= n <= buf@.len(),
            dst.log_view() == old(dst).log_view() + buf@.subrange(0, start as int),
        decreases n - start,
    {
        let taken = match write_some(dst, buf, start, n) {
            Ok(taken) => taken,
            Err(e) => return Err(e),
        };
        if taken == 0 {
            return Err(IoError::Other);
        }
        proof {
            assert(old(dst).log_view() + buf@.subrange(0, start as int) + buf@.subrange(
                start as int,
                start as int + taken as int,
            ) =~= old(dst).log_view() + buf@.subrange(0, start as int + taken as int));
        }
        start = start + taken;
    }
    Ok(())
}

/// Streams the source to the end of its stream into the sink and returns
/// how many bytes were moved.  On success the sink's log grows by exactly
/// the bytes the source yielded and the source stands at the end of its
/// stream; on failure the sink gained some prefix of what the source
/// yielded, and nothing else.
pub(crate) fn copy_fd_into(src: &mut SourceFd, dst: &mut SinkFd) -> (r: Result<u64, IoError>)
    ensures
        is_prefix(old(src).log_view(), final(src).log_view()),
        is_prefix(old(dst).log_view(), final(dst).log_view()),
        r matches Ok(total) ==> {
            &&& final(src).at_eof()
            &&& gained_bytes(old(dst).log_view(), final(dst).log_view()) == gained_bytes(
                old(src).log_view(),
                final(src).log_view(),
            )
            &&& total as nat == gained_bytes(old(src).log_view(), final(src).log_view()).len()
        },
        r matches Err(e) ==> e != IoError::InvalidInput && is_prefix(
            gained_bytes(old(dst).log_view(), final(dst).log_view()),
            gained_bytes(old(src).log_view(), final(src).log_view()),
        ),
{
    let mut buf: Vec<u8> = Vec::new();
    while buf.len() < 8192
        invariant
            buf@.len() <= 8192,
        decreases 8192 - buf@.len(),
    {
        buf.push(0);
    }
    proof {
        lemma_prefix_refl(old(src).log_view());
        lemma_prefix_refl(old(dst).log_view());
        lemma_prefix_refl(gained_bytes(old(src).log_view(), old(src).log_view()));
    }
    let mut total: u64 = 0;
    loop
        invariant
            buf@.len() == 8192,
            is_prefix(old(src).log_view(), src.log_view()),
            is_prefix(old(dst).log_view(), dst.log_view()),
            gained_bytes(old(dst).log_view(), dst.log_view()) == gained_bytes(
                old(src).log_view(),
                src.log_view(),
            ),
            total as nat == gained_bytes(old(src).log_view(), src.log_view()).len(),
        decreases u64::MAX - total,
    {
        let ghost src_before = src.log_view();
        let ghost dst_before = dst.log_view();
        let got = match src.read_into(&mut buf) {
            Ok(got) => got,
            Err(e) => {
                proof {
                    lemma_prefix_refl(gained_bytes(old(src).log_view(), src.log_view()));
                }
                return Err(e);
            },
        };
        proof {
            lemma_gained_append(old(src).log_view(), src_before, buf@.subrange(0, got as int));
        }
        if got == 0 {
            proof {
                assert(src_before + buf@.subrange(0, 0) =~= src_before);
                lemma_prefix_refl(gained_bytes(old(src).log_view(), src.log_view()));
            }
            return Ok(total);
        }
        if got as u64 > u64::MAX - total {
            proof {
                assert(buf@.subrange(0, got as int).subrange(0, 0) =~= Seq::<u8>::empty());
                lemma_prefix_append_left(
                    gained_bytes(old(dst).log_view(), dst.log_view()),
                    Seq::empty(),
                    buf@.subrange(0, got as int),
                );
                assert(gained_bytes(old(dst).log_view(), dst.log_view()) + Seq::<u8>::empty()
                    =~= gained_bytes(old(dst).log_view(), dst.log_view()));
            }
            return Err(IoError::Other);
        }
        match write_all(dst, &buf, got) {
            Ok(()) => {
                proof {
                    lemma_gained_append(
                        old(dst).log_view(),
                        dst_before,
                        buf@.subrange(0, got as int),
                    );
                }
            },
            Err(e) => {
                proof {
                    let k = choose|k: int|
                        0 <= k <= got && dst.log_view() == dst_before + buf@.subrange(0, k);
                    lemma_gained_append(old(dst).log_view(), dst_before, buf@.subrange(0, k));
                    assert(buf@.subrange(0, k) =~= buf@.subrange(0, got as int).subrange(0, k));
                    assert(is_prefix(buf@.subrange(0, k), buf@.subrange(0, got as int)));
                    lemma_prefix_append_left(
                        gained_bytes(old(dst).log_view(), dst_before),
                        buf@.subrange(0, k),
                        buf@.subrange(0, got as int),
                    );
                }
                return Err(e);
            },
        }
        total = total + got as u64;
    }
}

} // verus!
