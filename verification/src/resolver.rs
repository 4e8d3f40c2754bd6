//! Resolution of the currently executing binary.
//!
//! The strategy is selected from the kernel's reported system name once per
//! call: the platform families that expose a live virtual path to the
//! running image (`/proc/self/exe` and its relatives) map to that path, and
//! the Solaris family interpolates the current process id.  A platform
//! without such a path yields no strategy and resolution fails.

use vstd::prelude::*;
use vstd::string::*;

use crate::error::{errno_kind, IoError};
use crate::stream::{open_source, SourceFd};

verus! {

/// The platform families the resolution table distinguishes.
#[derive(Clone, Copy, Debug, PartialEq, Eq, Structural)]
pub enum Platform {
    /// Linux: `/proc/self/exe`.
    Linux,
    /// Android runs a Linux kernel and shares its virtual path.
    Android,
    /// DragonFly BSD: `/proc/curproc/file`.
    DragonFly,
    /// NetBSD: `/proc/curproc/exe`.
    NetBsd,
    /// Solaris: `/proc/<pid>/path/a.out`.
    Solaris,
    /// Every other platform, for which no virtual self path is known.
    Other,
}

/// The decimal digits of `n` as ASCII bytes, most significant first.
pub open spec fn decimal_bytes(n: nat) -> Seq<u8>
    decreases n,
{
    if n < 10 {
        seq![(n + 0x30) as u8]
    } else {
        decimal_bytes(n / 10).push((n % 10 + 0x30) as u8)
    }
}

/// The decimal representation of `n`, most significant digit first.
pub open spec fn decimal_rep(n: nat) -> Seq<char> {
    Seq::new(decimal_bytes(n).len(), |i: int| decimal_bytes(n)[i] as char)
}

/// Every byte of a decimal representation is an ASCII digit.
proof fn lemma_decimal_bytes_ascii(n: nat)
    ensures
        forall|i: int|
            0 <= i < decimal_bytes(n).len() ==> 0x30 <= #[trigger] decimal_bytes(n)[i] <= 0x39,
    decreases n,
{
    if n < 10 {
        assert(decimal_bytes(n) == seq![(n + 0x30) as u8]);
        assert(decimal_bytes(n)[0] == (n + 0x30) as u8);
    } else {
        lemma_decimal_bytes_ascii(n / 10);
        assert(decimal_bytes(n) == decimal_bytes(n / 10).push((n % 10 + 0x30) as u8));
        assert(forall|i: int|
            0 <= i < decimal_bytes(n / 10).len() ==> decimal_bytes(n)[i] == #[trigger] decimal_bytes(
                n / 10,
            )[i]);
    }
}

/// Appends the decimal digits of `n` to `out`.
fn push_decimal_bytes(n: u64, out: &mut Vec<u8>)
    ensures
        final(out)@ == old(out)@ + decimal_bytes(n as nat),
    decreases n,
{
    if n < 10 {
        out.push((n as u8) + 0x30);
        assert(final(out)@ =~= old(out)@ + decimal_bytes(n as nat));
    } else {
        push_decimal_bytes(n / 10, out);
        out.push(((n % 10) as u8) + 0x30);
        assert(final(out)@ =~= old(out)@ + decimal_bytes(n as nat));
    }
}

/// Relies on `String::from_utf8_lossy`: bytes below 0x80 are single-byte
/// UTF-8 sequences, so an all-ASCII byte vector decodes to exactly those
/// characters.
#[verifier::external_body]
fn ascii_string(bytes: &Vec<u8>) -> (r: String)
    requires
        forall|i: int| 0 <= i < bytes@.len() ==> bytes@[i] < 0x80,
    ensures
        r@.len() == bytes@.len(),
        forall|i: int| 0 <= i < bytes@.len() ==> r@[i] == bytes@[i] as char,
{
    String::from_utf8_lossy(bytes).into_owned()
}

/// Formats `n` in decimal.
pub fn u64_to_decimal(n: u64) -> (r: String)
    ensures
        r@ == decimal_rep(n as nat),
{
    let mut digits: Vec<u8> = Vec::new();
    push_decimal_bytes(n, &mut digits);
    proof {
        lemma_decimal_bytes_ascii(n as nat);
        assert(digits@ =~= decimal_bytes(n as nat));
    }
    let r = ascii_string(&digits);
    proof {
        assert(r@ =~= decimal_rep(n as nat));
    }
    r
}

/// Compares two string slices by contents.
pub fn str_eq(a: &str, b: &str) -> (r: bool)
    ensures
        r == (a@ == b@),
{
    let sa = String::from_str(a);
    let sb = String::from_str(b);
    sa == sb
}

/// The platform family the given kernel system name belongs to.  Android
/// kernels report "Linux", so the two share one row of the table.
pub open spec fn platform_of_sysname(name: Seq<char>) -> Platform {
    if name == "Linux"@ {
        Platform::Linux
    } else if name == "DragonFly"@ {
        Platform::DragonFly
    } else if name == "NetBSD"@ {
        Platform::NetBsd
    } else if name == "SunOS"@ {
        Platform::Solaris
    } else {
        Platform::Other
    }
}

/// Maps a kernel system name, as `uname` reports it, to a platform family.
pub fn platform_from_sysname(name: &str) -> (p: Platform)
    ensures
        p == platform_of_sysname(name@),
{
    if str_eq(name, "Linux") {
        Platform::Linux
    } else if str_eq(name, "DragonFly") {
        Platform::DragonFly
    } else if str_eq(name, "NetBSD") {
        Platform::NetBsd
    } else if str_eq(name, "SunOS") {
        Platform::Solaris
    } else {
        Platform::Other
    }
}

/// The virtual self path of the Solaris family for process id `pid`.
pub open spec fn solaris_self_path(pid: nat) -> Seq<char> {
    "/proc/"@ + decimal_rep(pid) + "/path/a.out"@
}

/// The virtual path under which `platform` exposes the running binary, if
/// the platform has one.
pub open spec fn strategy_path(platform: Platform, pid: nat) -> Option<Seq<char>> {
    match platform {
        Platform::Linux => Some("/proc/self/exe"@),
        Platform::Android => Some("/proc/self/exe"@),
        Platform::DragonFly => Some("/proc/curproc/file"@),
        Platform::NetBsd => Some("/proc/curproc/exe"@),
        Platform::Solaris => Some(solaris_self_path(pid)),
        Platform::Other => None,
    }
}

/// The resolution table: the virtual path to the running binary on
/// `platform`, with `pid` interpolated where the platform calls for it.
pub fn virtual_self_path(platform: Platform, pid: u64) -> (r: Option<String>)
    ensures
        r matches Some(p) ==> strategy_path(platform, pid as nat) == Some(p@),
        r is None <==> strategy_path(platform, pid as nat) is None,
{
    match platform {
        Platform::Linux => Some(String::from_str("/proc/self/exe")),
        Platform::Android => Some(String::from_str("/proc/self/exe")),
        Platform::DragonFly => Some(String::from_str("/proc/curproc/file")),
        Platform::NetBsd => Some(String::from_str("/proc/curproc/exe")),
        Platform::Solaris => {
            let mut p = String::from_str("/proc/");
            p.append(u64_to_decimal(pid).as_str());
            p.append("/path/a.out");
            proof {
                assert(p@ =~= solaris_self_path(pid as nat));
            }
            Some(p)
        },
        Platform::Other => None,
    }
}

/// Relies on `nix::sys::utsname::uname`: returns the kernel's reported
/// system name.  The value depends on the machine, so nothing is stated of
/// it; failures keep `IoError::InvalidInput` reserved for path validation.
#[verifier::external_body]
fn system_name() -> (r: Result<String, IoError>)
    ensures
        r matches Err(e) ==> e != IoError::InvalidInput,
{
    match nix::sys::utsname::uname() {
        Ok(u) => Ok(u.sysname().to_string_lossy().into_owned()),
        Err(e) => Err(errno_kind(e)),
    }
}

/// Relies on `nix::unistd::getpid`: it always succeeds, and POSIX process
/// ids are positive values of a 32-bit signed type.
#[verifier::external_body]
fn process_id() -> (r: u64)
    ensures
        0 < r < 0x8000_0000,
{
    nix::unistd::getpid().as_raw() as u64
}

/// Relies on `nix::fcntl::readlink`: returns the target the symbolic link
/// at `path` points to.  The target depends on the machine, so nothing is
/// stated of its contents.
#[verifier::external_body]
fn read_link(path: &str) -> (r: Result<String, IoError>)
    ensures
        r matches Err(e) ==> e != IoError::InvalidInput,
{
    match nix::fcntl::readlink(path) {
        Ok(target) => Ok(target.to_string_lossy().into_owned()),
        Err(e) => Err(errno_kind(e)),
    }
}

/// `p` is a path the resolution table can produce for some supported
/// platform.
pub open spec fn is_strategy_path(p: Seq<char>) -> bool {
    exists|platform: Platform, pid: nat|
        platform != Platform::Other && #[trigger] strategy_path(platform, pid) == Some(p)
}

/// Returns the path of the currently running executable: the virtual self
/// path of the platform the kernel reports.  On a platform without one the
/// resolution fails with `IoError::Other`.
pub fn exe_path() -> (r: Result<String, IoError>)
    ensures
        r matches Ok(p) ==> is_strategy_path(p@),
        r matches Err(e) ==> e != IoError::InvalidInput,
{
    let sysname = match system_name() {
        Ok(n) => n,
        Err(e) => return Err(e),
    };
    let platform = platform_from_sysname(sysname.as_str());
    let pid = process_id();
    match virtual_self_path(platform, pid) {
        Some(p) => {
            proof {
                assert(platform != Platform::Other
                    && strategy_path(platform, pid as nat) == Some(p@));
            }
            Ok(p)
        },
        None => Err(IoError::Other),
    }
}

/// Returns an open read-only stream of the currently running executable,
/// by resolving its path anew and opening it.
pub fn exe() -> (r: Result<SourceFd, IoError>)
    ensures
        r matches Ok(s) ==> s.log_view() == Seq::<u8>::empty() && !s.at_eof(),
        r matches Err(e) ==> e != IoError::InvalidInput,
{
    let p = match exe_path() {
        Ok(p) => p,
        Err(e) => return Err(e),
    };
    open_source(p.as_str())
}

/// Resolves the real filesystem path of the running binary by reading the
/// virtual self link.
pub(crate) fn current_exe_path() -> (r: Result<String, IoError>)
    ensures
        r matches Err(e) ==> e != IoError::InvalidInput,
{
    let p = match exe_path() {
        Ok(p) => p,
        Err(e) => return Err(e),
    };
    read_link(p.as_str())
}

} // verus!
