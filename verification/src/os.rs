//! Trusted boundary to the operating system: anonymous-memory and
//! shared-memory calls, the realtime clock, and the length of a mapping.

use vstd::prelude::*;

verus! {

/// Outcome of a failed OS call, reduced to what the retry policies of this
/// crate distinguish.
#[derive(Debug, Clone, Copy, PartialEq, Eq, Structural)]
pub enum OsError {
    /// The call was interrupted by a signal.
    Interrupted,
    /// The kernel does not support the call.
    Unsupported,
    /// The name handed to the call is already taken.
    AlreadyExists,
    /// Any other error, carried as the raw errno value.
    Other(i32),
}

#[verifier::external_type_specification]
#[verifier::external_body]
pub struct ExMmapMut(memmap2::MmapMut);

/// Relies on nix::sys::memfd::memfd_create: on success the result is a fresh
/// close-on-exec, sealable descriptor, and descriptors are non-negative. Its
/// documented errors never include a name collision.
#[verifier::external_body]
pub(crate) fn sys_memfd_create() -> (r: Result<i32, OsError>)
    ensures
        r matches Ok(fd) ==> fd >= 0,
        r matches Err(e) ==> e !is AlreadyExists,
{
    match nix::sys::memfd::memfd_create(
        core::ffi::CStr::from_bytes_with_nul(b"wayshot\0").unwrap(),
        nix::sys::memfd::MemFdCreateFlag::MFD_CLOEXEC
            | nix::sys::memfd::MemFdCreateFlag::MFD_ALLOW_SEALING,
    ) {
        Ok(fd) => Ok(fd),
        Err(nix::errno::Errno::EINTR) => Err(OsError::Interrupted),
        Err(nix::errno::Errno::ENOSYS) => Err(OsError::Unsupported),
        Err(e) => Err(OsError::Other(e as i32)),
    }
}

/// Relies on nix::fcntl::fcntl with F_ADD_SEALS: forbids shrinking the memory
/// object and any further seal changes. Best-effort hardening; the result says
/// only whether the seals took.
#[verifier::external_body]
pub(crate) fn sys_add_seals(fd: i32) -> (r: bool) {
    nix::fcntl::fcntl(
        fd,
        nix::fcntl::FcntlArg::F_ADD_SEALS(
            nix::fcntl::SealFlag::F_SEAL_SHRINK | nix::fcntl::SealFlag::F_SEAL_SEAL,
        ),
    )
    .is_ok()
}

/// Relies on nix::sys::mman::shm_open with create, exclusive, read-write and
/// close-on-exec semantics and owner-only permissions: on success a new
/// shared-memory object of that name exists and the result is its
/// (non-negative) descriptor; a taken name fails the call with EEXIST. Every
/// failure other than a collision or an interruption is surfaced
/// unclassified, never as kernel-unsupported.
#[verifier::external_body]
pub(crate) fn sys_shm_open(name: &str) -> (r: Result<i32, OsError>)
    ensures
        r matches Ok(fd) ==> fd >= 0,
        r matches Err(e) ==> e !is Unsupported,
{
    match nix::sys::mman::shm_open(
        name,
        nix::fcntl::OFlag::O_CREAT | nix::fcntl::OFlag::O_EXCL | nix::fcntl::OFlag::O_RDWR
            | nix::fcntl::OFlag::O_CLOEXEC,
        nix::sys::stat::Mode::S_IRUSR | nix::sys::stat::Mode::S_IWUSR,
    ) {
        Ok(fd) => Ok(fd),
        Err(nix::errno::Errno::EEXIST) => Err(OsError::AlreadyExists),
        Err(nix::errno::Errno::EINTR) => Err(OsError::Interrupted),
        Err(e) => Err(OsError::Other(e as i32)),
    }
}

/// Relies on nix::sys::mman::shm_unlink: on success the name no longer
/// resolves in the shared namespace. Every failure is surfaced unclassified.
#[verifier::external_body]
pub(crate) fn sys_shm_unlink(name: &str) -> (r: Result<(), OsError>)
    ensures
        r matches Err(e) ==> e is Other,
{
    match nix::sys::mman::shm_unlink(name) {
        Ok(()) => Ok(()),
        Err(e) => Err(OsError::Other(e as i32)),
    }
}

/// Relies on nix::unistd::close: releases the descriptor. Every failure is
/// surfaced unclassified.
#[verifier::external_body]
pub(crate) fn sys_close(fd: i32) -> (r: Result<(), OsError>) {
    match nix::unistd::close(fd) {
        Ok(()) => Ok(()),
        Err(e) => Err(OsError::Other(e as i32)),
    }
}

/// Relies on nix::unistd::ftruncate: on success the open file behind `fd` is
/// exactly `len` bytes long.
#[verifier::external_body]
pub(crate) fn sys_ftruncate(fd: i32, len: i64) -> (r: Result<(), OsError>)
    requires
        len >= 0,
{
    match nix::unistd::ftruncate(fd, len) {
        Ok(()) => Ok(()),
        Err(nix::errno::Errno::EINTR) => Err(OsError::Interrupted),
        Err(e) => Err(OsError::Other(e as i32)),
    }
}

/// Relies on nix::time::clock_gettime on the realtime clock: the result is the
/// nanosecond field of the current time, 0 if the clock cannot be read.
#[verifier::external_body]
pub(crate) fn sys_clock_nanos() -> (r: u32) {
    match nix::time::clock_gettime(nix::time::ClockId::CLOCK_REALTIME) {
        Ok(ts) => ts.tv_nsec() as u32,
        Err(_) => 0,
    }
}

/// Relies on the format macro of std: renders `tag` in decimal after `prefix`
/// and a separating dash.
#[verifier::external_body]
pub(crate) fn sys_tagged_name(prefix: &str, tag: u32) -> (r: String) {
    format!("{}-{}", prefix, tag)
}

/// The length in bytes of a memory mapping, as its byte-slice view reports
/// it: fixed when the mapping is made, a function of the mapping alone.
pub uninterp spec fn mmap_len_of(m: memmap2::MmapMut) -> usize;

/// Relies on the byte-slice view of memmap2::MmapMut: the result is the length
/// in bytes of the mapped region.
#[verifier::external_body]
pub(crate) fn mapping_len(m: &memmap2::MmapMut) -> (r: usize)
    ensures
        r == mmap_len_of(*m),
{
    m.len()
}

} // verus!
