//! The anonymous-memory allocator that backs a transferred pixel buffer.

use vstd::prelude::*;

use crate::os::{
    sys_add_seals, sys_clock_nanos, sys_close, sys_memfd_create, sys_shm_open, sys_shm_unlink,
    sys_tagged_name, OsError,
};

verus! {

/// How often a transient failure (an interrupted call, a name collision) is
/// retried before the allocator gives up. The budget keeps every loop here
/// provably terminating; it is far beyond any plausible run of interruptions
/// or collisions, so in practice the retries behave as unconditional.
pub const RETRY_LIMIT: u64 = 4096;

/// Why an allocator call failed.
#[derive(Debug, Clone, Copy, PartialEq, Eq, Structural)]
pub enum AllocError {
    /// The OS reported an unrecoverable error.
    Failed(OsError),
    /// A transient failure persisted past the retry budget.
    RetriesExhausted,
}

/// Produces a file descriptor backing an anonymous block of memory that can be
/// shared with the compositor.
///
/// The preferred path creates a sealed anonymous memory object; when the
/// kernel does not support that call, the fallback opens a shared-memory
/// object under a name derived from the current time and immediately unlinks
/// the name, so that no other process can discover it. When unlinking fails
/// the descriptor is closed and the unlink error is surfaced. Transient
/// failures are retried here, and an unsupported kernel call is answered by
/// the fallback: an unrecoverable error surfaced to the caller is never an
/// interrupted call, a name collision, nor a kernel-unsupported call.
pub fn create_shm_fd() -> (r: Result<i32, AllocError>)
    ensures
        r matches Ok(fd) ==> fd >= 0,
        r matches Err(AllocError::Failed(e)) ==> e is Other,
{
    match create_memfd() {
        Ok(fd) => Ok(fd),
        Err(AllocError::Failed(OsError::Unsupported)) => create_named_fd(),
        Err(e) => Err(e),
    }
}

/// The preferred path: an anonymous, close-on-exec memory object, sealed
/// against shrinking and further seal changes where the seals take.
fn create_memfd() -> (r: Result<i32, AllocError>)
    ensures
        r matches Ok(fd) ==> fd >= 0,
        r matches Err(AllocError::Failed(e)) ==> e is Unsupported || e is Other,
{
    let mut budget: u64 = RETRY_LIMIT;
    while budget > 0
        decreases budget,
    {
        budget = budget - 1;
        match sys_memfd_create() {
            Ok(fd) => {
                // Advisory only: a sealing failure is not fatal.
                let _ = sys_add_seals(fd);
                return Ok(fd);
            }
            Err(OsError::Interrupted) => {}
            Err(e) => {
                return Err(AllocError::Failed(e));
            }
        }
    }
    Err(AllocError::RetriesExhausted)
}

/// The fallback path: a uniquely named shared-memory object, created with
/// exclusive, owner-only semantics and unlinked from the shared namespace as
/// soon as it is open. When unlinking fails the descriptor is closed and the
/// unlink error is surfaced.
fn create_named_fd() -> (r: Result<i32, AllocError>)
    ensures
        r matches Ok(fd) ==> fd >= 0,
        r matches Err(AllocError::Failed(e)) ==> e is Other,
{
    let mut budget: u64 = RETRY_LIMIT;
    let mut name: String = sys_tagged_name("/wayshot", sys_clock_nanos());
    while budget > 0
        decreases budget,
    {
        budget = budget - 1;
        match sys_shm_open(name.as_str()) {
            Ok(fd) => {
                match sys_shm_unlink(name.as_str()) {
                    Ok(()) => {
                        return Ok(fd);
                    }
                    Err(e) => {
                        let _ = sys_close(fd);
                        return Err(AllocError::Failed(e));
                    }
                }
            }
            Err(OsError::AlreadyExists) => {
                // The name is taken: derive a fresh one from a fresh timestamp.
                name = sys_tagged_name("/wayshot", sys_clock_nanos());
            }
            Err(OsError::Interrupted) => {}
            Err(e) => {
                return Err(AllocError::Failed(e));
            }
        }
    }
    Err(AllocError::RetriesExhausted)
}

} // verus!
