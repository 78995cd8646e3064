//! The session driver's decisions: which capture request to issue, and how a
//! terminal session becomes the caller's result. Issuing the request and
//! pumping the event channel are the caller's work, outside this crate.

use vstd::prelude::*;

use crate::session::{is_terminal, BufferData, ScreenCopyState};

verus! {

/// The one capture request a session issues at its start.
#[derive(Debug, Clone, Copy, PartialEq, Eq, Structural)]
pub enum CaptureRequest {
    /// Capture the whole output.
    WholeOutput,
    /// Capture the given sub-region, in output-local coordinates.
    Region { x: i32, y: i32, width: i32, height: i32 },
}

/// Chooses the one capture request to issue: the whole output when no region
/// is given, and exactly the given region otherwise — never both.
pub fn plan_request(region: Option<(i32, i32, i32, i32)>) -> (r: CaptureRequest)
    ensures
        region is None ==> r is WholeOutput,
        region matches Some(t)
            ==> r == (CaptureRequest::Region { x: t.0, y: t.1, width: t.2, height: t.3 }),
{
    match region {
        None => CaptureRequest::WholeOutput,
        Some((x, y, width, height)) => CaptureRequest::Region { x, y, width, height },
    }
}

/// Converts a terminal session into the caller's result: the session itself,
/// buffer and all, when it finished with a bound mapping, and nothing at all
/// otherwise. A failed session, and a session the peer finished without ever
/// describing a buffer, yield no result: the caller receives either a fully
/// sized buffer or nothing — never a partial one.
pub fn take_result(session: BufferData) -> (r: Option<BufferData>)
    requires
        is_terminal(session.state),
        session.wf(),
    ensures
        r is Some <==> session.state is Finished && session.frame_mmap is Some,
        r matches Some(b) ==> {
            &&& b == session
            &&& b.frame_mmap is Some
            &&& b.frame_len as int == b.stride as int * b.height as int
        },
{
    match session.state {
        ScreenCopyState::Finished => {
            if session.frame_mmap.is_some() {
                Some(session)
            } else {
                None
            }
        },
        _ => None,
    }
}

} // verus!
