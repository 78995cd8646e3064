//! The capture session: a state machine that owns the lifecycle of one
//! capture request, consumes protocol events, allocates and sizes the receive
//! buffer, and exposes a single finished or failed outcome.
//!
//! The compositor connection itself stays outside: the caller feeds each
//! inbound event to [`BufferData::apply_event`] and performs the returned
//! [`SessionAction`] (creating the protocol's pool and buffer objects,
//! requesting the copy, and mapping the descriptor), then hands the mapping
//! back through [`BufferData::attach_mapping`].

use vstd::prelude::*;

use crate::os::{mapping_len, mmap_len_of, sys_close, sys_ftruncate};
use crate::shm::create_shm_fd;

verus! {

/// The lifecycle state of one capture session.
#[derive(Debug, Clone, Copy, PartialEq, Eq, Structural)]
pub enum ScreenCopyState {
    /// The request is issued and the buffer is not yet copied.
    Staging,
    /// Terminal: the buffer contents are valid and readable.
    Finished,
    /// Terminal: no usable buffer.
    Failed,
}

/// A server-defined pixel-format value. Only recognized values are usable;
/// an unrecognized value is a terminal error for the session.
#[derive(Debug, Clone, Copy, PartialEq, Eq, Structural)]
pub enum PixelFormat {
    /// A value the protocol library recognizes, carried as its raw code.
    Recognized(u32),
    /// A value outside the known vocabulary, carried as received.
    Unrecognized(u32),
}

/// One inbound protocol event, reduced to the fields this machine reads.
#[derive(Debug, Clone, Copy, PartialEq, Eq, Structural)]
pub enum FrameEvent {
    /// The server describes the buffer it wants the pixels copied into.
    Buffer { format: PixelFormat, width: u32, height: u32, stride: u32 },
    /// The frame is fully copied; the mapping is now safe to read.
    Ready,
    /// The server could not produce the capture.
    Failed,
    /// Informational only: a damaged region of the output.
    Damage,
    /// Informational only: frame flags.
    Flags,
    /// Informational only: a GPU buffer path is available; not acted upon.
    LinuxDmabuf,
    /// Informational only: buffer negotiation is complete.
    BufferDone,
}

/// What the caller must do next on behalf of the session.
#[derive(Debug, Clone, Copy, PartialEq, Eq, Structural)]
pub enum SessionAction {
    /// Nothing.
    Idle,
    /// Create a memory pool of `size` bytes over `fd`, create a buffer of the
    /// given format and geometry at offset 0 in it, instruct the peer to copy
    /// into that buffer, and map `fd`, handing the mapping back through
    /// [`BufferData::attach_mapping`].
    CopyFrame { fd: i32, size: i32, width: u32, height: u32, stride: u32, format: u32 },
}

/// One capture session: the negotiated buffer geometry, the mapped memory
/// once bound, and the lifecycle state. Created at request issuance, mutated
/// only by event delivery, terminal once finished or failed, not reusable.
pub struct BufferData {
    /// Negotiated buffer width in pixels, from the server's buffer event.
    pub width: u32,
    /// Negotiated buffer height in pixels, from the server's buffer event.
    pub height: u32,
    /// Caller-provided logical width, kept only as passthrough metadata.
    pub realwidth: i32,
    /// Caller-provided logical height, kept only as passthrough metadata.
    pub realheight: i32,
    /// Bytes per row of pixel data, from the same event as `height`.
    pub stride: u32,
    /// Length in bytes of `frame_mmap`, checked when the mapping is attached.
    pub frame_len: usize,
    /// The memory mapping over the transferred pixels, once bound.
    pub frame_mmap: Option<memmap2::MmapMut>,
    /// Whether this session has already allocated its one memory segment.
    pub allocated: bool,
    /// The lifecycle state.
    pub state: ScreenCopyState,
}

/// Whether `s` is a state no transition may leave.
pub open spec fn is_terminal(s: ScreenCopyState) -> bool {
    s is Finished || s is Failed
}

/// The transitions the state machine allows, seen on states alone: a terminal
/// state never changes, `Ready` finishes, a `Failed` event fails, a buffer
/// event either keeps staging or fails (always failing on an unrecognized
/// format), and the informational events change nothing.
pub open spec fn state_step(pre: ScreenCopyState, e: FrameEvent, post: ScreenCopyState) -> bool {
    if is_terminal(pre) {
        post == pre
    } else {
        match e {
            FrameEvent::Ready => post is Finished,
            FrameEvent::Failed => post is Failed,
            FrameEvent::Buffer { format, .. } => {
                &&& post is Staging || post is Failed
                &&& format is Unrecognized ==> post is Failed
            },
            _ => post == pre,
        }
    }
}

impl BufferData {
    /// The data fields of `self` and `other` agree; only the lifecycle state
    /// may differ.
    pub open spec fn data_eq(self, other: BufferData) -> bool {
        &&& self.width == other.width
        &&& self.height == other.height
        &&& self.realwidth == other.realwidth
        &&& self.realheight == other.realheight
        &&& self.stride == other.stride
        &&& self.frame_len == other.frame_len
        &&& self.frame_mmap == other.frame_mmap
        &&& self.allocated == other.allocated
    }

    /// Well-formedness: the sized geometry always fits the protocol's signed
    /// 32-bit byte length, and a bound mapping covers exactly `stride *
    /// height` bytes captured from one buffer event.
    pub open spec fn wf(self) -> bool {
        &&& self.allocated ==> self.stride as int * self.height as int <= i32::MAX as int
        &&& self.frame_mmap is Some ==> {
            &&& self.allocated
            &&& self.frame_len as int == self.stride as int * self.height as int
        }
    }

    /// Everything [`apply_event`](BufferData::apply_event) may do in one step,
    /// as a relation between the session before, the event, the session
    /// after, and the action handed back:
    /// the logical dimensions and the mapping never change here; a session
    /// allocates at most once (`allocated` is monotone, and a copy action is
    /// emitted exactly when the one allocation happens); the lifecycle
    /// follows [`state_step`]; and a buffer event with a recognized format,
    /// on a session that has not yet allocated, records the event's geometry
    /// and either stays staging and hands back the copy action carrying that
    /// exact geometry and a valid descriptor, or fails with no action — and
    /// always fails when `stride * height` overflows the protocol's byte
    /// length.
    pub open spec fn step(pre: BufferData, e: FrameEvent, post: BufferData, a: SessionAction) -> bool {
        &&& post.realwidth == pre.realwidth
        &&& post.realheight == pre.realheight
        &&& post.frame_mmap == pre.frame_mmap
        &&& post.frame_len == pre.frame_len
        &&& pre.allocated ==> post.allocated
        &&& a is CopyFrame ==> !pre.allocated && post.allocated
        &&& state_step(pre.state, e, post.state)
        &&& match e {
            FrameEvent::Ready => post.data_eq(pre) && post.state is Finished && a is Idle,
            FrameEvent::Failed => post.data_eq(pre) && post.state is Failed && a is Idle,
            FrameEvent::Buffer { format, width, height, stride } => {
                match format {
                    PixelFormat::Unrecognized(_) => {
                        post.data_eq(pre) && post.state is Failed && a is Idle
                    },
                    PixelFormat::Recognized(f) => {
                        if pre.allocated {
                            post == pre && a is Idle
                        } else {
                            &&& post.width == width
                            &&& post.height == height
                            &&& post.state is Staging <==> a is CopyFrame
                            &&& post.state is Staging || post.state is Failed
                            &&& stride as int * height as int > i32::MAX as int
                                ==> post.state is Failed
                            &&& post.state is Failed ==> {
                                &&& a is Idle
                                &&& post.stride == pre.stride
                                &&& !post.allocated
                            }
                            &&& post.state is Staging ==> {
                                &&& post.stride == stride
                                &&& post.allocated
                                &&& a matches SessionAction::CopyFrame {
                                        fd,
                                        size,
                                        width: aw,
                                        height: ah,
                                        stride: ast,
                                        format: af,
                                    }
                                    && fd >= 0
                                    && size as int == stride as int * height as int
                                    && aw == width
                                    && ah == height
                                    && ast == stride
                                    && af == f
                            }
                        }
                    },
                }
            },
            _ => post == pre && a is Idle,
        }
    }

    /// A fresh session in the staging state, with the caller's logical
    /// dimensions kept as passthrough metadata and nothing negotiated yet.
    pub fn new(dims: (i32, i32)) -> (r: BufferData)
        ensures
            r.width == 0,
            r.height == 0,
            r.realwidth == dims.0,
            r.realheight == dims.1,
            r.stride == 0,
            r.frame_len == 0,
            r.frame_mmap is None,
            !r.allocated,
            r.state is Staging,
            r.wf(),
    {
        let (realwidth, realheight): (i32, i32) = dims;
        BufferData {
            width: 0,
            height: 0,
            realwidth,
            realheight,
            stride: 0,
            frame_len: 0,
            frame_mmap: None,
            allocated: false,
            state: ScreenCopyState::Staging,
        }
    }

    /// Whether the session has reached a terminal state.
    pub fn finished(&self) -> (r: bool)
        ensures
            r == is_terminal(self.state),
    {
        match self.state {
            ScreenCopyState::Finished => true,
            ScreenCopyState::Failed => true,
            ScreenCopyState::Staging => false,
        }
    }

    /// Consumes one inbound protocol event and hands back what the caller
    /// must do for it. The one allocation happens here, on the first buffer
    /// event with a recognized format: the required byte length is computed
    /// as `stride * height`, the allocator is called and the segment sized to
    /// exactly that length; any failure on the way fails the session. May
    /// only be invoked before the session is terminal.
    pub fn apply_event(&mut self, e: FrameEvent) -> (a: SessionAction)
        requires
            !is_terminal(old(self).state),
            old(self).wf(),
        ensures
            final(self).wf(),
            BufferData::step(*old(self), e, *final(self), a),
    {
        match e {
            FrameEvent::Ready => {
                self.state = ScreenCopyState::Finished;
                SessionAction::Idle
            },
            FrameEvent::Failed => {
                self.state = ScreenCopyState::Failed;
                SessionAction::Idle
            },
            FrameEvent::Buffer { format, width, height, stride } => {
                let f: u32 = match format {
                    PixelFormat::Recognized(f) => f,
                    PixelFormat::Unrecognized(_) => {
                        self.state = ScreenCopyState::Failed;
                        return SessionAction::Idle;
                    },
                };
                if self.allocated {
                    // The session's one segment exists already: nothing to do.
                    return SessionAction::Idle;
                }
                self.width = width;
                self.height = height;
                proof {
                    assert(stride as int * height as int <= u32::MAX as int * u32::MAX as int)
                        by (nonlinear_arith)
                        requires
                            stride as int <= u32::MAX as int,
                            height as int <= u32::MAX as int,
                    ;
                }
                let frame_bytes: u64 = (stride as u64) * (height as u64);
                if frame_bytes > (i32::MAX as u64) {
                    // The protocol carries the pool size as a signed 32-bit
                    // byte length: a larger frame cannot be sized.
                    self.state = ScreenCopyState::Failed;
                    return SessionAction::Idle;
                }
                let fd: i32 = match create_shm_fd() {
                    Ok(fd) => fd,
                    Err(_) => {
                        self.state = ScreenCopyState::Failed;
                        return SessionAction::Idle;
                    },
                };
                if sys_ftruncate(fd, frame_bytes as i64).is_err() {
                    let _ = sys_close(fd);
                    self.state = ScreenCopyState::Failed;
                    return SessionAction::Idle;
                }
                self.stride = stride;
                self.allocated = true;
                SessionAction::CopyFrame {
                    fd,
                    size: frame_bytes as i32,
                    width,
                    height,
                    stride,
                    format: f,
                }
            },
            FrameEvent::Damage => SessionAction::Idle,
            FrameEvent::Flags => SessionAction::Idle,
            FrameEvent::LinuxDmabuf => SessionAction::Idle,
            FrameEvent::BufferDone => SessionAction::Idle,
        }
    }

    /// Binds the mapping the caller made over the allocated segment. The
    /// mapping is accepted exactly when it covers the `stride * height` bytes
    /// sized from the buffer event; any other length fails the session.
    pub fn attach_mapping(&mut self, m: memmap2::MmapMut)
        requires
            old(self).wf(),
            old(self).state is Staging,
            old(self).allocated,
            old(self).frame_mmap is None,
        ensures
            final(self).wf(),
            mmap_len_of(m) as int == old(self).stride as int * old(self).height as int
                ==> final(self).frame_mmap is Some,
            mmap_len_of(m) as int != old(self).stride as int * old(self).height as int
                ==> final(self).frame_mmap is None,
            final(self).width == old(self).width,
            final(self).height == old(self).height,
            final(self).realwidth == old(self).realwidth,
            final(self).realheight == old(self).realheight,
            final(self).stride == old(self).stride,
            final(self).allocated,
            final(self).state is Staging || final(self).state is Failed,
            final(self).frame_mmap is Some ==> {
                &&& final(self).state is Staging
                &&& final(self).frame_mmap == Some(m)
                &&& final(self).frame_len as int
                    == final(self).stride as int * final(self).height as int
            },
            final(self).frame_mmap is None ==> {
                &&& final(self).state is Failed
                &&& final(self).frame_len == old(self).frame_len
            },
    {
        let expected: u64 = (self.stride as u64) * (self.height as u64);
        let len: usize = mapping_len(&m);
        if (len as u64) == expected {
            self.frame_len = len;
            self.frame_mmap = Some(m);
        } else {
            self.state = ScreenCopyState::Failed;
        }
    }

    /// Records that the caller could not map the allocated segment: the
    /// session fails, and nothing else changes.
    pub fn mapping_failed(&mut self)
        requires
            !is_terminal(old(self).state),
        ensures
            final(self).data_eq(*old(self)),
            final(self).state is Failed,
            old(self).wf() ==> final(self).wf(),
    {
        self.state = ScreenCopyState::Failed;
    }
}

/// A run of one session under event delivery: `states` holds the session
/// before and after each event, `events` the events in delivery order, and
/// `actions` what each step handed back; consecutive entries are related by
/// [`BufferData::step`].
pub open spec fn session_run(
    states: Seq<BufferData>,
    events: Seq<FrameEvent>,
    actions: Seq<SessionAction>,
) -> bool {
    &&& states.len() == events.len() + 1
    &&& actions.len() == events.len()
    &&& forall|i: int|
        0 <= i < events.len()
            ==> #[trigger] BufferData::step(states[i], events[i], states[i + 1], actions[i])
}

/// Terminal states are forever: in any run, once the session is terminal,
/// every later point shows that same state. Together with
/// [`lemma_staging_not_revisited`] this says the observed state sequence is a
/// prefix of `Staging … Staging, terminal … terminal`: it never revisits
/// `Staging` and never toggles between terminal states.
pub proof fn lemma_terminal_is_forever(
    states: Seq<BufferData>,
    events: Seq<FrameEvent>,
    actions: Seq<SessionAction>,
    i: int,
    j: int,
)
    requires
        session_run(states, events, actions),
        0 <= i <= j < states.len(),
        is_terminal(states[i].state),
    ensures
        states[j].state == states[i].state,
    decreases j - i,
{
    if i < j {
        lemma_terminal_is_forever(states, events, actions, i, j - 1);
        let k: int = j - 1;
        assert(BufferData::step(states[k], events[k], states[k + 1], actions[k]));
    }
}

/// `Staging` is never re-entered: in any run, a session seen staging was
/// staging at every earlier point as well.
pub proof fn lemma_staging_not_revisited(
    states: Seq<BufferData>,
    events: Seq<FrameEvent>,
    actions: Seq<SessionAction>,
    i: int,
    j: int,
)
    requires
        session_run(states, events, actions),
        0 <= i <= j < states.len(),
        states[j].state is Staging,
    ensures
        states[i].state is Staging,
{
    if !(states[i].state is Staging) {
        lemma_terminal_is_forever(states, events, actions, i, j);
    }
}

/// The session's one allocation is never undone: in any run, once
/// `allocated` holds it holds from then on.
pub proof fn lemma_allocated_is_monotone(
    states: Seq<BufferData>,
    events: Seq<FrameEvent>,
    actions: Seq<SessionAction>,
    i: int,
    j: int,
)
    requires
        session_run(states, events, actions),
        0 <= i <= j < states.len(),
        states[i].allocated,
    ensures
        states[j].allocated,
    decreases j - i,
{
    if i < j {
        lemma_allocated_is_monotone(states, events, actions, i, j - 1);
        let k: int = j - 1;
        assert(BufferData::step(states[k], events[k], states[k + 1], actions[k]));
    }
}

/// At most one memory segment is ever allocated for one session: in any run,
/// no two steps both hand back a copy action.
pub proof fn lemma_at_most_one_allocation(
    states: Seq<BufferData>,
    events: Seq<FrameEvent>,
    actions: Seq<SessionAction>,
    i: int,
    j: int,
)
    requires
        session_run(states, events, actions),
        0 <= i < j < actions.len(),
        actions[i] is CopyFrame,
    ensures
        actions[j] !is CopyFrame,
{
    assert(BufferData::step(states[i], events[i], states[i + 1], actions[i]));
    lemma_allocated_is_monotone(states, events, actions, i + 1, j);
    assert(BufferData::step(states[j], events[j], states[j + 1], actions[j]));
}

/// Every session that bound a mapping has it cover exactly `stride * height`
/// bytes, all three taken from the one buffer event that produced them.
pub proof fn lemma_mapping_length_exact(s: BufferData)
    requires
        s.wf(),
        s.frame_mmap is Some,
    ensures
        s.frame_len as int == s.stride as int * s.height as int,
{
}

} // verus!
