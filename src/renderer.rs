use vstd::prelude::*;

use crate::fence::{signal_step, FrameSync};
use crate::ring::{slot_address, DescriptorHeap};

verus! {

/// How a back buffer is being used.
#[derive(Clone, Copy, PartialEq, Eq, Structural, Debug)]
pub enum BufferState {
    Present,
    RenderTarget,
}

/// A resource-state transition barrier on one back buffer.
#[derive(Clone, Copy, PartialEq, Eq, Structural, Debug)]
pub struct Transition {
    pub buffer: u32,
    pub before: BufferState,
    pub after: BufferState,
}

/// The steps of one frame, in the order in which they are issued.
#[derive(Clone, Copy, PartialEq, Eq, Structural, Debug)]
pub enum FrameStep {
    ResetAllocator,
    ResetList,
    ToRenderTarget,
    Clear,
    ToPresent,
    CloseList,
    Execute,
    Present,
    Signal,
    ReadCompleted,
    Wait,
    ReadIndex,
}

/// Why a frame was abandoned.
#[derive(Clone, Copy, PartialEq, Eq, Structural, Debug)]
pub enum RenderError {
    /// The device reported a failure of this step.
    Step(FrameStep),
    /// The fence counter cannot advance any more.
    FenceExhausted,
    /// The swap chain named a back buffer that does not exist.
    BackBufferIndex(u32),
    /// An event that the outstanding step cannot produce.
    UnexpectedEvent,
    /// An earlier frame failed; the renderer does no more work.
    Faulted,
}

/// What the device layer is asked to do next.
#[derive(Clone, Copy, PartialEq, Eq, Structural, Debug)]
pub enum FrameAction {
    ResetAllocator,
    ResetList,
    Barrier(Transition),
    Clear { buffer: u32, descriptor: usize },
    CloseList,
    Execute,
    Present { sync_interval: u32 },
    Signal { value: u64 },
    ReadCompleted,
    WaitFor { value: u64 },
    ReadIndex,
    Finished,
    Fail(RenderError),
}

/// What the device layer reports back.
#[derive(Clone, Copy, PartialEq, Eq, Structural, Debug)]
pub enum FrameEvent {
    /// A paint request: start a frame.
    Begin,
    /// The last action succeeded.
    Done,
    /// The last action failed.
    Failed,
    /// The fence's completed value, answering `ReadCompleted`.
    Completed(u64),
    /// The swap chain's current back buffer, answering `ReadIndex`.
    Index(u32),
}

/// The step that follows `p` when `p` succeeds and needs no answer.
pub open spec fn after(p: FrameStep) -> FrameStep {
    match p {
        FrameStep::ResetAllocator => FrameStep::ResetList,
        FrameStep::ResetList => FrameStep::ToRenderTarget,
        FrameStep::ToRenderTarget => FrameStep::Clear,
        FrameStep::Clear => FrameStep::ToPresent,
        FrameStep::ToPresent => FrameStep::CloseList,
        FrameStep::CloseList => FrameStep::Execute,
        FrameStep::Execute => FrameStep::Present,
        FrameStep::Present => FrameStep::Signal,
        FrameStep::Signal => FrameStep::ReadCompleted,
        FrameStep::Wait => FrameStep::ReadCompleted,
        FrameStep::ReadCompleted => FrameStep::ReadCompleted,
        FrameStep::ReadIndex => FrameStep::ReadIndex,
    }
}

/// Steps that are answered by a plain `Done`.
pub open spec fn answered_by_done(p: FrameStep) -> bool {
    p != FrameStep::ReadCompleted && p != FrameStep::ReadIndex
}

/// Whether `ev` is an answer that step `p` can get.
pub open spec fn expects(p: FrameStep, ev: FrameEvent) -> bool {
    match ev {
        FrameEvent::Failed => true,
        FrameEvent::Done => answered_by_done(p),
        FrameEvent::Completed(_) => p == FrameStep::ReadCompleted,
        FrameEvent::Index(_) => p == FrameStep::ReadIndex,
        FrameEvent::Begin => false,
    }
}

/// Steps during which the current back buffer is a render target.
pub open spec fn targets_buffer(p: Option<FrameStep>) -> bool {
    p == Some(FrameStep::ToRenderTarget) || p == Some(FrameStep::Clear)
}

/// The frame renderer: the current back buffer, the buffers' states, the
/// fence counter and the step of the frame that is outstanding.
pub struct Renderer {
    pub heap: DescriptorHeap,
    pub frame_index: u32,
    pub states: Vec<BufferState>,
    pub sync: FrameSync,
    /// The value that the current frame signaled.
    pub awaited: u64,
    /// The step that waits for its answer; `None` between frames.
    pub pending: Option<FrameStep>,
    pub faulted: bool,
}

impl Renderer {
    pub open spec fn wf(&self) -> bool {
        &&& self.heap.wf()
        &&& self.frame_index < self.heap.count
        &&& self.states@.len() == self.heap.count
        &&& !self.faulted ==> forall|i: int|
            0 <= i < self.states@.len() ==> #[trigger] self.states@[i] == if i == self.frame_index
                && targets_buffer(self.pending) {
                BufferState::RenderTarget
            } else {
                BufferState::Present
            }
    }

    /// The action with which step `p` is issued.
    pub open spec fn issued(&self, p: FrameStep) -> FrameAction {
        match p {
            FrameStep::ResetAllocator => FrameAction::ResetAllocator,
            FrameStep::ResetList => FrameAction::ResetList,
            FrameStep::ToRenderTarget => FrameAction::Barrier(
                Transition {
                    buffer: self.frame_index,
                    before: BufferState::Present,
                    after: BufferState::RenderTarget,
                },
            ),
            FrameStep::Clear => FrameAction::Clear {
                buffer: self.frame_index,
                descriptor: slot_address(
                    self.heap.base as nat,
                    self.heap.stride as nat,
                    self.frame_index as nat,
                ) as usize,
            },
            FrameStep::ToPresent => FrameAction::Barrier(
                Transition {
                    buffer: self.frame_index,
                    before: BufferState::RenderTarget,
                    after: BufferState::Present,
                },
            ),
            FrameStep::CloseList => FrameAction::CloseList,
            FrameStep::Execute => FrameAction::Execute,
            FrameStep::Present => FrameAction::Present { sync_interval: 1 },
            FrameStep::Signal => FrameAction::Signal { value: self.awaited },
            FrameStep::ReadCompleted => FrameAction::ReadCompleted,
            FrameStep::Wait => FrameAction::WaitFor { value: self.awaited },
            FrameStep::ReadIndex => FrameAction::ReadIndex,
        }
    }

    /// A renderer between frames, every buffer presentable, rendering first
    /// into `frame_index`; `None` when the swap chain has no such buffer.
    pub fn new(heap: DescriptorHeap, frame_index: u32) -> (r: Option<Renderer>)
        requires
            heap.wf(),
        ensures
            r is Some <==> frame_index < heap.count,
            r matches Some(s) ==> {
                &&& s.wf()
                &&& s.heap == heap
                &&& s.frame_index == frame_index
                &&& s.sync.next_value == 1
                &&& s.pending is None
                &&& !s.faulted
            },
    {
        if frame_index >= heap.count {
            return None;
        }
        let mut states: Vec<BufferState> = Vec::new();
        let mut i: u32 = 0;
        while i < heap.count
            invariant
                i <= heap.count,
                states@.len() == i,
                forall|k: int| 0 <= k < i ==> #[trigger] states@[k] == BufferState::Present,
            decreases heap.count - i,
        {
            states.push(BufferState::Present);
            i = i + 1;
        }
        Some(
            Renderer {
                heap,
                frame_index,
                states,
                sync: FrameSync::new(),
                awaited: 0,
                pending: None,
                faulted: false,
            },
        )
    }

    /// The back buffer that the next frame renders into.
    pub fn current_index(&self) -> (r: u32)
        requires
            self.wf(),
        ensures
            r == self.frame_index,
            r < self.heap.count,
    {
        self.frame_index
    }

    fn issue(&self, p: FrameStep) -> (r: FrameAction)
        requires
            self.wf(),
        ensures
            r == self.issued(p),
    {
        match p {
            FrameStep::ResetAllocator => FrameAction::ResetAllocator,
            FrameStep::ResetList => FrameAction::ResetList,
            FrameStep::ToRenderTarget => FrameAction::Barrier(
                Transition {
                    buffer: self.frame_index,
                    before: BufferState::Present,
                    after: BufferState::RenderTarget,
                },
            ),
            FrameStep::Clear => FrameAction::Clear {
                buffer: self.frame_index,
                descriptor: self.heap.slot(self.frame_index),
            },
            FrameStep::ToPresent => FrameAction::Barrier(
                Transition {
                    buffer: self.frame_index,
                    before: BufferState::RenderTarget,
                    after: BufferState::Present,
                },
            ),
            FrameStep::CloseList => FrameAction::CloseList,
            FrameStep::Execute => FrameAction::Execute,
            FrameStep::Present => FrameAction::Present { sync_interval: 1 },
            FrameStep::Signal => FrameAction::Signal { value: self.awaited },
            FrameStep::ReadCompleted => FrameAction::ReadCompleted,
            FrameStep::Wait => FrameAction::WaitFor { value: self.awaited },
            FrameStep::ReadIndex => FrameAction::ReadIndex,
        }
    }

    /// Hands the outcome of the outstanding step (or, between frames, a
    /// paint request) to the renderer and returns what to do next. A frame
    /// runs reset, barrier to render target, clear, barrier back, close,
    /// execute, present, signal, then polls the fence until it has reached
    /// the signaled value, and ends by reading the next back buffer. Any
    /// failure abandons the frame and every later call.
    pub fn step(&mut self, ev: FrameEvent) -> (r: FrameAction)
        requires
            old(self).wf(),
        ensures
            final(self).wf(),
            final(self).heap == old(self).heap,
            final(self).faulted == (old(self).faulted || r is Fail),
            r is Fail ==> *final(self) == (Renderer { faulted: true, ..*old(self) }),
            old(self).faulted ==> r == FrameAction::Fail(RenderError::Faulted),
            !(r is Fail) && !(r is Finished) ==> (final(self).pending matches Some(q) && r
                == final(self).issued(q)),
            // between frames
            !old(self).faulted && old(self).pending is None ==> if ev is Begin {
                &&& final(self).pending == Some(FrameStep::ResetAllocator)
                &&& r == FrameAction::ResetAllocator
                &&& final(self).sync == old(self).sync
                &&& final(self).awaited == old(self).awaited
                &&& final(self).frame_index == old(self).frame_index
            } else {
                r == FrameAction::Fail(RenderError::UnexpectedEvent)
            },
            // within a frame
            !old(self).faulted ==> (old(self).pending matches Some(p) ==> {
                &&& !expects(p, ev) ==> r == FrameAction::Fail(RenderError::UnexpectedEvent)
                &&& ev is Failed ==> r == FrameAction::Fail(RenderError::Step(p))
                &&& ev is Done && answered_by_done(p) ==> if p == FrameStep::Present
                    && old(self).sync.next_value == u64::MAX {
                    r == FrameAction::Fail(RenderError::FenceExhausted)
                } else {
                    &&& final(self).pending == Some(after(p))
                    &&& r == final(self).issued(after(p))
                    &&& final(self).frame_index == old(self).frame_index
                    &&& p == FrameStep::Present ==> signal_step(
                        old(self).sync.next_value as nat,
                        final(self).sync.next_value as nat,
                        final(self).awaited as nat,
                    )
                    &&& p != FrameStep::Present ==> final(self).sync == old(self).sync
                        && final(self).awaited == old(self).awaited
                }
                &&& p == FrameStep::ReadCompleted ==> match ev {
                    FrameEvent::Completed(c) => {
                        &&& final(self).pending == Some(
                            if c >= old(self).awaited {
                                FrameStep::ReadIndex
                            } else {
                                FrameStep::Wait
                            },
                        )
                        &&& r == final(self).issued(final(self).pending->0)
                        &&& final(self).sync == old(self).sync
                        &&& final(self).awaited == old(self).awaited
                        &&& final(self).frame_index == old(self).frame_index
                    },
                    _ => true,
                }
                &&& p == FrameStep::ReadIndex ==> match ev {
                    FrameEvent::Index(i) => if i < old(self).heap.count {
                        &&& r == FrameAction::Finished
                        &&& final(self).pending is None
                        &&& final(self).frame_index == i
                        &&& final(self).sync == old(self).sync
                    } else {
                        r == FrameAction::Fail(RenderError::BackBufferIndex(i))
                    },
                    _ => true,
                }
            }),
            // the back buffer is read only once the fence has reached the
            // signaled value
            final(self).pending == Some(FrameStep::ReadIndex) && old(self).pending != Some(
                FrameStep::ReadIndex,
            ) ==> old(self).pending == Some(FrameStep::ReadCompleted) && match ev {
                FrameEvent::Completed(c) => c >= old(self).awaited,
                _ => false,
            },
            // a frame is presented only once its barriers are paired
            r is Present ==> forall|i: int|
                0 <= i < final(self).states@.len() ==> #[trigger] final(self).states@[i]
                    == BufferState::Present,
            r matches FrameAction::Barrier(t) ==> {
                &&& t.buffer == old(self).frame_index
                &&& t.before == old(self).states@[t.buffer as int]
                &&& t.after == final(self).states@[t.buffer as int]
                &&& t.before != t.after
            },
    {
        if self.faulted {
            return self.fail(RenderError::Faulted);
        }
        match self.pending {
            None => match ev {
                FrameEvent::Begin => {
                    self.pending = Some(FrameStep::ResetAllocator);
                    FrameAction::ResetAllocator
                },
                _ => self.fail(RenderError::UnexpectedEvent),
            },
            Some(p) => match ev {
                FrameEvent::Failed => self.fail(RenderError::Step(p)),
                FrameEvent::Done => match p {
                    FrameStep::ReadCompleted => self.fail(RenderError::UnexpectedEvent),
                    FrameStep::ReadIndex => self.fail(RenderError::UnexpectedEvent),
                    _ => self.advance(p),
                },
                FrameEvent::Completed(c) => match p {
                    FrameStep::ReadCompleted => {
                        let q = if crate::fence::fence_reached(c, self.awaited) {
                            FrameStep::ReadIndex
                        } else {
                            FrameStep::Wait
                        };
                        self.pending = Some(q);
                        self.issue(q)
                    },
                    _ => self.fail(RenderError::UnexpectedEvent),
                },
                FrameEvent::Index(i) => match p {
                    FrameStep::ReadIndex => {
                        if i < self.heap.count {
                            self.frame_index = i;
                            self.pending = None;
                            FrameAction::Finished
                        } else {
                            self.fail(RenderError::BackBufferIndex(i))
                        }
                    },
                    _ => self.fail(RenderError::UnexpectedEvent),
                },
                FrameEvent::Begin => self.fail(RenderError::UnexpectedEvent),
            },
        }
    }

    /// Moves the frame on after `p` succeeded with a plain `Done`.
    fn advance(&mut self, p: FrameStep) -> (r: FrameAction)
        requires
            old(self).wf(),
            !old(self).faulted,
            old(self).pending == Some(p),
            answered_by_done(p),
        ensures
            final(self).wf(),
            final(self).heap == old(self).heap,
            final(self).frame_index == old(self).frame_index,
            p == FrameStep::Present && old(self).sync.next_value == u64::MAX ==> r == FrameAction::Fail(
                RenderError::FenceExhausted,
            ) && *final(self) == (Renderer { faulted: true, ..*old(self) }),
            !(p == FrameStep::Present && old(self).sync.next_value == u64::MAX) ==> {
                &&& final(self).pending == Some(after(p))
                &&& !final(self).faulted
                &&& r == final(self).issued(after(p))
                &&& p == FrameStep::Present ==> signal_step(
                    old(self).sync.next_value as nat,
                    final(self).sync.next_value as nat,
                    final(self).awaited as nat,
                )
                &&& p != FrameStep::Present ==> final(self).sync == old(self).sync
                    && final(self).awaited == old(self).awaited
            },
    {
        let q = match p {
            FrameStep::ResetAllocator => FrameStep::ResetList,
            FrameStep::ResetList => FrameStep::ToRenderTarget,
            FrameStep::ToRenderTarget => FrameStep::Clear,
            FrameStep::Clear => FrameStep::ToPresent,
            FrameStep::ToPresent => FrameStep::CloseList,
            FrameStep::CloseList => FrameStep::Execute,
            FrameStep::Execute => FrameStep::Present,
            FrameStep::Present => FrameStep::Signal,
            FrameStep::Signal => FrameStep::ReadCompleted,
            FrameStep::Wait => FrameStep::ReadCompleted,
            FrameStep::ReadCompleted => FrameStep::ReadCompleted,
            FrameStep::ReadIndex => FrameStep::ReadIndex,
        };
        match q {
            FrameStep::Signal => {
                match self.sync.signal() {
                    Some(v) => {
                        self.awaited = v;
                    },
                    None => {
                        return self.fail(RenderError::FenceExhausted);
                    },
                }
            },
            FrameStep::ToRenderTarget => {
                let fi = self.frame_index as usize;
                self.states.set(fi, BufferState::RenderTarget);
            },
            FrameStep::ToPresent => {
                let fi = self.frame_index as usize;
                self.states.set(fi, BufferState::Present);
            },
            _ => {},
        }
        self.pending = Some(q);
        self.issue(q)
    }

    fn fail(&mut self, e: RenderError) -> (r: FrameAction)
        requires
            old(self).wf(),
        ensures
            final(self).wf(),
            *final(self) == (Renderer { faulted: true, ..*old(self) }),
            r == FrameAction::Fail(e),
    {
        self.faulted = true;
        FrameAction::Fail(e)
    }
}

/// Barriers come in pairs within a frame: when a frame reaches its present,
/// the barrier that made its back buffer a render target has been followed
/// by the one that made it presentable again, so no buffer is left a render
/// target.
pub proof fn lemma_barriers_paired_at_present(r: Renderer)
    requires
        r.wf(),
        !r.faulted,
        r.pending == Some(FrameStep::Present),
    ensures
        forall|i: int| 0 <= i < r.states@.len() ==> #[trigger] r.states@[i] == BufferState::Present,
{
}

} // verus!
