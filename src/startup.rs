use vstd::prelude::*;

use crate::renderer::Renderer;
use crate::ring::{slot_address, DescriptorHeap, MAX_FRAME_COUNT, MIN_FRAME_COUNT};

verus! {

/// The steps of bringing up the device, the swap chain and the command and
/// fence objects, in the order in which they are issued.
#[derive(Clone, Copy, PartialEq, Eq, Structural, Debug)]
pub enum InitStep {
    RequestDebugLayer,
    CreateFactory,
    CreateDevice,
    CreateQueue,
    CreateSwapChain,
    DisableAltEnter,
    ReadIndex,
    CreateHeap,
    ReadHeapLayout,
    CreateTarget,
    CreateAllocator,
    CreateList,
    CloseList,
    CreateFence,
    CreateEvent,
}

/// Why start-up failed.
#[derive(Clone, Copy, PartialEq, Eq, Structural, Debug)]
pub enum StartupError {
    /// No usable adapter, or the device could not make one of its objects.
    DeviceCreation(InitStep),
    /// The swap chain could not be made or bound to the window.
    SwapChain(InitStep),
    /// The swap chain named a back buffer that does not exist.
    BackBufferIndex(u32),
    /// The descriptor heap would run past the end of the address space.
    DescriptorRange,
    /// A swap chain cannot have this many back buffers.
    FrameCount(u32),
    /// An event that the outstanding step cannot produce.
    UnexpectedEvent,
    /// An earlier step failed; nothing more is created.
    Faulted,
}

/// What the device layer is asked to do next.
#[derive(Clone, Copy, PartialEq, Eq, Structural, Debug)]
pub enum InitAction {
    /// Ask for the validation layer and, if it exists, enable it.
    RequestDebugLayer,
    CreateFactory { debug: bool },
    CreateDevice,
    CreateQueue,
    CreateSwapChain { width: u32, height: u32, buffer_count: u32 },
    DisableAltEnter,
    ReadIndex,
    CreateHeap { count: u32 },
    /// Read the heap's first address and the device's descriptor stride.
    ReadHeapLayout,
    /// Fetch back buffer `index` and write its view into `descriptor`.
    CreateTarget { index: u32, descriptor: usize },
    CreateAllocator,
    /// Create the command list; it starts recording.
    CreateList,
    CloseList,
    CreateFence { initial: u64 },
    CreateEvent,
    Ready,
    Fail(StartupError),
}

/// What the device layer reports back.
#[derive(Clone, Copy, PartialEq, Eq, Structural, Debug)]
pub enum InitEvent {
    Begin,
    Done,
    Failed,
    /// The swap chain's current back buffer, answering `ReadIndex`.
    Index(u32),
    /// The heap's first address and stride, answering `ReadHeapLayout`.
    Layout { base: usize, stride: usize },
}

/// Position of a step in the start-up order.
pub open spec fn rank(p: InitStep) -> nat {
    match p {
        InitStep::RequestDebugLayer => 0,
        InitStep::CreateFactory => 1,
        InitStep::CreateDevice => 2,
        InitStep::CreateQueue => 3,
        InitStep::CreateSwapChain => 4,
        InitStep::DisableAltEnter => 5,
        InitStep::ReadIndex => 6,
        InitStep::CreateHeap => 7,
        InitStep::ReadHeapLayout => 8,
        InitStep::CreateTarget => 9,
        InitStep::CreateAllocator => 10,
        InitStep::CreateList => 11,
        InitStep::CloseList => 12,
        InitStep::CreateFence => 13,
        InitStep::CreateEvent => 14,
    }
}

/// The step after `p` where `p` is answered by a plain `Done` and is not
/// the last back buffer's view or the event.
pub open spec fn init_after(p: InitStep) -> InitStep {
    match p {
        InitStep::RequestDebugLayer => InitStep::CreateFactory,
        InitStep::CreateFactory => InitStep::CreateDevice,
        InitStep::CreateDevice => InitStep::CreateQueue,
        InitStep::CreateQueue => InitStep::CreateSwapChain,
        InitStep::CreateSwapChain => InitStep::DisableAltEnter,
        InitStep::DisableAltEnter => InitStep::ReadIndex,
        InitStep::ReadIndex => InitStep::CreateHeap,
        InitStep::CreateHeap => InitStep::ReadHeapLayout,
        InitStep::ReadHeapLayout => InitStep::CreateTarget,
        InitStep::CreateTarget => InitStep::CreateAllocator,
        InitStep::CreateAllocator => InitStep::CreateList,
        InitStep::CreateList => InitStep::CloseList,
        InitStep::CloseList => InitStep::CreateFence,
        InitStep::CreateFence => InitStep::CreateEvent,
        InitStep::CreateEvent => InitStep::CreateEvent,
    }
}

/// The error that a failure of step `p` is reported as.
pub open spec fn failure_of(p: InitStep) -> StartupError {
    match p {
        InitStep::CreateSwapChain => StartupError::SwapChain(p),
        InitStep::DisableAltEnter => StartupError::SwapChain(p),
        InitStep::ReadIndex => StartupError::SwapChain(p),
        InitStep::CreateTarget => StartupError::SwapChain(p),
        _ => StartupError::DeviceCreation(p),
    }
}

/// Whether `ev` is an answer that step `p` can get.
pub open spec fn init_expects(p: InitStep, ev: InitEvent) -> bool {
    match ev {
        InitEvent::Failed => true,
        InitEvent::Done => p != InitStep::ReadIndex && p != InitStep::ReadHeapLayout,
        InitEvent::Index(_) => p == InitStep::ReadIndex,
        InitEvent::Layout { .. } => p == InitStep::ReadHeapLayout,
        InitEvent::Begin => false,
    }
}

/// Start-up of the device context, the frame buffer ring, the command
/// pipeline and the fence, one outside call at a time.
pub struct Startup {
    pub width: u32,
    pub height: u32,
    pub frame_count: u32,
    /// Whether the validation layer was enabled.
    pub debug: bool,
    /// The back buffer that the swap chain named first.
    pub frame_index: u32,
    pub heap: Option<DescriptorHeap>,
    /// The back buffer whose view is being written.
    pub next_target: u32,
    /// The step that waits for its answer; `None` before the start and once
    /// everything exists.
    pub pending: Option<InitStep>,
    pub ready: bool,
    pub faulted: bool,
}

impl Startup {
    pub open spec fn wf(&self) -> bool {
        &&& MIN_FRAME_COUNT <= self.frame_count <= MAX_FRAME_COUNT
        &&& self.frame_index < self.frame_count
        &&& self.heap matches Some(h) ==> h.wf() && h.count == self.frame_count
        &&& self.ready ==> self.pending is None
        &&& self.heap is Some <==> (self.ready || (self.pending matches Some(p) && rank(p) >= rank(
            InitStep::CreateTarget,
        )))
        &&& self.next_target < self.frame_count
    }

    /// The action with which step `p` is issued.
    pub open spec fn issued(&self, p: InitStep) -> InitAction {
        match p {
            InitStep::RequestDebugLayer => InitAction::RequestDebugLayer,
            InitStep::CreateFactory => InitAction::CreateFactory { debug: self.debug },
            InitStep::CreateDevice => InitAction::CreateDevice,
            InitStep::CreateQueue => InitAction::CreateQueue,
            InitStep::CreateSwapChain => InitAction::CreateSwapChain {
                width: self.width,
                height: self.height,
                buffer_count: self.frame_count,
            },
            InitStep::DisableAltEnter => InitAction::DisableAltEnter,
            InitStep::ReadIndex => InitAction::ReadIndex,
            InitStep::CreateHeap => InitAction::CreateHeap { count: self.frame_count },
            InitStep::ReadHeapLayout => InitAction::ReadHeapLayout,
            InitStep::CreateTarget => InitAction::CreateTarget {
                index: self.next_target,
                descriptor: slot_address(
                    self.heap->0.base as nat,
                    self.heap->0.stride as nat,
                    self.next_target as nat,
                ) as usize,
            },
            InitStep::CreateAllocator => InitAction::CreateAllocator,
            InitStep::CreateList => InitAction::CreateList,
            InitStep::CloseList => InitAction::CloseList,
            InitStep::CreateFence => InitAction::CreateFence { initial: 0 },
            InitStep::CreateEvent => InitAction::CreateEvent,
        }
    }

    /// Start-up for a window of `width` by `height` with `frame_count` back
    /// buffers; nothing has been asked of the device yet.
    pub fn new(width: u32, height: u32, frame_count: u32) -> (r: Result<Startup, StartupError>)
        ensures
            r is Ok <==> MIN_FRAME_COUNT <= frame_count <= MAX_FRAME_COUNT,
            r is Err ==> r == Err::<Startup, StartupError>(StartupError::FrameCount(frame_count)),
            r matches Ok(s) ==> {
                &&& s.wf()
                &&& s.width == width
                &&& s.height == height
                &&& s.frame_count == frame_count
                &&& s.pending is None
                &&& !s.ready
                &&& !s.faulted
            },
    {
        if frame_count < MIN_FRAME_COUNT || frame_count > MAX_FRAME_COUNT {
            return Err(StartupError::FrameCount(frame_count));
        }
        Ok(
            Startup {
                width,
                height,
                frame_count,
                debug: false,
                frame_index: 0,
                heap: None,
                next_target: 0,
                pending: None,
                ready: false,
                faulted: false,
            },
        )
    }

    /// Hands the outcome of the outstanding step (or the request to start)
    /// to start-up and returns what to do next. The validation layer is
    /// asked for before anything else exists, and its absence only leaves
    /// the factory without debugging; any other failure ends start-up, and
    /// nothing further is created.
    pub fn step(&mut self, ev: InitEvent) -> (r: InitAction)
        requires
            old(self).wf(),
        ensures
            final(self).wf(),
            final(self).width == old(self).width,
            final(self).height == old(self).height,
            final(self).frame_count == old(self).frame_count,
            final(self).faulted == (old(self).faulted || r is Fail),
            r is Fail ==> *final(self) == (Startup { faulted: true, ..*old(self) }),
            old(self).faulted ==> r == InitAction::Fail(StartupError::Faulted),
            !(r is Fail) && !(r is Ready) ==> (final(self).pending matches Some(q) && r
                == final(self).issued(q)),
            r is Ready ==> final(self).ready && final(self).pending is None,
            old(self).heap is Some ==> final(self).heap == old(self).heap,
            old(self).pending != Some(InitStep::ReadIndex) ==> final(self).frame_index == old(
                self,
            ).frame_index,
            old(self).pending != Some(InitStep::RequestDebugLayer) ==> final(self).debug == old(
                self,
            ).debug,
            !old(self).faulted && old(self).pending is None ==> if ev is Begin && !old(self).ready {
                &&& final(self).pending == Some(InitStep::RequestDebugLayer)
                &&& r == InitAction::RequestDebugLayer
            } else {
                r == InitAction::Fail(StartupError::UnexpectedEvent)
            },
            !old(self).faulted ==> (old(self).pending matches Some(p) ==> {
                &&& !init_expects(p, ev) ==> r == InitAction::Fail(StartupError::UnexpectedEvent)
                &&& p == InitStep::RequestDebugLayer && (ev is Done || ev is Failed) ==> {
                    &&& final(self).debug == (ev is Done)
                    &&& final(self).pending == Some(InitStep::CreateFactory)
                    &&& r == InitAction::CreateFactory { debug: ev is Done }
                }
                &&& p != InitStep::RequestDebugLayer && ev is Failed ==> r == InitAction::Fail(
                    failure_of(p),
                )
                &&& ev is Done && init_expects(p, ev) && p != InitStep::CreateTarget && p
                    != InitStep::CreateEvent ==> {
                    &&& final(self).pending == Some(init_after(p))
                    &&& r == final(self).issued(init_after(p))
                    &&& final(self).frame_index == old(self).frame_index
                }
                &&& p == InitStep::CreateTarget && ev is Done ==> if old(self).next_target + 1
                    < old(self).frame_count {
                    &&& final(self).pending == Some(InitStep::CreateTarget)
                    &&& final(self).next_target == old(self).next_target + 1
                    &&& r == final(self).issued(InitStep::CreateTarget)
                } else {
                    &&& final(self).pending == Some(InitStep::CreateAllocator)
                    &&& r == InitAction::CreateAllocator
                }
                &&& p == InitStep::CreateEvent && ev is Done ==> r == InitAction::Ready
                &&& p == InitStep::ReadIndex ==> match ev {
                    InitEvent::Index(i) => if i < old(self).frame_count {
                        &&& final(self).frame_index == i
                        &&& final(self).pending == Some(InitStep::CreateHeap)
                        &&& r == InitAction::CreateHeap { count: old(self).frame_count }
                    } else {
                        r == InitAction::Fail(StartupError::BackBufferIndex(i))
                    },
                    _ => true,
                }
                &&& p == InitStep::ReadHeapLayout ==> match ev {
                    InitEvent::Layout { base, stride } => if slot_address(
                        base as nat,
                        stride as nat,
                        old(self).frame_count as nat,
                    ) <= usize::MAX {
                        &&& final(self).heap == Some(
                            DescriptorHeap { base, stride, count: old(self).frame_count },
                        )
                        &&& final(self).next_target == 0
                        &&& final(self).pending == Some(InitStep::CreateTarget)
                        &&& r == final(self).issued(InitStep::CreateTarget)
                    } else {
                        r == InitAction::Fail(StartupError::DescriptorRange)
                    },
                    _ => true,
                }
            }),
    {
        if self.faulted {
            return self.fail(StartupError::Faulted);
        }
        let p = match self.pending {
            None => {
                return match ev {
                    InitEvent::Begin => if self.ready {
                        self.fail(StartupError::UnexpectedEvent)
                    } else {
                        self.pending = Some(InitStep::RequestDebugLayer);
                        InitAction::RequestDebugLayer
                    },
                    _ => self.fail(StartupError::UnexpectedEvent),
                };
            },
            Some(p) => p,
        };
        match ev {
            InitEvent::Begin => self.fail(StartupError::UnexpectedEvent),
            InitEvent::Failed => match p {
                InitStep::RequestDebugLayer => {
                    self.debug = false;
                    self.pending = Some(InitStep::CreateFactory);
                    self.issue(InitStep::CreateFactory)
                },
                InitStep::CreateSwapChain => self.fail(StartupError::SwapChain(p)),
                InitStep::DisableAltEnter => self.fail(StartupError::SwapChain(p)),
                InitStep::ReadIndex => self.fail(StartupError::SwapChain(p)),
                InitStep::CreateTarget => self.fail(StartupError::SwapChain(p)),
                _ => self.fail(StartupError::DeviceCreation(p)),
            },
            InitEvent::Done => match p {
                InitStep::ReadIndex => self.fail(StartupError::UnexpectedEvent),
                InitStep::ReadHeapLayout => self.fail(StartupError::UnexpectedEvent),
                InitStep::RequestDebugLayer => {
                    self.debug = true;
                    self.pending = Some(InitStep::CreateFactory);
                    self.issue(InitStep::CreateFactory)
                },
                InitStep::CreateTarget => {
                    if self.next_target + 1 < self.frame_count {
                        self.next_target = self.next_target + 1;
                        self.pending = Some(InitStep::CreateTarget);
                        self.issue(InitStep::CreateTarget)
                    } else {
                        self.pending = Some(InitStep::CreateAllocator);
                        InitAction::CreateAllocator
                    }
                },
                InitStep::CreateEvent => {
                    self.pending = None;
                    self.ready = true;
                    InitAction::Ready
                },
                _ => {
                    let q = match p {
                        InitStep::CreateFactory => InitStep::CreateDevice,
                        InitStep::CreateDevice => InitStep::CreateQueue,
                        InitStep::CreateQueue => InitStep::CreateSwapChain,
                        InitStep::CreateSwapChain => InitStep::DisableAltEnter,
                        InitStep::DisableAltEnter => InitStep::ReadIndex,
                        InitStep::CreateHeap => InitStep::ReadHeapLayout,
                        InitStep::CreateAllocator => InitStep::CreateList,
                        InitStep::CreateList => InitStep::CloseList,
                        InitStep::CloseList => InitStep::CreateFence,
                        _ => InitStep::CreateEvent,
                    };
                    self.pending = Some(q);
                    self.issue(q)
                },
            },
            InitEvent::Index(i) => match p {
                InitStep::ReadIndex => if i < self.frame_count {
                    self.frame_index = i;
                    self.pending = Some(InitStep::CreateHeap);
                    self.issue(InitStep::CreateHeap)
                } else {
                    self.fail(StartupError::BackBufferIndex(i))
                },
                _ => self.fail(StartupError::UnexpectedEvent),
            },
            InitEvent::Layout { base, stride } => match p {
                InitStep::ReadHeapLayout => match DescriptorHeap::new(base, stride, self.frame_count) {
                    Some(h) => {
                        self.heap = Some(h);
                        self.next_target = 0;
                        self.pending = Some(InitStep::CreateTarget);
                        self.issue(InitStep::CreateTarget)
                    },
                    None => self.fail(StartupError::DescriptorRange),
                },
                _ => self.fail(StartupError::UnexpectedEvent),
            },
        }
    }

    /// The frame renderer over what start-up created; `None` until start-up
    /// has finished.
    pub fn renderer(&self) -> (r: Option<Renderer>)
        requires
            self.wf(),
        ensures
            r is Some <==> self.ready && !self.faulted,
            r matches Some(s) ==> {
                &&& s.wf()
                &&& s.heap == self.heap->0
                &&& s.frame_index == self.frame_index
                &&& s.sync.next_value == 1
                &&& s.pending is None
                &&& !s.faulted
            },
    {
        if !self.ready || self.faulted {
            return None;
        }
        match &self.heap {
            Some(h) => Renderer::new(*h, self.frame_index),
            None => None,
        }
    }

    fn issue(&self, p: InitStep) -> (r: InitAction)
        requires
            self.wf(),
            p == InitStep::CreateTarget ==> self.heap is Some,
        ensures
            r == self.issued(p),
    {
        match p {
            InitStep::RequestDebugLayer => InitAction::RequestDebugLayer,
            InitStep::CreateFactory => InitAction::CreateFactory { debug: self.debug },
            InitStep::CreateDevice => InitAction::CreateDevice,
            InitStep::CreateQueue => InitAction::CreateQueue,
            InitStep::CreateSwapChain => InitAction::CreateSwapChain {
                width: self.width,
                height: self.height,
                buffer_count: self.frame_count,
            },
            InitStep::DisableAltEnter => InitAction::DisableAltEnter,
            InitStep::ReadIndex => InitAction::ReadIndex,
            InitStep::CreateHeap => InitAction::CreateHeap { count: self.frame_count },
            InitStep::ReadHeapLayout => InitAction::ReadHeapLayout,
            InitStep::CreateTarget => {
                let descriptor = match &self.heap {
                    Some(h) => h.slot(self.next_target),
                    None => 0,
                };
                InitAction::CreateTarget { index: self.next_target, descriptor }
            },
            InitStep::CreateAllocator => InitAction::CreateAllocator,
            InitStep::CreateList => InitAction::CreateList,
            InitStep::CloseList => InitAction::CloseList,
            InitStep::CreateFence => InitAction::CreateFence { initial: 0 },
            InitStep::CreateEvent => InitAction::CreateEvent,
        }
    }

    fn fail(&mut self, e: StartupError) -> (r: InitAction)
        requires
            old(self).wf(),
        ensures
            final(self).wf(),
            *final(self) == (Startup { faulted: true, ..*old(self) }),
            r == InitAction::Fail(e),
    {
        self.faulted = true;
        InitAction::Fail(e)
    }
}

} // verus!
