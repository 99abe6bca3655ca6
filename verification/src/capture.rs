//! The capture window: which allocations are measured, which come from the arena, and which have
//! to wait.

use crate::arena::arena_fits;
use crate::arena::arena_total;
use crate::arena::bump_after;
use crate::arena::bump_result;
use crate::arena::fresh_arena;
use crate::arena::sum_aligned;
use crate::arena::ArenaView;
use crate::arena::CaptureArena;
use crate::error::Error;
use crate::error::ErrorOf;
use crate::shape::copy_dims;
use vstd::prelude::*;

verus! {

/// What allocations on the capturing thread do.
#[derive(Clone, Copy, Debug, PartialEq, Eq, Structural)]
pub enum AllocMode {
    /// Every allocation is a real one.
    Normal,
    /// Allocations are real, and their sizes are recorded in call order.
    Measuring,
    /// Allocations come from the arena.
    Arena,
}

/// How far a capture window has come.
#[derive(Debug)]
pub enum Window {
    /// No window is open.
    Closed,
    /// The dry run is under way.
    DryRun,
    /// The staging pool is being rebuilt; `arena_sizes` size the arena, `pinned_sizes` the pool.
    Pinning { arena_sizes: Vec<usize>, pinned_sizes: Vec<usize> },
    /// The arena's memory is being allocated for requests of these sizes.
    Backing { sizes: Vec<usize> },
    /// The capture is under way.
    Capturing,
}

/// How far a capture window has come, as a mathematical value.
pub enum WindowView {
    Closed,
    DryRun,
    Pinning { arena_sizes: Seq<usize>, pinned_sizes: Seq<usize> },
    Backing { sizes: Seq<usize> },
    Capturing,
}

impl View for Window {
    type V = WindowView;

    open spec fn view(&self) -> WindowView {
        match *self {
            Window::Closed => WindowView::Closed,
            Window::DryRun => WindowView::DryRun,
            Window::Pinning { arena_sizes, pinned_sizes } => WindowView::Pinning {
                arena_sizes: arena_sizes@,
                pinned_sizes: pinned_sizes@,
            },
            Window::Backing { sizes } => WindowView::Backing { sizes: sizes@ },
            Window::Capturing => WindowView::Capturing,
        }
    }
}

/// The capture state of a device.
#[derive(Debug)]
pub struct CaptureState {
    alloc_mode: AllocMode,
    measured_sizes: Vec<usize>,
    capture_arena: Option<CaptureArena>,
    capturing_thread: Option<u64>,
    pinned_scratch: Vec<usize>,
    pinned_scratch_cursor: usize,
    window: Window,
}

/// The capture state of a device, as a mathematical value.
pub struct CaptureView {
    /// What allocations on the capturing thread do.
    pub mode: AllocMode,
    /// The sizes that the last dry run asked for, in bytes and in call order.
    pub measured: Seq<usize>,
    /// The arena of the last capture.
    pub arena: Option<ArenaView>,
    /// The thread that the open window belongs to.
    pub thread: Option<u64>,
    /// The lengths of the buffers in the staging pool.
    pub pool: Seq<usize>,
    /// The staging buffer that the next upload of a capture takes.
    pub cursor: usize,
    /// How far the window has come.
    pub window: WindowView,
}

impl View for CaptureState {
    type V = CaptureView;

    closed spec fn view(&self) -> CaptureView {
        CaptureView {
            mode: self.alloc_mode,
            measured: self.measured_sizes@,
            arena: match self.capture_arena {
                Some(a) => Some(a@),
                None => None,
            },
            thread: self.capturing_thread,
            pool: self.pinned_scratch@,
            cursor: self.pinned_scratch_cursor,
            window: self.window@,
        }
    }
}

impl CaptureView {
    /// The mode and the thread fit the window: outside a window allocation is normal and no thread
    /// captures, and in the arena mode there is an arena.
    pub open spec fn wf(self) -> bool {
        &&& self.thread is Some <==> !(self.window is Closed)
        &&& self.mode == match self.window {
            WindowView::DryRun => AllocMode::Measuring,
            WindowView::Capturing => AllocMode::Arena,
            _ => AllocMode::Normal,
        }
        &&& self.window is Capturing ==> self.arena is Some
        &&& match self.window {
            WindowView::Pinning { pinned_sizes, .. } => self.pool.len()
                < pinned_sizes.len() && self.pool == pinned_sizes.take(self.pool.len() as int),
            WindowView::Backing { sizes, .. } => arena_fits(sizes),
            _ => true,
        }
    }

    /// The window belongs to this thread.
    pub open spec fn owned_by(self, thread: u64) -> bool {
        self.thread == Some(thread)
    }
}

/// Where an allocation comes from.
#[derive(Clone, Copy, Debug, PartialEq, Eq, Structural)]
pub enum AllocRoute {
    /// A real allocation, once no capture window is open.
    Gated,
    /// A real allocation, at once.
    Direct,
    /// The part of the arena that starts at this offset.
    Arena { base_ptr: u64, offset: usize },
}

impl AllocRoute {
    /// Tells whether a buffer that has to hold zeros is cleared after it was taken this way. The
    /// arena's memory holds what was last written there; a real allocation is made of zeros.
    pub fn needs_clearing(&self) -> (r: bool)
        ensures
            r == (self is Arena),
    {
        match self {
            AllocRoute::Arena { .. } => true,
            _ => false,
        }
    }
}

/// Where an allocation of `bytes` bytes on `thread` comes from.
pub open spec fn alloc_route(c: CaptureView, thread: u64, bytes: int) -> Result<
    AllocRoute,
    ErrorOf<Seq<usize>>,
> {
    if c.mode is Normal || !c.owned_by(thread) {
        Ok(AllocRoute::Gated)
    } else if c.mode is Measuring {
        Ok(AllocRoute::Direct)
    } else {
        match bump_result(c.arena->0, bytes) {
            Ok(offset) => Ok(AllocRoute::Arena { base_ptr: c.arena->0.base_ptr, offset }),
            Err(e) => Err(e),
        }
    }
}

/// The state after an allocation of `bytes` bytes on `thread`.
pub open spec fn alloc_after(c: CaptureView, thread: u64, bytes: int) -> CaptureView {
    if c.mode is Normal || !c.owned_by(thread) {
        c
    } else if c.mode is Measuring {
        CaptureView { measured: c.measured.push(bytes as usize), ..c }
    } else {
        CaptureView { arena: Some(bump_after(c.arena->0, bytes)), ..c }
    }
}

/// The size of a request fits the machine wherever it is looked at.
pub open spec fn alloc_fits(c: CaptureView, thread: u64, bytes: int) -> bool {
    c.owned_by(thread) ==> match c.mode {
        AllocMode::Normal => true,
        AllocMode::Measuring => bytes <= usize::MAX,
        AllocMode::Arena => bytes + 255 <= usize::MAX,
    }
}

/// A failed or succeeded allocation, as a mathematical value.
pub open spec fn result_route(r: Result<AllocRoute, Error>) -> Result<
    AllocRoute,
    ErrorOf<Seq<usize>>,
> {
    match r {
        Ok(a) => Ok(a),
        Err(e) => Err(e@),
    }
}

/// How an upload of metadata reaches the device.
#[derive(Clone, Copy, Debug, PartialEq, Eq, Structural)]
pub enum UploadRoute {
    /// A plain copy.
    Plain,
    /// Through a new staging buffer, which is kept for the capture.
    StageNew { len: usize },
    /// Through staging buffer `idx`.
    Reuse { idx: usize },
}

/// How an upload of `len` words on `thread` reaches the device.
pub open spec fn upload_route(c: CaptureView, thread: u64, len: usize) -> Result<
    UploadRoute,
    ErrorOf<Seq<usize>>,
> {
    if c.mode is Normal || !c.owned_by(thread) {
        Ok(UploadRoute::Plain)
    } else if c.mode is Measuring {
        Ok(UploadRoute::StageNew { len })
    } else if c.cursor >= c.pool.len() {
        Err(
            ErrorOf::PinnedExhausted { idx: c.cursor, pool_len: c.pool.len() as usize },
        )
    } else if c.pool[c.cursor as int] != len {
        Err(
            ErrorOf::PinnedLength { idx: c.cursor, have: c.pool[c.cursor as int], need: len },
        )
    } else {
        Ok(UploadRoute::Reuse { idx: c.cursor })
    }
}

/// The state after an upload on `thread` has been routed. In a capture each upload moves on to the
/// next staging buffer, even one that fails.
pub open spec fn upload_after(c: CaptureView, thread: u64) -> CaptureView {
    if c.mode is Arena && c.owned_by(thread) {
        CaptureView {
            cursor: if c.cursor == usize::MAX {
                0
            } else {
                (c.cursor + 1) as usize
            },
            ..c
        }
    } else {
        c
    }
}

/// The state with a staging buffer of `len` words more.
pub open spec fn staged(c: CaptureView, len: usize) -> CaptureView {
    CaptureView { pool: c.pool.push(len), ..c }
}

/// A failed or succeeded upload, as a mathematical value.
pub open spec fn result_upload(r: Result<UploadRoute, Error>) -> Result<
    UploadRoute,
    ErrorOf<Seq<usize>>,
> {
    match r {
        Ok(a) => Ok(a),
        Err(e) => Err(e@),
    }
}

impl CaptureState {
    /// The state of a device that has captured nothing yet.
    pub fn new() -> (r: CaptureState)
        ensures
            r@.wf(),
            r@ == (CaptureView {
                mode: AllocMode::Normal,
                measured: Seq::empty(),
                arena: None,
                thread: None,
                pool: Seq::empty(),
                cursor: 0,
                window: WindowView::Closed,
            }),
    {
        let r: CaptureState = CaptureState {
            alloc_mode: AllocMode::Normal,
            measured_sizes: Vec::new(),
            capture_arena: None,
            capturing_thread: None,
            pinned_scratch: Vec::new(),
            pinned_scratch_cursor: 0,
            window: Window::Closed,
        };
        assert(r@.measured =~= Seq::<usize>::empty());
        assert(r@.pool =~= Seq::<usize>::empty());
        r
    }

    /// Tells whether the open window belongs to `thread`.
    pub fn is_current_thread_capturing(&self, thread: u64) -> (r: bool)
        ensures
            r == self@.owned_by(thread),
    {
        match self.capturing_thread {
            Some(t) => t == thread,
            None => false,
        }
    }

    /// Records a size that the dry run asked for.
    fn record_measured(&mut self, bytes: usize)
        ensures
            final(self)@ == (CaptureView { measured: old(self)@.measured.push(bytes), ..old(self)@
            }),
    {
        self.measured_sizes.push(bytes);
    }

    /// Takes room from the arena.
    fn arena_alloc(&mut self, len: usize, elem_size: usize) -> (r: Result<AllocRoute, Error>)
        requires
            old(self)@.arena is Some,
            len * elem_size + 255 <= usize::MAX,
        ensures
            final(self)@ == (CaptureView {
                arena: Some(bump_after(old(self)@.arena->0, len * elem_size)),
                ..old(self)@
            }),
            result_route(r) == match bump_result(old(self)@.arena->0, len * elem_size) {
                Ok(offset) => Ok::<AllocRoute, ErrorOf<Seq<usize>>>(
                    AllocRoute::Arena { base_ptr: old(self)@.arena->0.base_ptr, offset },
                ),
                Err(e) => Err(e),
            },
    {
        match &mut self.capture_arena {
            Some(arena) => {
                let base_ptr: u64 = arena.base_ptr();
                match arena.bump_alloc(len, elem_size) {
                    Ok(offset) => Ok(AllocRoute::Arena { base_ptr, offset }),
                    Err(e) => Err(e),
                }
            },
            None => {
                assert(false);
                Ok(AllocRoute::Gated)
            },
        }
    }

    /// Tells whether the size of a request can be looked at on this machine.
    pub fn alloc_size_fits(&self, thread: u64, len: usize, elem_size: usize) -> (r: bool)
        ensures
            r == alloc_fits(self@, thread, len * elem_size),
    {
        if !self.is_current_thread_capturing(thread) {
            return true;
        }
        match self.alloc_mode {
            AllocMode::Normal => true,
            AllocMode::Measuring => len.checked_mul(elem_size).is_some(),
            AllocMode::Arena => match len.checked_mul(elem_size) {
                Some(bytes) => bytes <= usize::MAX - 255,
                None => false,
            },
        }
    }

    /// Says where an allocation of `len` elements of `elem_size` bytes on `thread` comes from. On
    /// the thread that captures, a dry run allocates for real and records the size, and a capture
    /// allocates from the arena. All others wait until no window is open, and change nothing.
    pub fn route_alloc(&mut self, thread: u64, len: usize, elem_size: usize) -> (r: Result<
        AllocRoute,
        Error,
    >)
        requires
            old(self)@.wf(),
            alloc_fits(old(self)@, thread, len * elem_size),
        ensures
            final(self)@.wf(),
            final(self)@ == alloc_after(old(self)@, thread, len * elem_size),
            result_route(r) == alloc_route(old(self)@, thread, len * elem_size),
    {
        if !matches!(self.alloc_mode, AllocMode::Normal) && self.is_current_thread_capturing(
            thread,
        ) {
            return if matches!(self.alloc_mode, AllocMode::Arena) {
                self.arena_alloc(len, elem_size)
            } else {
                assert(0 <= len * elem_size) by (nonlinear_arith);
                self.record_measured(len * elem_size);
                Ok(AllocRoute::Direct)
            };
        }
        Ok(AllocRoute::Gated)
    }

    /// Says how an upload of `len` words of metadata on `thread` reaches the device. A dry run
    /// stages every upload in a buffer of its own; a capture goes through those buffers in the
    /// same order.
    pub fn clone_htod_capture_safe(&mut self, thread: u64, len: usize) -> (r: Result<
        UploadRoute,
        Error,
    >)
        requires
            old(self)@.wf(),
        ensures
            final(self)@.wf(),
            final(self)@ == upload_after(old(self)@, thread),
            result_upload(r) == upload_route(old(self)@, thread, len),
    {
        let capturing: bool = self.is_current_thread_capturing(thread);
        if matches!(self.alloc_mode, AllocMode::Measuring) && capturing {
            return Ok(UploadRoute::StageNew { len });
        }
        if matches!(self.alloc_mode, AllocMode::Arena) && capturing {
            let idx: usize = self.pinned_scratch_cursor;
            self.pinned_scratch_cursor = idx.wrapping_add(1);
            let pool_len: usize = self.pinned_scratch.len();
            if idx >= pool_len {
                return Err(ErrorOf::PinnedExhausted { idx, pool_len });
            }
            let have: usize = self.pinned_scratch[idx];
            if have != len {
                return Err(ErrorOf::PinnedLength { idx, have, need: len });
            }
            return Ok(UploadRoute::Reuse { idx });
        }
        Ok(UploadRoute::Plain)
    }

    /// Keeps the staging buffer of `len` words that a dry run's upload went through.
    pub fn stage_pinned(&mut self, len: usize)
        requires
            old(self)@.wf(),
            old(self)@.mode is Measuring,
        ensures
            final(self)@.wf(),
            final(self)@ == staged(old(self)@, len),
    {
        self.pinned_scratch.push(len);
    }

    /// The sizes that the last dry run measured and the lengths of the staging buffers.
    pub fn capture_arena_plan(&self) -> (r: (Vec<usize>, Vec<usize>))
        ensures
            r.0@ == self@.measured,
            r.1@ == self@.pool,
    {
        (copy_dims(self.measured_sizes.as_slice()), copy_dims(self.pinned_scratch.as_slice()))
    }
}

/// What happened last in a capture window that begins with a dry run.
#[derive(Clone, Copy, Debug, PartialEq, Eq)]
pub enum CaptureEvent {
    /// `thread` opens the window.
    Start { thread: u64 },
    /// The dry run has returned.
    DryRun { ok: bool },
    /// The arena's memory has been allocated at this address, or could not be.
    Backing { base_ptr: Option<u64> },
    /// The capture has returned.
    Capture,
}

/// What happened last in a capture window that is sized ahead.
#[derive(Clone, Copy, Debug)]
pub enum PresizedEvent<'a> {
    /// `thread` opens the window, with the sizes and lengths of an earlier one.
    Start { thread: u64, arena_sizes: &'a [usize], pinned_sizes: &'a [usize] },
    /// The staging buffer that was asked for has been allocated, or could not be.
    Pinned { ok: bool },
    /// The arena's memory has been allocated at this address, or could not be.
    Backing { base_ptr: Option<u64> },
    /// The capture has returned.
    Capture,
}

/// What has to happen next in a capture window.
#[derive(Clone, Copy, Debug, PartialEq, Eq, Structural)]
pub enum CaptureAction {
    /// Run the dry run.
    RunDryRun,
    /// Allocate a staging buffer of `len` words.
    AllocPinned { len: usize },
    /// Allocate the arena's memory.
    AllocBacking { bytes: usize },
    /// Run the capture.
    RunCapture,
    /// The window is closed; return what the dry run returned.
    ReturnDryRun,
    /// The window is closed; return the failure of the allocation.
    ReturnError,
    /// The window is closed; return what the capture returned.
    ReturnCapture,
}

/// The state once the window is closed. The arena stays.
pub open spec fn window_closed(c: CaptureView) -> CaptureView {
    CaptureView { mode: AllocMode::Normal, thread: None, window: WindowView::Closed, ..c }
}

/// The state while the memory of an arena for these sizes is allocated.
pub open spec fn window_backing(c: CaptureView, sizes: Seq<usize>) -> CaptureView {
    CaptureView { window: WindowView::Backing { sizes }, ..c }
}

/// The request for the memory of an arena for these sizes; at least one byte.
pub open spec fn backing_action(sizes: Seq<usize>) -> CaptureAction {
    CaptureAction::AllocBacking {
        bytes: if arena_total(sizes) == 0 {
            1
        } else {
            arena_total(sizes) as usize
        },
    }
}

/// The state once the memory of the arena stands at `base_ptr`.
pub open spec fn arena_installed(
    c: CaptureView,
    base_ptr: u64,
    sizes: Seq<usize>,
) -> CaptureView {
    CaptureView {
        mode: AllocMode::Arena,
        arena: Some(fresh_arena(base_ptr, arena_total(sizes) as usize)),
        cursor: 0,
        window: WindowView::Capturing,
        ..c
    }
}

/// The state after the arena's memory has been allocated or not.
pub open spec fn backing_after(c: CaptureView, base_ptr: Option<u64>) -> CaptureView {
    match base_ptr {
        Some(ptr) => arena_installed(c, ptr, c.window->Backing_sizes),
        None => window_closed(c),
    }
}

/// The event can happen in this state.
pub open spec fn capture_takes(c: CaptureView, event: CaptureEvent) -> bool {
    match event {
        CaptureEvent::Start { .. } => c.window is Closed,
        CaptureEvent::DryRun { ok } => c.window is DryRun && (ok ==> arena_fits(c.measured)),
        CaptureEvent::Backing { .. } => c.window is Backing,
        CaptureEvent::Capture => c.window is Capturing,
    }
}

/// The state after an event.
pub open spec fn capture_after(c: CaptureView, event: CaptureEvent) -> CaptureView {
    match event {
        CaptureEvent::Start { thread } => CaptureView {
            mode: AllocMode::Measuring,
            measured: Seq::empty(),
            thread: Some(thread),
            pool: Seq::empty(),
            cursor: 0,
            window: WindowView::DryRun,
            ..c
        },
        CaptureEvent::DryRun { ok } => if ok {
            window_backing(CaptureView { mode: AllocMode::Normal, ..c }, c.measured)
        } else {
            window_closed(c)
        },
        CaptureEvent::Backing { base_ptr } => backing_after(c, base_ptr),
        CaptureEvent::Capture => window_closed(c),
    }
}

/// What has to happen after an event.
pub open spec fn capture_action(c: CaptureView, event: CaptureEvent) -> CaptureAction {
    match event {
        CaptureEvent::Start { .. } => CaptureAction::RunDryRun,
        CaptureEvent::DryRun { ok } => if ok {
            backing_action(c.measured)
        } else {
            CaptureAction::ReturnDryRun
        },
        CaptureEvent::Backing { base_ptr } => if base_ptr is Some {
            CaptureAction::RunCapture
        } else {
            CaptureAction::ReturnError
        },
        CaptureEvent::Capture => CaptureAction::ReturnCapture,
    }
}

/// The state while a staging pool is rebuilt, or once it is complete.
pub open spec fn pinning_after(
    c: CaptureView,
    arena_sizes: Seq<usize>,
    pinned_sizes: Seq<usize>,
) -> CaptureView {
    if c.pool.len() < pinned_sizes.len() {
        CaptureView { window: WindowView::Pinning { arena_sizes, pinned_sizes }, ..c }
    } else {
        window_backing(CaptureView { cursor: 0, ..c }, arena_sizes)
    }
}

/// What has to happen while a staging pool is rebuilt, or once it is complete.
pub open spec fn pinning_action(
    c: CaptureView,
    arena_sizes: Seq<usize>,
    pinned_sizes: Seq<usize>,
) -> CaptureAction {
    if c.pool.len() < pinned_sizes.len() {
        CaptureAction::AllocPinned { len: pinned_sizes[c.pool.len() as int] }
    } else {
        backing_action(arena_sizes)
    }
}

/// The state of a window of `thread` whose staging pool is still empty.
pub open spec fn presized_opened(c: CaptureView, thread: u64) -> CaptureView {
    CaptureView { thread: Some(thread), pool: Seq::empty(), ..c }
}

/// The state with one more staging buffer.
pub open spec fn pinned_added(c: CaptureView) -> CaptureView {
    CaptureView {
        pool: c.pool.push(c.window->Pinning_pinned_sizes[c.pool.len() as int]),
        ..c
    }
}

/// The event can happen in this state.
pub open spec fn presized_takes(c: CaptureView, event: PresizedEvent) -> bool {
    match event {
        PresizedEvent::Start { arena_sizes, pinned_sizes, .. } => c.window is Closed && (
        pinned_sizes@.len() == 0 ==> arena_fits(arena_sizes@)),
        PresizedEvent::Pinned { ok } => c.window is Pinning && (ok && c.pool.len() + 1
            == c.window->Pinning_pinned_sizes.len() ==> arena_fits(c.window->Pinning_arena_sizes)),
        PresizedEvent::Backing { .. } => c.window is Backing,
        PresizedEvent::Capture => c.window is Capturing,
    }
}

/// The state after an event.
pub open spec fn presized_after(c: CaptureView, event: PresizedEvent) -> CaptureView {
    match event {
        PresizedEvent::Start { thread, arena_sizes, pinned_sizes } => pinning_after(
            presized_opened(c, thread),
            arena_sizes@,
            pinned_sizes@,
        ),
        PresizedEvent::Pinned { ok } => if ok {
            pinning_after(
                pinned_added(c),
                c.window->Pinning_arena_sizes,
                c.window->Pinning_pinned_sizes,
            )
        } else {
            window_closed(c)
        },
        PresizedEvent::Backing { base_ptr } => backing_after(c, base_ptr),
        PresizedEvent::Capture => window_closed(c),
    }
}

/// What has to happen after an event.
pub open spec fn presized_action(c: CaptureView, event: PresizedEvent) -> CaptureAction {
    match event {
        PresizedEvent::Start { thread, arena_sizes, pinned_sizes } => pinning_action(
            presized_opened(c, thread),
            arena_sizes@,
            pinned_sizes@,
        ),
        PresizedEvent::Pinned { ok } => if ok {
            pinning_action(
                pinned_added(c),
                c.window->Pinning_arena_sizes,
                c.window->Pinning_pinned_sizes,
            )
        } else {
            CaptureAction::ReturnError
        },
        PresizedEvent::Backing { base_ptr } => if base_ptr is Some {
            CaptureAction::RunCapture
        } else {
            CaptureAction::ReturnError
        },
        PresizedEvent::Capture => CaptureAction::ReturnCapture,
    }
}

impl CaptureState {
    /// Tells whether an arena can be sized by what the dry run has measured so far.
    pub fn measured_fits(&self) -> (r: bool)
        ensures
            r == arena_fits(self@.measured),
    {
        sum_aligned(self.measured_sizes.as_slice()).is_some()
    }

    fn close(&mut self)
        ensures
            final(self)@ == window_closed(old(self)@),
    {
        self.alloc_mode = AllocMode::Normal;
        self.capturing_thread = None;
        self.window = Window::Closed;
    }

    fn ask_backing(&mut self, sizes: Vec<usize>) -> (r: CaptureAction)
        requires
            arena_fits(sizes@),
        ensures
            final(self)@ == window_backing(old(self)@, sizes@),
            r == backing_action(sizes@),
    {
        let total_bytes: usize = match sum_aligned(sizes.as_slice()) {
            Some(total) => total,
            None => 0,
        };
        self.window = Window::Backing { sizes };
        CaptureAction::AllocBacking {
            bytes: if total_bytes == 0 {
                1
            } else {
                total_bytes
            },
        }
    }

    /// Puts up the arena whose memory was allocated at `base_ptr`, and lets the capture allocate
    /// from it.
    fn install_capture_arena(&mut self, base_ptr: Option<u64>) -> (r: CaptureAction)
        requires
            old(self)@.wf(),
            old(self)@.window is Backing,
        ensures
            final(self)@ == backing_after(old(self)@, base_ptr),
            r == if base_ptr is Some {
                CaptureAction::RunCapture
            } else {
                CaptureAction::ReturnError
            },
    {
        let ptr: u64 = match base_ptr {
            Some(ptr) => ptr,
            None => {
                self.close();
                return CaptureAction::ReturnError;
            },
        };
        let total_bytes: usize = match &self.window {
            Window::Backing { sizes } => match sum_aligned(sizes.as_slice()) {
                Some(total) => total,
                None => 0,
            },
            _ => 0,
        };
        self.capture_arena = Some(CaptureArena::new(ptr, total_bytes));
        self.pinned_scratch_cursor = 0;
        self.alloc_mode = AllocMode::Arena;
        self.window = Window::Capturing;
        CaptureAction::RunCapture
    }

    /// Drives a capture window that begins with a dry run: takes what has happened, and says what
    /// has to happen next. The dry run's allocations are measured, an arena of exactly their size
    /// is put up, and the capture allocates from it.
    pub fn with_capture_arena(&mut self, event: CaptureEvent) -> (r: CaptureAction)
        requires
            old(self)@.wf(),
            capture_takes(old(self)@, event),
        ensures
            final(self)@.wf(),
            final(self)@ == capture_after(old(self)@, event),
            r == capture_action(old(self)@, event),
    {
        match event {
            CaptureEvent::Start { thread } => {
                self.capturing_thread = Some(thread);
                self.measured_sizes = Vec::new();
                self.pinned_scratch = Vec::new();
                self.pinned_scratch_cursor = 0;
                self.alloc_mode = AllocMode::Measuring;
                self.window = Window::DryRun;
                proof {
                    assert(self@.measured =~= Seq::<usize>::empty());
                    assert(self@.pool =~= Seq::<usize>::empty());
                }
                CaptureAction::RunDryRun
            },
            CaptureEvent::DryRun { ok } => {
                self.alloc_mode = AllocMode::Normal;
                if !ok {
                    self.close();
                    return CaptureAction::ReturnDryRun;
                }
                let sizes: Vec<usize> = copy_dims(self.measured_sizes.as_slice());
                self.ask_backing(sizes)
            },
            CaptureEvent::Backing { base_ptr } => self.install_capture_arena(base_ptr),
            CaptureEvent::Capture => {
                self.close();
                CaptureAction::ReturnCapture
            },
        }
    }

    fn pin_next(&mut self, arena_sizes: Vec<usize>, pinned_sizes: Vec<usize>) -> (r: CaptureAction)
        requires
            old(self)@.pool.len() >= pinned_sizes@.len() ==> arena_fits(arena_sizes@),
        ensures
            final(self)@ == pinning_after(old(self)@, arena_sizes@, pinned_sizes@),
            r == pinning_action(old(self)@, arena_sizes@, pinned_sizes@),
    {
        let next: usize = self.pinned_scratch.len();
        if next < pinned_sizes.len() {
            let len: usize = pinned_sizes[next];
            self.window = Window::Pinning { arena_sizes, pinned_sizes };
            CaptureAction::AllocPinned { len }
        } else {
            self.pinned_scratch_cursor = 0;
            self.ask_backing(arena_sizes)
        }
    }

    /// Drives a capture window that is sized by an earlier one: takes what has happened, and says
    /// what has to happen next. The staging pool is rebuilt, an arena of exactly the given sizes
    /// is put up, and the capture allocates from it.
    pub fn with_capture_arena_presized(&mut self, event: PresizedEvent) -> (r: CaptureAction)
        requires
            old(self)@.wf(),
            presized_takes(old(self)@, event),
        ensures
            final(self)@.wf(),
            final(self)@ == presized_after(old(self)@, event),
            r == presized_action(old(self)@, event),
    {
        match event {
            PresizedEvent::Start { thread, arena_sizes, pinned_sizes } => {
                self.capturing_thread = Some(thread);
                self.pinned_scratch = Vec::new();
                assert(self@.pool =~= Seq::<usize>::empty());
                assert(self@.pool =~= pinned_sizes@.take(0));
                self.pin_next(copy_dims(arena_sizes), copy_dims(pinned_sizes))
            },
            PresizedEvent::Pinned { ok } => {
                if !ok {
                    self.close();
                    return CaptureAction::ReturnError;
                }
                let (arena_sizes, pinned_sizes): (Vec<usize>, Vec<usize>) = match &self.window {
                    Window::Pinning { arena_sizes, pinned_sizes } => (
                        copy_dims(arena_sizes.as_slice()),
                        copy_dims(pinned_sizes.as_slice()),
                    ),
                    _ => (Vec::new(), Vec::new()),
                };
                let next: usize = self.pinned_scratch.len();
                let len: usize = pinned_sizes[next];
                self.pinned_scratch.push(len);
                assert(self@.pool =~= pinned_sizes@.take(next + 1));
                self.pin_next(arena_sizes, pinned_sizes)
            },
            PresizedEvent::Backing { base_ptr } => self.install_capture_arena(base_ptr),
            PresizedEvent::Capture => {
                self.close();
                CaptureAction::ReturnCapture
            },
        }
    }
}

} // verus!
