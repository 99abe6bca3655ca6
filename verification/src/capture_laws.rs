//! What capture windows promise as a whole.

use crate::arena::arena_fits;
use crate::arena::arena_total;
use crate::arena::bump_all;
use crate::arena::fresh_arena;
use crate::arena::law_arena_replay;
use crate::arena::ArenaView;
use crate::capture::alloc_after;
use crate::capture::alloc_fits;
use crate::capture::alloc_route;
use crate::capture::backing_after;
use crate::capture::capture_action;
use crate::capture::capture_after;
use crate::capture::capture_takes;
use crate::capture::pinned_added;
use crate::capture::pinning_after;
use crate::capture::presized_action;
use crate::capture::presized_after;
use crate::capture::presized_opened;
use crate::capture::presized_takes;
use crate::capture::staged;
use crate::capture::upload_after;
use crate::capture::upload_route;
use crate::capture::AllocRoute;
use crate::capture::CaptureAction;
use crate::capture::CaptureEvent;
use crate::capture::CaptureView;
use crate::capture::PresizedEvent;
use crate::capture::UploadRoute;
use crate::capture::WindowView;
use crate::error::ErrorOf;
use vstd::prelude::*;

verus! {

/// The action ends the window.
pub open spec fn ends_window(action: CaptureAction) -> bool {
    action is ReturnDryRun || action is ReturnError || action is ReturnCapture
}

/// However a window ends, allocation is normal again and no thread captures, and the arena is the
/// one that stood before: it is never torn down by the end of a window.
pub proof fn law_window_restores_normal(c: CaptureView, event: CaptureEvent)
    requires
        c.wf(),
        capture_takes(c, event),
    ensures
        capture_after(c, event).wf(),
        ends_window(capture_action(c, event)) ==> {
            let after = capture_after(c, event);
            &&& after.mode is Normal
            &&& after.thread is None
            &&& after.arena == c.arena
        },
{
}

/// The same of a window that is sized ahead.
pub proof fn law_presized_window_restores_normal(c: CaptureView, event: PresizedEvent)
    requires
        c.wf(),
        presized_takes(c, event),
    ensures
        presized_after(c, event).wf(),
        ends_window(presized_action(c, event)) ==> {
            let after = presized_after(c, event);
            &&& after.mode is Normal
            &&& after.thread is None
            &&& after.arena == c.arena
        },
{
    match event {
        PresizedEvent::Start { thread, arena_sizes, pinned_sizes } => {
            assert(Seq::<usize>::empty() =~= pinned_sizes@.take(0));
        },
        PresizedEvent::Pinned { ok } => {
            if ok {
                let next = c.pool.len() as int;
                assert(pinned_added(c).pool =~= c.window->Pinning_pinned_sizes.take(next + 1));
            }
        },
        _ => {},
    }
}

/// A thread that does not own the window never sees it: its allocations wait, its uploads are
/// plain, and neither changes the capture state.
pub proof fn law_other_threads_wait(c: CaptureView, thread: u64, bytes: int, len: usize)
    requires
        !c.owned_by(thread),
    ensures
        alloc_route(c, thread, bytes) == Ok::<AllocRoute, ErrorOf<Seq<usize>>>(AllocRoute::Gated),
        alloc_after(c, thread, bytes) == c,
        upload_route(c, thread, len) == Ok::<UploadRoute, ErrorOf<Seq<usize>>>(UploadRoute::Plain),
        upload_after(c, thread) == c,
{
}

/// Outside a window every allocation is a real one and every upload is plain, on any thread.
pub proof fn law_no_window_no_change(c: CaptureView, thread: u64, bytes: int, len: usize)
    requires
        c.wf(),
        c.window is Closed,
    ensures
        alloc_route(c, thread, bytes) == Ok::<AllocRoute, ErrorOf<Seq<usize>>>(AllocRoute::Gated),
        alloc_after(c, thread, bytes) == c,
        upload_route(c, thread, len) == Ok::<UploadRoute, ErrorOf<Seq<usize>>>(UploadRoute::Plain),
        upload_after(c, thread) == c,
{
}

/// One thing that a pass does: an allocation of some bytes, or an upload of `len` words into a
/// device buffer of `bytes` bytes.
pub enum PassOp {
    Alloc { bytes: usize },
    Upload { len: usize, bytes: usize },
}

/// The bytes that each operation allocates.
pub open spec fn pass_sizes(ops: Seq<PassOp>) -> Seq<usize> {
    Seq::new(
        ops.len(),
        |i: int|
            match ops[i] {
                PassOp::Alloc { bytes } => bytes,
                PassOp::Upload { bytes, .. } => bytes,
            },
    )
}

/// The lengths of the uploads.
pub open spec fn pass_uploads(ops: Seq<PassOp>) -> Seq<usize>
    decreases ops.len(),
{
    if ops.len() == 0 {
        Seq::empty()
    } else {
        match ops.last() {
            PassOp::Alloc { .. } => pass_uploads(ops.drop_last()),
            PassOp::Upload { len, .. } => pass_uploads(ops.drop_last()).push(len),
        }
    }
}

/// The state after an operation on the capturing thread.
pub open spec fn op_after(c: CaptureView, thread: u64, op: PassOp) -> CaptureView {
    match op {
        PassOp::Alloc { bytes } => alloc_after(c, thread, bytes as int),
        PassOp::Upload { len, bytes } => {
            let routed = alloc_after(upload_after(c, thread), thread, bytes as int);
            if upload_route(c, thread, len) == Ok::<UploadRoute, ErrorOf<Seq<usize>>>(
                UploadRoute::StageNew { len },
            ) {
                staged(routed, len)
            } else {
                routed
            }
        },
    }
}

/// The state after a pass.
pub open spec fn pass_after(c: CaptureView, thread: u64, ops: Seq<PassOp>) -> CaptureView
    decreases ops.len(),
{
    if ops.len() == 0 {
        c
    } else {
        op_after(pass_after(c, thread, ops.drop_last()), thread, ops.last())
    }
}

/// The window of `thread` is ready for a capture that runs these operations.
pub open spec fn ready_for(c: CaptureView, thread: u64, base_ptr: u64, ops: Seq<PassOp>) -> bool {
    &&& c.wf()
    &&& c.window is Capturing
    &&& c.owned_by(thread)
    &&& c.arena == Some(fresh_arena(base_ptr, arena_total(pass_sizes(ops)) as usize))
    &&& c.pool == pass_uploads(ops)
    &&& c.cursor == 0
}

proof fn lemma_dry_run(c: CaptureView, thread: u64, ops: Seq<PassOp>)
    requires
        c.window is Closed,
    ensures
        ({
            let after = pass_after(
                capture_after(c, CaptureEvent::Start { thread }),
                thread,
                ops,
            );
            after == CaptureView {
                measured: pass_sizes(ops),
                pool: pass_uploads(ops),
                ..capture_after(c, CaptureEvent::Start { thread })
            }
        }),
    decreases ops.len(),
{
    if ops.len() == 0 {
        assert(pass_sizes(ops) =~= Seq::<usize>::empty());
    } else {
        lemma_dry_run(c, thread, ops.drop_last());
        let bytes = pass_sizes(ops).last();
        assert(pass_sizes(ops) =~= pass_sizes(ops.drop_last()).push(bytes));
    }
}

/// A dry run records every size in call order and stages every upload, and the window is then
/// ready for a capture that does the same again.
pub proof fn law_dry_run_readies_capture(
    c: CaptureView,
    thread: u64,
    base_ptr: u64,
    ops: Seq<PassOp>,
)
    requires
        c.wf(),
        c.window is Closed,
        arena_fits(pass_sizes(ops)),
    ensures
        ({
            let started = capture_after(c, CaptureEvent::Start { thread });
            let ran = pass_after(started, thread, ops);
            let asked = capture_after(ran, CaptureEvent::DryRun { ok: true });
            let built = capture_after(asked, CaptureEvent::Backing { base_ptr: Some(base_ptr) });
            &&& ran.measured == pass_sizes(ops)
            &&& ran.pool == pass_uploads(ops)
            &&& capture_takes(ran, CaptureEvent::DryRun { ok: true })
            &&& ready_for(built, thread, base_ptr, ops)
            &&& built.measured == pass_sizes(ops)
        }),
{
    lemma_dry_run(c, thread, ops);
}

proof fn lemma_uploads_grow(ops: Seq<PassOp>, i: int)
    requires
        0 <= i <= ops.len(),
    ensures
        pass_uploads(ops.take(i)).len() <= pass_uploads(ops).len(),
        pass_uploads(ops.take(i)) == pass_uploads(ops).take(pass_uploads(ops.take(i)).len() as int),
        pass_uploads(ops).len() <= ops.len(),
    decreases ops.len(),
{
    if i == ops.len() {
        assert(ops.take(i) =~= ops);
        assert(pass_uploads(ops).take(pass_uploads(ops).len() as int) =~= pass_uploads(ops));
        if ops.len() > 0 {
            lemma_uploads_grow(ops.drop_last(), 0);
        }
    } else {
        let front = ops.drop_last();
        lemma_uploads_grow(front, i);
        assert(front.take(i) =~= ops.take(i));
        let n = pass_uploads(ops.take(i)).len() as int;
        assert(pass_uploads(ops).take(n) =~= pass_uploads(front).take(n));
    }
}

proof fn lemma_capture(
    c: CaptureView,
    thread: u64,
    base_ptr: u64,
    ops: Seq<PassOp>,
    i: int,
)
    requires
        ready_for(c, thread, base_ptr, ops),
        ops.len() < usize::MAX,
        0 <= i <= ops.len(),
    ensures
        pass_after(c, thread, ops.take(i)) == (CaptureView {
            arena: Some(
                bump_all(
                    fresh_arena(base_ptr, arena_total(pass_sizes(ops)) as usize),
                    pass_sizes(ops).take(i),
                ),
            ),
            cursor: pass_uploads(ops.take(i)).len() as usize,
            ..c
        }),
    decreases i,
{
    let sizes = pass_sizes(ops);
    lemma_uploads_grow(ops, i);
    if i == 0 {
        assert(ops.take(0) =~= Seq::<PassOp>::empty());
        assert(sizes.take(0) =~= Seq::<usize>::empty());
    } else {
        lemma_capture(c, thread, base_ptr, ops, i - 1);
        lemma_uploads_grow(ops, i - 1);
        assert(ops.take(i).drop_last() =~= ops.take(i - 1));
        assert(ops.take(i).last() == ops[i - 1]);
        assert(sizes.take(i).drop_last() =~= sizes.take(i - 1));
        assert(sizes.take(i).last() == sizes[i - 1]);
    }
}

/// A capture that does what its window is ready for never runs out: every allocation is granted,
/// at the place that the sizes before it leave, and every upload gets the staging buffer of the
/// dry run's upload at the same place.
pub proof fn law_ready_capture_is_granted(
    c: CaptureView,
    thread: u64,
    base_ptr: u64,
    ops: Seq<PassOp>,
    i: int,
)
    requires
        ready_for(c, thread, base_ptr, ops),
        arena_fits(pass_sizes(ops)),
        ops.len() < usize::MAX,
        0 <= i < ops.len(),
    ensures
        ({
            let before = pass_after(c, thread, ops.take(i));
            let granted = Ok::<AllocRoute, ErrorOf<Seq<usize>>>(
                AllocRoute::Arena {
                    base_ptr,
                    offset: arena_total(pass_sizes(ops).take(i)) as usize,
                },
            );
            match ops[i] {
                PassOp::Alloc { bytes } => alloc_route(before, thread, bytes as int) == granted,
                PassOp::Upload { len, bytes } => {
                    &&& upload_route(before, thread, len) == Ok::<
                        UploadRoute,
                        ErrorOf<Seq<usize>>,
                    >(UploadRoute::Reuse { idx: pass_uploads(ops.take(i)).len() as usize })
                    &&& alloc_route(upload_after(before, thread), thread, bytes as int) == granted
                },
            }
        }),
{
    let sizes = pass_sizes(ops);
    lemma_capture(c, thread, base_ptr, ops, i);
    law_arena_replay(base_ptr, sizes, i);
    let fresh = fresh_arena(base_ptr, arena_total(sizes) as usize);
    lemma_bump_keeps(fresh, sizes.take(i));
    lemma_uploads_grow(ops, i);
    match ops[i] {
        PassOp::Alloc { .. } => {},
        PassOp::Upload { len, .. } => {
            lemma_uploads_grow(ops, i + 1);
            assert(ops.take(i + 1).drop_last() =~= ops.take(i));
            assert(ops.take(i + 1).last() == ops[i]);
            let n = pass_uploads(ops.take(i)).len() as int;
            assert(pass_uploads(ops.take(i + 1))[n] == len);
        },
    }
}

proof fn lemma_bump_keeps(a: ArenaView, sizes: Seq<usize>)
    ensures
        bump_all(a, sizes).base_ptr == a.base_ptr,
        bump_all(a, sizes).total_bytes == a.total_bytes,
    decreases sizes.len(),
{
    if sizes.len() > 0 {
        lemma_bump_keeps(a, sizes.drop_last());
    }
}

/// The state of a window that is sized ahead, after `n` staging buffers have been allocated.
pub open spec fn presized_pinned(
    c: CaptureView,
    thread: u64,
    arena_sizes: Seq<usize>,
    pinned_sizes: Seq<usize>,
    n: nat,
) -> CaptureView
    decreases n,
{
    if n == 0 {
        pinning_after(presized_opened(c, thread), arena_sizes, pinned_sizes)
    } else {
        pinning_after(
            pinned_added(
                presized_pinned(c, thread, arena_sizes, pinned_sizes, (n - 1) as nat),
            ),
            arena_sizes,
            pinned_sizes,
        )
    }
}

proof fn lemma_presized(
    c: CaptureView,
    thread: u64,
    arena_sizes: Seq<usize>,
    pinned_sizes: Seq<usize>,
    n: nat,
)
    requires
        n <= pinned_sizes.len(),
    ensures
        ({
            let s = presized_pinned(c, thread, arena_sizes, pinned_sizes, n);
            &&& s.pool == pinned_sizes.take(n as int)
            &&& s.mode == c.mode
            &&& s.measured == c.measured
            &&& s.arena == c.arena
            &&& s.thread == Some(thread)
            &&& n < pinned_sizes.len() ==> s.window == (WindowView::Pinning {
                arena_sizes,
                pinned_sizes,
            })
            &&& n == pinned_sizes.len() ==> s.window == (WindowView::Backing {
                sizes: arena_sizes,
            })
        }),
    decreases n,
{
    if n == 0 {
        assert(pinned_sizes.take(0) =~= Seq::<usize>::empty());
    } else {
        lemma_presized(c, thread, arena_sizes, pinned_sizes, (n - 1) as nat);
        assert(pinned_sizes.take(n as int) =~= pinned_sizes.take(n - 1).push(pinned_sizes[n - 1]));
    }
}

/// A window that is sized by the plan of an earlier one is as ready for its capture as the earlier
/// one was, without a dry run. What the earlier dry run measured stays recorded.
pub proof fn law_presized_readies_capture(
    c: CaptureView,
    thread: u64,
    base_ptr: u64,
    ops: Seq<PassOp>,
)
    requires
        c.wf(),
        c.window is Closed,
        arena_fits(pass_sizes(ops)),
    ensures
        ({
            let uploads = pass_uploads(ops);
            let pinned = presized_pinned(
                c,
                thread,
                pass_sizes(ops),
                uploads,
                uploads.len(),
            );
            let built = backing_after(pinned, Some(base_ptr));
            &&& pinned.window is Backing
            &&& ready_for(built, thread, base_ptr, ops)
            &&& built.measured == c.measured
        }),
{
    let uploads = pass_uploads(ops);
    lemma_presized(c, thread, pass_sizes(ops), uploads, uploads.len());
    assert(uploads.take(uploads.len() as int) =~= uploads);
}

proof fn lemma_capture_keeps_plan(c: CaptureView, thread: u64, ops: Seq<PassOp>)
    requires
        c.mode is Arena,
    ensures
        ({
            let after = pass_after(c, thread, ops);
            &&& after.mode == c.mode
            &&& after.measured == c.measured
            &&& after.pool == c.pool
            &&& after.window == c.window
        }),
    decreases ops.len(),
{
    if ops.len() > 0 {
        lemma_capture_keeps_plan(c, thread, ops.drop_last());
    }
}

/// The plan of a window outlives it: whatever the capture did, once the window has been closed the
/// recorded sizes and staging lengths are those of the dry run. A later window that is sized by
/// that plan is ready for a capture that does what the dry run did.
pub proof fn law_plan_outlives_window(
    c: CaptureView,
    thread: u64,
    base_ptr: u64,
    ops: Seq<PassOp>,
    captured: Seq<PassOp>,
    later_thread: u64,
    later_base_ptr: u64,
)
    requires
        c.wf(),
        c.window is Closed,
        arena_fits(pass_sizes(ops)),
    ensures
        ({
            let ran = pass_after(
                capture_after(c, CaptureEvent::Start { thread }),
                thread,
                ops,
            );
            let asked = capture_after(ran, CaptureEvent::DryRun { ok: true });
            let built = capture_after(asked, CaptureEvent::Backing { base_ptr: Some(base_ptr) });
            let closed = capture_after(
                pass_after(built, thread, captured),
                CaptureEvent::Capture,
            );
            let pinned = presized_pinned(
                closed,
                later_thread,
                closed.measured,
                closed.pool,
                closed.pool.len(),
            );
            &&& closed.measured == pass_sizes(ops)
            &&& closed.pool == pass_uploads(ops)
            &&& ready_for(
                backing_after(pinned, Some(later_base_ptr)),
                later_thread,
                later_base_ptr,
                ops,
            )
        }),
{
    let ran = pass_after(capture_after(c, CaptureEvent::Start { thread }), thread, ops);
    let asked = capture_after(ran, CaptureEvent::DryRun { ok: true });
    let built = capture_after(asked, CaptureEvent::Backing { base_ptr: Some(base_ptr) });
    law_dry_run_readies_capture(c, thread, base_ptr, ops);
    lemma_capture_keeps_plan(built, thread, captured);
    let closed = capture_after(pass_after(built, thread, captured), CaptureEvent::Capture);
    law_presized_readies_capture(closed, later_thread, later_base_ptr, ops);
}

/// The plan of a successful dry run stays even where the memory of its arena is not to be had: the
/// recorded sizes and staging lengths are those of the dry run, and a later window that is sized by
/// them is ready for a capture that does what the dry run did.
pub proof fn law_plan_outlives_failed_backing(
    c: CaptureView,
    thread: u64,
    ops: Seq<PassOp>,
    later_thread: u64,
    later_base_ptr: u64,
)
    requires
        c.wf(),
        c.window is Closed,
        arena_fits(pass_sizes(ops)),
    ensures
        ({
            let ran = pass_after(
                capture_after(c, CaptureEvent::Start { thread }),
                thread,
                ops,
            );
            let asked = capture_after(ran, CaptureEvent::DryRun { ok: true });
            let closed = capture_after(asked, CaptureEvent::Backing { base_ptr: None });
            let pinned = presized_pinned(
                closed,
                later_thread,
                closed.measured,
                closed.pool,
                closed.pool.len(),
            );
            &&& capture_action(asked, CaptureEvent::Backing { base_ptr: None }) is ReturnError
            &&& closed.arena == c.arena
            &&& closed.measured == pass_sizes(ops)
            &&& closed.pool == pass_uploads(ops)
            &&& ready_for(
                backing_after(pinned, Some(later_base_ptr)),
                later_thread,
                later_base_ptr,
                ops,
            )
        }),
{
    lemma_dry_run(c, thread, ops);
    let ran = pass_after(capture_after(c, CaptureEvent::Start { thread }), thread, ops);
    let asked = capture_after(ran, CaptureEvent::DryRun { ok: true });
    let closed = capture_after(asked, CaptureEvent::Backing { base_ptr: None });
    law_presized_readies_capture(closed, later_thread, later_base_ptr, ops);
}

/// The memory that is asked for holds the arena that is then put up: at least one byte, and
/// otherwise exactly the arena, which has room for the given sizes one after another.
pub proof fn law_backing_holds_arena(c: CaptureView, base_ptr: u64)
    requires
        c.wf(),
        c.window is DryRun,
        arena_fits(c.measured),
    ensures
        ({
            let event = CaptureEvent::DryRun { ok: true };
            let asked = capture_after(c, event);
            let built = capture_after(asked, CaptureEvent::Backing { base_ptr: Some(base_ptr) });
            &&& asked.window is Backing
            &&& built.window is Capturing
            &&& built.mode is Arena
            &&& built.thread == c.thread
            &&& built.arena is Some
            &&& built.arena->0.base_ptr == base_ptr
            &&& built.arena->0.cursor == 0
            &&& built.arena->0.total_bytes == arena_total(c.measured)
            &&& match capture_action(c, event) {
                CaptureAction::AllocBacking { bytes } => if arena_total(c.measured) == 0 {
                    bytes == 1
                } else {
                    bytes == built.arena->0.total_bytes
                },
                _ => false,
            }
        }),
{
}

/// A dry run on the capturing thread allocates for real, at once, and records the very size that was
/// asked for behind those before it; an upload goes through a new staging buffer of its own length.
pub proof fn law_dry_run_measures(c: CaptureView, thread: u64, bytes: usize, len: usize)
    requires
        c.mode is Measuring,
        c.owned_by(thread),
    ensures
        alloc_route(c, thread, bytes as int) == Ok::<AllocRoute, ErrorOf<Seq<usize>>>(
            AllocRoute::Direct,
        ),
        alloc_after(c, thread, bytes as int) == (CaptureView {
            measured: c.measured.push(bytes),
            ..c
        }),
        upload_route(c, thread, len) == Ok::<UploadRoute, ErrorOf<Seq<usize>>>(
            UploadRoute::StageNew { len },
        ),
        upload_after(c, thread) == c,
{
}

/// A capture on the capturing thread never allocates for real: it gets a part of the arena that has
/// room for what it asked for, or is refused, and records nothing.
pub proof fn law_capture_allocates_from_arena(c: CaptureView, thread: u64, bytes: usize)
    requires
        c.wf(),
        c.mode is Arena,
        c.owned_by(thread),
    ensures
        ({
            let arena = c.arena->0;
            let after = alloc_after(c, thread, bytes as int);
            &&& match alloc_route(c, thread, bytes as int) {
                Ok(route) => match route {
                    AllocRoute::Arena { base_ptr, offset } => {
                        &&& base_ptr == arena.base_ptr
                        &&& offset == arena.cursor
                        &&& offset + bytes <= arena.total_bytes
                    },
                    _ => false,
                },
                Err(e) => arena.cursor + bytes > arena.total_bytes && e is ArenaExhausted,
            }
            &&& after.arena is Some
            &&& after == (CaptureView { arena: after.arena, ..c })
            &&& after.arena->0.base_ptr == arena.base_ptr
            &&& after.arena->0.total_bytes == arena.total_bytes
        }),
{
}

/// A capture takes the staging buffers one after another, and each upload has to be as long as its
/// buffer: one that is not, or finds no buffer left, is refused with what it found. The next upload
/// takes the next buffer either way.
pub proof fn law_capture_uploads_in_turn(c: CaptureView, thread: u64, len: usize)
    requires
        c.mode is Arena,
        c.owned_by(thread),
    ensures
        upload_route(c, thread, len) is Ok <==> c.cursor < c.pool.len() && c.pool[c.cursor as int]
            == len,
        match upload_route(c, thread, len) {
            Ok(route) => route == (UploadRoute::Reuse { idx: c.cursor }),
            Err(e) => if c.cursor < c.pool.len() {
                e == (ErrorOf::<Seq<usize>>::PinnedLength {
                    idx: c.cursor,
                    have: c.pool[c.cursor as int],
                    need: len,
                })
            } else {
                e == (ErrorOf::<Seq<usize>>::PinnedExhausted {
                    idx: c.cursor,
                    pool_len: c.pool.len() as usize,
                })
            },
        },
        c.cursor < usize::MAX ==> upload_after(c, thread) == (CaptureView {
            cursor: (c.cursor + 1) as usize,
            ..c
        }),
{
}

/// Opening a window makes it the thread's own, and what was measured or staged before is forgotten;
/// the arena of an earlier capture stays until the next one is put up.
pub proof fn law_window_opens_afresh(c: CaptureView, thread: u64)
    ensures
        ({
            let opened = capture_after(c, CaptureEvent::Start { thread });
            &&& capture_action(c, CaptureEvent::Start { thread }) is RunDryRun
            &&& opened.owned_by(thread)
            &&& opened.mode is Measuring
            &&& opened.measured.len() == 0
            &&& opened.pool.len() == 0
            &&& opened.cursor == 0
            &&& opened.arena == c.arena
            &&& capture_action(opened, CaptureEvent::DryRun { ok: false }) is ReturnDryRun
            &&& !capture_after(opened, CaptureEvent::DryRun { ok: false }).owned_by(thread)
        }),
{
}

/// A window that is sized ahead asks for the given staging buffers one after another, each in its
/// own length, and then for the memory of the given sizes.
pub proof fn law_presized_asks_in_turn(c: CaptureView, event: PresizedEvent)
    requires
        c.wf(),
        presized_takes(c, event),
    ensures
        match event {
            PresizedEvent::Start { arena_sizes, pinned_sizes, .. } => match presized_action(
                c,
                event,
            ) {
                CaptureAction::AllocPinned { len } => pinned_sizes@.len() > 0 && len
                    == pinned_sizes@[0],
                CaptureAction::AllocBacking { bytes } => pinned_sizes@.len() == 0 && bytes >= 1
                    && (bytes == arena_total(arena_sizes@) || arena_total(arena_sizes@) == 0
                    && bytes == 1),
                _ => false,
            },
            PresizedEvent::Pinned { ok: true } => {
                let (arena_sizes, pinned_sizes) = (
                    c.window->Pinning_arena_sizes,
                    c.window->Pinning_pinned_sizes,
                );
                let next = c.pool.len() + 1;
                &&& presized_after(c, event).pool == pinned_sizes.take(next as int)
                &&& match presized_action(c, event) {
                    CaptureAction::AllocPinned { len } => next < pinned_sizes.len() && len
                        == pinned_sizes[next as int],
                    CaptureAction::AllocBacking { bytes } => next == pinned_sizes.len() && bytes
                        >= 1 && (bytes == arena_total(arena_sizes) || arena_total(arena_sizes) == 0
                        && bytes == 1),
                    _ => false,
                }
            },
            PresizedEvent::Pinned { ok: false } => presized_action(c, event) is ReturnError,
            PresizedEvent::Backing { base_ptr } => presized_action(c, event) == if base_ptr is Some {
                CaptureAction::RunCapture
            } else {
                CaptureAction::ReturnError
            },
            PresizedEvent::Capture => presized_action(c, event) is ReturnCapture,
        },
{
    match event {
        PresizedEvent::Pinned { ok } => {
            if ok {
                let next = c.pool.len() as int;
                assert(pinned_added(c).pool =~= c.window->Pinning_pinned_sizes.take(next + 1));
            }
        },
        _ => {},
    }
}

/// A window takes what answers its last action: it never gets stuck on the way from its opening to
/// its end.
pub proof fn law_window_takes_answers(
    c: CaptureView,
    event: CaptureEvent,
    ok: bool,
    base_ptr: Option<u64>,
)
    requires
        c.wf(),
        capture_takes(c, event),
    ensures
        ({
            let after = capture_after(c, event);
            match capture_action(c, event) {
                CaptureAction::RunDryRun => arena_fits(after.measured) ==> capture_takes(
                    after,
                    CaptureEvent::DryRun { ok },
                ),
                CaptureAction::AllocBacking { .. } => capture_takes(
                    after,
                    CaptureEvent::Backing { base_ptr },
                ),
                CaptureAction::RunCapture => capture_takes(after, CaptureEvent::Capture),
                CaptureAction::AllocPinned { .. } => false,
                _ => forall|thread: u64| #[trigger]
                    capture_takes(after, CaptureEvent::Start { thread }),
            }
        }),
        arena_fits(c.measured) && c.window is DryRun ==> capture_takes(
            c,
            CaptureEvent::DryRun { ok },
        ),
        c.window is DryRun ==> capture_takes(c, CaptureEvent::DryRun { ok: false }),
        c.window is Capturing ==> capture_takes(c, CaptureEvent::Capture),
{
}

/// A request whose size fits the machine with room for alignment can be looked at in any state.
pub proof fn law_ordinary_request_fits(c: CaptureView, thread: u64, bytes: int)
    requires
        bytes + 255 <= usize::MAX,
    ensures
        alloc_fits(c, thread, bytes),
{
}

/// A staging buffer that is kept goes behind those before it, in its own length, and is the one that
/// the capture's upload at that place finds.
pub proof fn law_staged_buffers_keep_order(c: CaptureView, len: usize, i: int)
    requires
        0 <= i < c.pool.len(),
    ensures
        staged(c, len).pool.len() == c.pool.len() + 1,
        staged(c, len).pool.last() == len,
        staged(c, len).pool[i] == c.pool[i],
        staged(c, len) == (CaptureView { pool: staged(c, len).pool, ..c }),
{
}

/// A window runs its dry run, then asks for memory, then runs its capture, and then returns what the
/// capture returned; a dry run that fails is returned at once, and so is the failure to get memory.
pub proof fn law_window_in_order(c: CaptureView, thread: u64, base_ptr: u64)
    ensures
        capture_action(c, CaptureEvent::Start { thread }) is RunDryRun,
        capture_action(c, CaptureEvent::DryRun { ok: true }) is AllocBacking,
        capture_action(c, CaptureEvent::DryRun { ok: false }) is ReturnDryRun,
        capture_action(c, CaptureEvent::Backing { base_ptr: Some(base_ptr) }) is RunCapture,
        capture_action(c, CaptureEvent::Backing { base_ptr: None }) is ReturnError,
        capture_action(c, CaptureEvent::Capture) is ReturnCapture,
{
}

/// What an ended window leaves behind: the arena, the measured sizes and the staging buffers are as
/// they were, and nothing is captured any more.
pub proof fn law_ended_window_keeps_plan(c: CaptureView, event: CaptureEvent)
    requires
        ends_window(capture_action(c, event)),
    ensures
        ({
            let after = capture_after(c, event);
            &&& after.measured == c.measured
            &&& after.pool == c.pool
            &&& after.arena == c.arena
            &&& after.window is Closed
            &&& after.mode is Normal
            &&& after.thread is None
        }),
{
}

} // verus!
