use candle_cuda::arena::{arena_align, sum_aligned, CaptureArena};
use candle_cuda::capture::{
    AllocRoute, CaptureAction, CaptureEvent, CaptureState, PresizedEvent, UploadRoute,
};
use candle_cuda::error::ErrorOf;

const ME: u64 = 7;
const OTHER: u64 = 8;
const BASE: u64 = 0x7000_0000;

#[test]
fn unit_arena_align_rounds_up_to_256() {
    assert_eq!(arena_align(0), 0);
    assert_eq!(arena_align(1), 256);
    assert_eq!(arena_align(255), 256);
    assert_eq!(arena_align(256), 256);
    assert_eq!(arena_align(257), 512);
    assert_eq!(arena_align(4096), 4096);
}

#[test]
fn arena_hands_out_aligned_disjoint_ranges() {
    let mut arena = CaptureArena::new(BASE, 1024);
    assert_eq!(arena.base_ptr(), BASE);
    assert_eq!(arena.bump_alloc(10, 4), Ok(0));
    assert_eq!(arena.bump_alloc(65, 4), Ok(256));
    assert_eq!(arena.bump_alloc(0, 8), Ok(768));
    assert_eq!(arena.bump_alloc(256, 1), Ok(768));
    assert_eq!(arena.bump_alloc(0, 4), Ok(1024));
    assert_eq!(
        arena.bump_alloc(1, 1),
        Err(ErrorOf::ArenaExhausted { offset: 1024, bytes: 1, total_bytes: 1024 })
    );
}

#[test]
fn refused_request_uses_up_room() {
    let mut arena = CaptureArena::new(BASE, 512);
    assert_eq!(
        arena.bump_alloc(513, 1),
        Err(ErrorOf::ArenaExhausted { offset: 0, bytes: 513, total_bytes: 512 })
    );
    assert_eq!(
        arena.bump_alloc(1, 1),
        Err(ErrorOf::ArenaExhausted { offset: 768, bytes: 1, total_bytes: 512 })
    );
}

#[test]
fn arena_cursor_never_starts_over() {
    let mut arena = CaptureArena::new(BASE, 1024);
    assert!(arena.bump_alloc(usize::MAX - 255, 1).is_err());
    assert!(arena.bump_alloc(usize::MAX - 255, 1).is_err());
    assert_eq!(
        arena.bump_alloc(1, 1),
        Err(ErrorOf::ArenaExhausted { offset: usize::MAX, bytes: 1, total_bytes: 1024 })
    );
}

#[test]
fn aligned_sizes_add_up() {
    assert_eq!(sum_aligned(&[]), Some(0));
    assert_eq!(sum_aligned(&[1, 256, 257]), Some(256 + 256 + 512));
    assert_eq!(sum_aligned(&[usize::MAX]), None);
    assert_eq!(sum_aligned(&[usize::MAX - 511, 257]), None);
}

fn measured_window(state: &mut CaptureState) {
    assert_eq!(
        state.with_capture_arena(CaptureEvent::Start { thread: ME }),
        CaptureAction::RunDryRun
    );
    assert_eq!(state.route_alloc(ME, 100, 4), Ok(AllocRoute::Direct));
    assert_eq!(
        state.clone_htod_capture_safe(ME, 6),
        Ok(UploadRoute::StageNew { len: 6 })
    );
    assert_eq!(state.route_alloc(ME, 6, 8), Ok(AllocRoute::Direct));
    state.stage_pinned(6);
    assert_eq!(state.route_alloc(ME, 3, 1), Ok(AllocRoute::Direct));
    assert!(state.measured_fits());
    assert_eq!(
        state.with_capture_arena(CaptureEvent::DryRun { ok: true }),
        CaptureAction::AllocBacking { bytes: 512 + 256 + 256 }
    );
    assert_eq!(
        state.with_capture_arena(CaptureEvent::Backing { base_ptr: Some(BASE) }),
        CaptureAction::RunCapture
    );
}

fn same_pass_is_granted(state: &mut CaptureState) {
    assert_eq!(
        state.route_alloc(ME, 100, 4),
        Ok(AllocRoute::Arena { base_ptr: BASE, offset: 0 })
    );
    assert_eq!(
        state.clone_htod_capture_safe(ME, 6),
        Ok(UploadRoute::Reuse { idx: 0 })
    );
    assert_eq!(
        state.route_alloc(ME, 6, 8),
        Ok(AllocRoute::Arena { base_ptr: BASE, offset: 512 })
    );
    assert_eq!(
        state.route_alloc(ME, 3, 1),
        Ok(AllocRoute::Arena { base_ptr: BASE, offset: 768 })
    );
}

#[test]
fn capture_replays_the_dry_run() {
    let mut state = CaptureState::new();
    measured_window(&mut state);
    same_pass_is_granted(&mut state);
    assert_eq!(
        state.with_capture_arena(CaptureEvent::Capture),
        CaptureAction::ReturnCapture
    );
    assert_eq!(state.capture_arena_plan(), (vec![400, 48, 3], vec![6]));
    assert_eq!(state.route_alloc(ME, 100, 4), Ok(AllocRoute::Gated));
    assert_eq!(state.clone_htod_capture_safe(ME, 6), Ok(UploadRoute::Plain));
    assert!(!state.is_current_thread_capturing(ME));
}

#[test]
fn capture_beyond_the_dry_run_is_refused() {
    let mut state = CaptureState::new();
    measured_window(&mut state);
    same_pass_is_granted(&mut state);
    assert_eq!(
        state.route_alloc(ME, 1, 1),
        Err(ErrorOf::ArenaExhausted { offset: 1024, bytes: 1, total_bytes: 1024 })
    );
    assert_eq!(
        state.clone_htod_capture_safe(ME, 6),
        Err(ErrorOf::PinnedExhausted { idx: 1, pool_len: 1 })
    );
    assert_eq!(
        state.with_capture_arena(CaptureEvent::Capture),
        CaptureAction::ReturnCapture
    );
}

#[test]
fn upload_of_another_length_is_refused() {
    let mut state = CaptureState::new();
    measured_window(&mut state);
    assert_eq!(
        state.clone_htod_capture_safe(ME, 5),
        Err(ErrorOf::PinnedLength { idx: 0, have: 6, need: 5 })
    );
    assert_eq!(
        state.clone_htod_capture_safe(ME, 6),
        Err(ErrorOf::PinnedExhausted { idx: 1, pool_len: 1 })
    );
}

#[test]
fn presized_window_is_as_good_as_measured() {
    let mut state = CaptureState::new();
    measured_window(&mut state);
    state.with_capture_arena(CaptureEvent::Capture);
    let (arena_sizes, pinned_sizes) = state.capture_arena_plan();

    let start = PresizedEvent::Start {
        thread: ME,
        arena_sizes: &arena_sizes,
        pinned_sizes: &pinned_sizes,
    };
    assert_eq!(
        state.with_capture_arena_presized(start),
        CaptureAction::AllocPinned { len: 6 }
    );
    assert_eq!(state.route_alloc(ME, 1, 1), Ok(AllocRoute::Gated));
    assert_eq!(
        state.with_capture_arena_presized(PresizedEvent::Pinned { ok: true }),
        CaptureAction::AllocBacking { bytes: 1024 }
    );
    assert_eq!(
        state.with_capture_arena_presized(PresizedEvent::Backing { base_ptr: Some(BASE) }),
        CaptureAction::RunCapture
    );
    same_pass_is_granted(&mut state);
    assert_eq!(
        state.with_capture_arena_presized(PresizedEvent::Capture),
        CaptureAction::ReturnCapture
    );
    assert_eq!(state.capture_arena_plan(), (vec![400, 48, 3], vec![6]));
}

#[test]
fn empty_plan_still_allocates_a_byte() {
    let mut state = CaptureState::new();
    let start = PresizedEvent::Start { thread: ME, arena_sizes: &[], pinned_sizes: &[] };
    assert_eq!(
        state.with_capture_arena_presized(start),
        CaptureAction::AllocBacking { bytes: 1 }
    );
}

#[test]
fn failures_close_the_window() {
    let mut state = CaptureState::new();
    state.with_capture_arena(CaptureEvent::Start { thread: ME });
    assert_eq!(
        state.with_capture_arena(CaptureEvent::DryRun { ok: false }),
        CaptureAction::ReturnDryRun
    );
    assert!(!state.is_current_thread_capturing(ME));

    state.with_capture_arena(CaptureEvent::Start { thread: ME });
    assert_eq!(state.route_alloc(ME, 5, 1), Ok(AllocRoute::Direct));
    state.with_capture_arena(CaptureEvent::DryRun { ok: true });
    assert_eq!(
        state.with_capture_arena(CaptureEvent::Backing { base_ptr: None }),
        CaptureAction::ReturnError
    );
    assert!(!state.is_current_thread_capturing(ME));
    assert_eq!(state.route_alloc(ME, 5, 1), Ok(AllocRoute::Gated));
    assert_eq!(state.capture_arena_plan(), (vec![5], vec![]));

    let start = PresizedEvent::Start { thread: ME, arena_sizes: &[1], pinned_sizes: &[2, 3] };
    assert_eq!(
        state.with_capture_arena_presized(start),
        CaptureAction::AllocPinned { len: 2 }
    );
    assert_eq!(
        state.with_capture_arena_presized(PresizedEvent::Pinned { ok: true }),
        CaptureAction::AllocPinned { len: 3 }
    );
    assert_eq!(
        state.with_capture_arena_presized(PresizedEvent::Pinned { ok: false }),
        CaptureAction::ReturnError
    );
    assert!(!state.is_current_thread_capturing(ME));
    assert_eq!(state.capture_arena_plan(), (vec![5], vec![2]));
}

#[test]
fn other_threads_wait_and_change_nothing() {
    let mut state = CaptureState::new();
    state.with_capture_arena(CaptureEvent::Start { thread: ME });
    assert!(state.is_current_thread_capturing(ME));
    assert!(!state.is_current_thread_capturing(OTHER));
    assert_eq!(state.route_alloc(OTHER, 100, 4), Ok(AllocRoute::Gated));
    assert_eq!(state.clone_htod_capture_safe(OTHER, 9), Ok(UploadRoute::Plain));
    assert_eq!(state.capture_arena_plan(), (vec![], vec![]));
    state.with_capture_arena(CaptureEvent::DryRun { ok: true });
    state.with_capture_arena(CaptureEvent::Backing { base_ptr: Some(BASE) });
    assert_eq!(state.route_alloc(OTHER, 100, 4), Ok(AllocRoute::Gated));
    assert_eq!(state.clone_htod_capture_safe(OTHER, 9), Ok(UploadRoute::Plain));
}

#[test]
fn request_sizes_are_checked_where_they_are_looked_at() {
    let mut state = CaptureState::new();
    assert!(state.alloc_size_fits(ME, usize::MAX, 8));
    state.with_capture_arena(CaptureEvent::Start { thread: ME });
    assert!(!state.alloc_size_fits(ME, usize::MAX, 8));
    assert!(state.alloc_size_fits(ME, usize::MAX, 1));
    assert!(state.alloc_size_fits(OTHER, usize::MAX, 8));
    state.with_capture_arena(CaptureEvent::DryRun { ok: true });
    state.with_capture_arena(CaptureEvent::Backing { base_ptr: Some(BASE) });
    assert!(!state.alloc_size_fits(ME, usize::MAX, 1));
    assert!(state.alloc_size_fits(ME, usize::MAX - 255, 1));
}
