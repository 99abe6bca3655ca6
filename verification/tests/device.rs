use candle_cuda::capture::{AllocRoute, CaptureAction, CaptureEvent, UploadRoute};
use candle_cuda::device::{
    ActiveStream, Allocation, CudaDevice, DeviceLocation, ForkAction, ForkEvent, FuncPlan,
    InitStep, PointerAction, PointerEvent, SeedAction, SeedEvent, StreamCapture, UniformAction,
    UniformEvent, Upload, WorkspaceSetAction, WorkspaceSetEvent, ZeroedRoute, DEFAULT_SEED,
};
use candle_cuda::device_id::{DeviceId, DeviceIds};
use candle_cuda::dtype::DType;
use candle_cuda::error::{ErrorOf, Op};

const ME: u64 = 3;

fn device() -> CudaDevice {
    let mut ids = DeviceIds::new();
    CudaDevice::brought_up(&mut ids, 2, 4)
}

#[test]
fn device_ids_count_up_from_one() {
    let mut ids = DeviceIds::new();
    let a = DeviceId::new(&mut ids);
    let b = DeviceId::new(&mut ids);
    assert_eq!(a.debug(), "DeviceId(1)");
    assert_eq!(b.debug(), "DeviceId(2)");
    assert_ne!(a, b);
    assert!(a.same(&a));
    assert!(!a.same(&b));
}

#[test]
fn bringing_up_a_device() {
    assert_eq!(
        CudaDevice::new(2),
        vec![
            InitStep::CreateContext { ordinal: 2 },
            InitStep::DefaultStream,
            InitStep::CreateBlas,
            InitStep::UploadOneZero,
            InitStep::CreateRng { seed: 299792458 },
        ]
    );
    assert_eq!(
        CudaDevice::new_with_stream(0),
        vec![
            InitStep::CreateContext { ordinal: 0 },
            InitStep::NewStream,
            InitStep::DisableEventTracking,
            InitStep::CreateBlas,
            InitStep::UploadOneZero,
            InitStep::CreateRng { seed: 299792458 },
        ]
    );
    let dev = device();
    assert_eq!(dev.location(), DeviceLocation::Cuda { gpu_id: 2 });
    assert_eq!(dev.debug(), "CudaDevice(DeviceId(1))");
    assert_eq!(dev.active_stream(), ActiveStream::Main);
    assert!(!dev.device_pointer_mode());
    assert_eq!(dev.get_current_seed(), DEFAULT_SEED);
}

#[test]
fn devices_are_told_apart_by_id() {
    let mut ids = DeviceIds::new();
    let a = CudaDevice::brought_up(&mut ids, 0, 1);
    let b = CudaDevice::brought_up(&mut ids, 0, 1);
    assert!(a.same_device(&a));
    assert!(!a.same_device(&b));
    assert_ne!(a.id(), b.id());
}

#[test]
fn seed_reads_back() {
    let mut dev = device();
    assert_eq!(dev.get_current_seed(), 299792458);
    assert_eq!(dev.set_seed(42, SeedEvent::Start), SeedAction::CreateRng { seed: 42 });
    assert_eq!(dev.get_current_seed(), 299792458);
    assert_eq!(dev.set_seed(42, SeedEvent::Created { ok: true }), SeedAction::Done);
    assert_eq!(dev.get_current_seed(), 42);
}

#[test]
fn failed_seeding_keeps_the_seed() {
    let mut dev = device();
    dev.set_seed(7, SeedEvent::Start);
    assert_eq!(dev.set_seed(7, SeedEvent::Created { ok: false }), SeedAction::Fail);
    assert_eq!(dev.get_current_seed(), 299792458);
    dev.set_seed(8, SeedEvent::Created { ok: true });
    dev.set_seed(9, SeedEvent::Created { ok: false });
    assert_eq!(dev.get_current_seed(), 8);
}

#[test]
fn side_branch_is_created_once() {
    let mut dev = device();
    assert!(!dev.join_side_branch());
    assert_eq!(dev.fork_side_branch(ForkEvent::Start), ForkAction::Create);
    assert_eq!(dev.fork_side_branch(ForkEvent::Created { ok: true }), ForkAction::Fence);
    assert_eq!(dev.active_stream(), ActiveStream::Main);
    assert_eq!(dev.fork_side_branch(ForkEvent::Fenced { ok: true }), ForkAction::Done);
    assert_eq!(dev.active_stream(), ActiveStream::Side);
    assert_eq!(dev.active_stream_ptr(100, 200), 200);
    dev.pause_side_branch();
    assert_eq!(dev.active_stream_ptr(100, 200), 100);
    assert_eq!(dev.active_stream(), ActiveStream::Main);
    assert!(dev.join_side_branch());
    assert_eq!(dev.fork_side_branch(ForkEvent::Start), ForkAction::Fence);
    assert_eq!(dev.fork_side_branch(ForkEvent::Fenced { ok: true }), ForkAction::Done);
    assert!(dev.join_side_branch());
    assert_eq!(dev.active_stream(), ActiveStream::Main);
}

#[test]
fn failed_fork_leaves_work_where_it_was() {
    let mut dev = device();
    assert_eq!(dev.fork_side_branch(ForkEvent::Created { ok: false }), ForkAction::Fail);
    assert_eq!(dev.fork_side_branch(ForkEvent::Start), ForkAction::Create);
    dev.fork_side_branch(ForkEvent::Created { ok: true });
    assert_eq!(dev.fork_side_branch(ForkEvent::Fenced { ok: false }), ForkAction::Fail);
    assert_eq!(dev.active_stream(), ActiveStream::Main);
}

#[test]
fn pointer_mode_is_on_only_while_work_runs() {
    for ok in [true, false] {
        let mut dev = device();
        assert_eq!(
            dev.with_cublas_device_pointer_mode(PointerEvent::Start),
            PointerAction::SetDevice
        );
        assert!(!dev.device_pointer_mode());
        assert_eq!(
            dev.with_cublas_device_pointer_mode(PointerEvent::DeviceSet { ok }),
            PointerAction::Run { warn: !ok }
        );
        assert!(dev.device_pointer_mode());
        assert_eq!(
            dev.with_cublas_device_pointer_mode(PointerEvent::Ran),
            PointerAction::SetHost
        );
        assert!(!dev.device_pointer_mode());
        assert_eq!(
            dev.with_cublas_device_pointer_mode(PointerEvent::HostSet { ok }),
            PointerAction::Return { warn: !ok }
        );
        assert!(!dev.device_pointer_mode());
    }
}

#[test]
fn workspace_is_set_once() {
    let mut dev = device();
    assert_eq!(
        dev.ensure_cublas_workspace(64, WorkspaceSetEvent::Start),
        WorkspaceSetAction::AllocWorkspace { bytes: 64 }
    );
    assert_eq!(
        dev.ensure_cublas_workspace(64, WorkspaceSetEvent::Allocated { ok: false }),
        WorkspaceSetAction::Fail
    );
    assert_eq!(
        dev.ensure_cublas_workspace(64, WorkspaceSetEvent::Allocated { ok: true }),
        WorkspaceSetAction::SetWorkspace { bytes: 64 }
    );
    assert_eq!(
        dev.ensure_cublas_workspace(64, WorkspaceSetEvent::Answered { status: 7 }),
        WorkspaceSetAction::Refused { status: 7 }
    );
    assert_eq!(
        dev.ensure_cublas_workspace(64, WorkspaceSetEvent::Start),
        WorkspaceSetAction::AllocWorkspace { bytes: 64 }
    );
    assert_eq!(
        dev.ensure_cublas_workspace(64, WorkspaceSetEvent::Answered { status: 0 }),
        WorkspaceSetAction::Done
    );
    assert_eq!(
        dev.ensure_cublas_workspace(4096, WorkspaceSetEvent::Start),
        WorkspaceSetAction::Done
    );
}

#[test]
fn modules_are_loaded_once() {
    let mut dev = device();
    assert_eq!(dev.get_or_load_func(3), FuncPlan::LoadModule);
    dev.module_loaded(3);
    assert_eq!(dev.get_or_load_func(3), FuncPlan::FromLoaded);
    assert_eq!(dev.get_or_load_func(2), FuncPlan::LoadModule);
}

#[test]
fn custom_modules_are_found_by_name() {
    let mut dev = device();
    assert_eq!(dev.get_or_load_custom_func("mine"), FuncPlan::LoadModule);
    dev.custom_module_loaded("mine");
    assert_eq!(dev.get_or_load_custom_func("mine"), FuncPlan::FromLoaded);
    assert_eq!(dev.get_or_load_custom_func("min"), FuncPlan::LoadModule);
    dev.custom_module_loaded("other");
    assert_eq!(dev.get_or_load_custom_func("mine"), FuncPlan::FromLoaded);
    assert_eq!(dev.get_or_load_custom_func("other"), FuncPlan::FromLoaded);
}

#[test]
fn only_an_active_capture_counts() {
    assert!(CudaDevice::is_capturing(Some(StreamCapture::Active)));
    assert!(!CudaDevice::is_capturing(Some(StreamCapture::Inactive)));
    assert!(!CudaDevice::is_capturing(Some(StreamCapture::Invalidated)));
    assert!(!CudaDevice::is_capturing(None));
}

#[test]
fn tensors_are_granted_by_element_count() {
    let mut dev = device();
    assert_eq!(
        dev.zeros_impl(ME, &[2, 3], DType::BF16),
        Ok(Allocation {
            device: dev.id(),
            route: AllocRoute::Gated,
            dtype: DType::BF16,
            len: 6,
            zeroed: true,
            clear: false,
        })
    );
    assert_eq!(
        dev.alloc_uninit(ME, &[5], DType::F8E4M3),
        Ok(Allocation {
            device: dev.id(),
            route: AllocRoute::Gated,
            dtype: DType::F8E4M3,
            len: 5,
            zeroed: false,
            clear: false,
        })
    );
    for dtype in [DType::F6E2M3, DType::F6E3M2, DType::F4, DType::F8E8M0] {
        assert_eq!(dev.zeros_impl(ME, &[2, 3], dtype), Err(ErrorOf::DummyDType));
        assert_eq!(dev.alloc_uninit(ME, &[2, 3], dtype), Err(ErrorOf::DummyDType));
    }
}

#[test]
fn tensors_take_part_in_captures() {
    let mut dev = device();
    assert_eq!(
        dev.with_capture_arena(CaptureEvent::Start { thread: ME }),
        CaptureAction::RunDryRun
    );
    let sizes = [
        (DType::U8, 1usize),
        (DType::F8E4M3, 1),
        (DType::I16, 2),
        (DType::BF16, 2),
        (DType::F16, 2),
        (DType::U32, 4),
        (DType::I32, 4),
        (DType::F32, 4),
        (DType::I64, 8),
        (DType::F64, 8),
    ];
    let mut expected = Vec::new();
    for (dtype, bytes) in sizes {
        assert_eq!(dtype.size_in_bytes(), bytes);
        assert_eq!(dev.zeros_impl(ME, &[3, 100], dtype).unwrap().route, AllocRoute::Direct);
        expected.push(300 * bytes);
    }
    assert_eq!(dev.alloc_elems(ME, 10, 4), Ok(AllocRoute::Direct));
    expected.push(40);
    assert!(dev.alloc_size_fits(ME, 10, 4));
    assert_eq!(dev.clone_htod_capture_safe(ME, 2), Ok(UploadRoute::StageNew { len: 2 }));
    dev.stage_pinned(2);
    assert_eq!(dev.capture_arena_plan(), (expected, vec![2]));
    assert!(dev.capture().measured_fits());
    dev.with_capture_arena(CaptureEvent::DryRun { ok: true });
    dev.with_capture_arena(CaptureEvent::Backing { base_ptr: Some(4096) });
    assert_eq!(
        dev.zeros_impl(ME, &[3, 100], DType::U8),
        Ok(Allocation {
            device: dev.id(),
            route: AllocRoute::Arena { base_ptr: 4096, offset: 0 },
            dtype: DType::U8,
            len: 300,
            zeroed: true,
            clear: true,
        })
    );
    assert_eq!(
        dev.alloc_zeros(ME, 1, 4),
        Ok(ZeroedRoute { route: AllocRoute::Arena { base_ptr: 4096, offset: 512 }, clear: true })
    );
    let plain = dev.alloc_uninit(ME, &[1], DType::I16).unwrap();
    assert!(matches!(plain.route, AllocRoute::Arena { .. }));
    assert!(!plain.clear);
}

#[test]
fn only_arena_memory_is_cleared() {
    assert!(AllocRoute::Arena { base_ptr: 0, offset: 0 }.needs_clearing());
    assert!(!AllocRoute::Direct.needs_clearing());
    assert!(!AllocRoute::Gated.needs_clearing());
    let mut dev = device();
    let gated = ZeroedRoute { route: AllocRoute::Gated, clear: false };
    assert_eq!(dev.alloc_zeros(ME, 3, 4), Ok(gated));
    dev.with_capture_arena(CaptureEvent::Start { thread: ME });
    assert_eq!(
        dev.alloc_zeros(ME, 3, 4),
        Ok(ZeroedRoute { route: AllocRoute::Direct, clear: false })
    );
    assert_eq!(dev.alloc_zeros(ME + 1, 3, 4), Ok(gated));
    assert_eq!(dev.capture_arena_plan(), (vec![12], vec![]));
}

#[test]
fn uniform_numbers_are_scaled_off_the_unit_interval() {
    let mut dev = device();
    let filled = UniformEvent::Filled { ok: true };
    match dev.rand_uniform(ME, &[7], DType::F32, true, UniformEvent::Start) {
        Ok(UniformAction::Fill { buffer }) => {
            assert_eq!((buffer.len, buffer.dtype, buffer.zeroed), (7, DType::F32, false))
        }
        other => panic!("{other:?}"),
    }
    assert_eq!(dev.rand_uniform(ME, &[7], DType::F32, true, filled), Ok(UniformAction::Done));
    assert!(dev.rand_uniform(ME, &[7], DType::F64, false, UniformEvent::Start).is_ok());
    match dev.rand_uniform(ME, &[7], DType::F64, false, filled) {
        Ok(UniformAction::Scale { into }) => {
            assert_eq!((into.len, into.dtype, into.zeroed), (7, DType::F64, false))
        }
        other => panic!("{other:?}"),
    }
    for unit_interval in [true, false] {
        let failed = UniformEvent::Filled { ok: false };
        assert_eq!(
            dev.rand_uniform(ME, &[7], DType::F64, unit_interval, failed),
            Ok(UniformAction::Fail)
        );
    }
    for dtype in [
        DType::U8,
        DType::U32,
        DType::I16,
        DType::I32,
        DType::I64,
        DType::BF16,
        DType::F16,
        DType::F8E4M3,
        DType::F6E2M3,
        DType::F6E3M2,
        DType::F4,
        DType::F8E8M0,
    ] {
        assert_eq!(
            dev.rand_uniform(ME, &[7], dtype, true, UniformEvent::Start),
            Err(ErrorOf::UnsupportedDType { dtype, op: Op::RandUniform })
        );
        assert_eq!(
            dev.rand_normal(ME, &[7], dtype),
            Err(ErrorOf::UnsupportedDType { dtype, op: Op::RandNormal })
        );
    }
}

#[test]
fn scaled_numbers_take_two_buffers() {
    let filled = UniformEvent::Filled { ok: true };
    let mut dev = device();
    dev.with_capture_arena(CaptureEvent::Start { thread: ME });
    dev.rand_uniform(ME, &[10], DType::F32, true, UniformEvent::Start).unwrap();
    dev.rand_uniform(ME, &[10], DType::F32, true, filled).unwrap();
    assert_eq!(dev.capture_arena_plan().0, vec![40]);
    dev.rand_uniform(ME, &[3], DType::F64, false, UniformEvent::Start).unwrap();
    assert_eq!(dev.capture_arena_plan().0, vec![40, 24]);
    dev.rand_uniform(ME, &[3], DType::F64, false, filled).unwrap();
    assert_eq!(dev.capture_arena_plan().0, vec![40, 24, 24]);

    let mut dev = device();
    dev.with_capture_arena(CaptureEvent::Start { thread: ME });
    dev.rand_uniform(ME, &[10], DType::F32, false, UniformEvent::Start).unwrap();
    dev.with_capture_arena(CaptureEvent::DryRun { ok: true });
    dev.with_capture_arena(CaptureEvent::Backing { base_ptr: Some(4096) });
    assert!(dev.rand_uniform(ME, &[10], DType::F32, false, UniformEvent::Start).is_ok());
    assert!(matches!(
        dev.rand_uniform(ME, &[10], DType::F32, false, filled),
        Err(ErrorOf::ArenaExhausted { .. })
    ));
}

#[test]
fn normal_numbers_come_in_pairs() {
    let mut dev = device();
    assert_eq!(dev.rand_normal(ME, &[7], DType::F32).unwrap().len, 8);
    assert_eq!(dev.rand_normal(ME, &[2, 4], DType::F64).unwrap().len, 8);
    assert_eq!(dev.rand_normal(ME, &[0], DType::F32).unwrap().len, 0);
}

#[test]
fn packed_host_tensors_are_not_uploaded() {
    let dev = device();
    let upload = |dtype: DType, len: usize| Upload { device: dev.id(), dtype, len };
    assert_eq!(dev.storage_from_slice(DType::I16, 3), Ok(upload(DType::I16, 3)));
    assert_eq!(dev.storage_from_cpu_storage(DType::F8E4M3, 0), Ok(upload(DType::F8E4M3, 0)));
    assert_eq!(dev.storage_from_cpu_storage_owned(DType::F64, 9), Ok(upload(DType::F64, 9)));
    for dtype in [DType::U8, DType::U32, DType::I32, DType::I64, DType::BF16, DType::F16] {
        let owned = dev.storage_from_cpu_storage_owned(dtype, 5);
        assert_eq!(owned, Ok(upload(dtype, 5)));
        assert_eq!(dev.storage_from_cpu_storage(dtype, 5), owned);
        assert_eq!(dev.storage_from_slice(dtype, 5), owned);
    }
    for dtype in [DType::F6E2M3, DType::F6E3M2, DType::F4, DType::F8E8M0] {
        assert!(dtype.is_dummy());
        assert_eq!(
            dev.storage_from_slice(dtype, 4),
            Err(ErrorOf::UnsupportedDType { dtype, op: Op::StorageFromSlice })
        );
        assert_eq!(
            dev.storage_from_cpu_storage(dtype, 4),
            Err(ErrorOf::UnsupportedDType { dtype, op: Op::StorageFromCpuStorage })
        );
        assert_eq!(
            dev.storage_from_cpu_storage_owned(dtype, 4),
            Err(ErrorOf::UnsupportedDType { dtype, op: Op::StorageFromCpuStorageOwned })
        );
    }
}

#[test]
fn grants_name_their_device() {
    let mut ids = DeviceIds::new();
    let mut devices = [
        CudaDevice::brought_up(&mut ids, 0, 1),
        CudaDevice::brought_up(&mut ids, 1, 1),
    ];
    for dev in &mut devices {
        let id = dev.id();
        assert_eq!(dev.zeros_impl(ME, &[2], DType::F32).unwrap().device, id);
        assert_eq!(dev.alloc_uninit(ME, &[2], DType::F32).unwrap().device, id);
        assert_eq!(dev.rand_normal(ME, &[2], DType::F32).unwrap().device, id);
        match dev.rand_uniform(ME, &[2], DType::F32, true, UniformEvent::Start) {
            Ok(UniformAction::Fill { buffer }) => assert_eq!(buffer.device, id),
            other => panic!("{other:?}"),
        }
    }
    assert_ne!(devices[0].id(), devices[1].id());
}

#[test]
fn sizes_are_tested_before_grants() {
    let mut dev = device();
    let huge = [usize::MAX, 2];
    let odd = [usize::MAX];
    assert!(dev.tensor_size_fits(ME, &[3, 4], DType::F64));
    assert!(!dev.tensor_size_fits(ME, &huge, DType::U8));
    assert!(!dev.rand_uniform_size_fits(ME, &huge, DType::F32));
    assert!(dev.rand_uniform_size_fits(ME, &[7], DType::F32));
    assert!(dev.rand_normal_size_fits(ME, &[7], DType::F32));
    assert!(!dev.rand_normal_size_fits(ME, &odd, DType::F32));
    dev.with_capture_arena(CaptureEvent::Start { thread: ME });
    assert!(!dev.tensor_size_fits(ME, &odd, DType::F64));
    assert!(!dev.rand_uniform_size_fits(ME, &odd, DType::F64));
    assert!(!dev.rand_normal_size_fits(ME, &[usize::MAX / 4], DType::F64));
    assert!(dev.tensor_size_fits(ME, &odd, DType::F4));
    assert!(dev.rand_uniform_size_fits(ME, &odd, DType::U32));
}
