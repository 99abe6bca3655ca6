use candle_cuda::device::{CudaDevice, ForkEvent};
use candle_cuda::device_id::DeviceIds;
use candle_cuda::dtype::GgmlDType;
use candle_cuda::error::ErrorOf;
use candle_cuda::launch::{Kernel, KernelArgs, LaunchConfig, Span, Step};
use candle_cuda::moe::{
    indexed_moe_forward_fused_q8_1_input, moe_out_dims_fit, moe_shape, moe_split,
    moe_workspace_demand, MoeBuffers, MoeInput, MoeShape, MoeSplit,
};
use candle_cuda::moe_tier::{
    mmq_dtype_eligible, moe_col_stride, moe_config, moe_dump, moe_geom_y64,
    moe_grouped_min_tasks_from_raw, moe_kernel, moe_tier, MoeEnv, MoeGrid, MoeTier,
};
use candle_cuda::moe_workspace::{
    moe_workspace_key, MoeWorkspaces, WorkspaceAction, WorkspaceEvent,
};

fn env() -> MoeEnv<'static> {
    MoeEnv {
        grouped: "",
        min_tasks: None,
        mma: "",
        geom: None,
        col_stride: None,
        mma_col_stride: None,
        checksum: "",
    }
}

fn layer(batch: usize, input_dim1: usize, topk: usize) -> MoeShape {
    MoeShape { num_experts: 16, n: 96, k: 512, batch, input_dim1, topk }
}

const BUF: MoeBuffers = MoeBuffers { weight_len: 1_000_000, ids_len: 50_000, out_capacity: 77 };

#[test]
fn unit_moe_grouped_min_tasks_default_and_override() {
    assert_eq!(moe_grouped_min_tasks_from_raw(None), 1024);
    assert_eq!(moe_grouped_min_tasks_from_raw(Some("512")), 512);
    assert_eq!(moe_grouped_min_tasks_from_raw(Some("not-a-number")), 1024);
    assert_eq!(moe_grouped_min_tasks_from_raw(Some("0")), 1024);
}

#[test]
fn regression_task_count_gate_separates_decode_from_prefill_scale() {
    let min_tasks = moe_grouped_min_tasks_from_raw(None);
    let decode_width_n32_tasks = 32 * 8;
    let prefill_chunk_tasks = 4096;
    assert!(
        decode_width_n32_tasks < min_tasks,
        "decode-width task count ({decode_width_n32_tasks}) must sit below the default \
         threshold ({min_tasks})"
    );
    assert!(
        prefill_chunk_tasks >= min_tasks,
        "a prefill chunk ({prefill_chunk_tasks} tasks) must clear the default threshold \
         ({min_tasks})"
    );
}

#[test]
fn unit_mmq_dtype_eligible_full_precedence_table() {
    let others = ["q5k", "q6k"];
    assert!(mmq_dtype_eligible("", true, "q4k", &others), "unset defers to the task count");
    assert!(mmq_dtype_eligible("1", true, "q4k", &others), "\"1\" force-enables");
    assert!(mmq_dtype_eligible("q4k", true, "q4k", &others), "own key force-enables");
    assert!(
        mmq_dtype_eligible("unrecognized-typo", true, "q4k", &others),
        "unrecognized value defers to the task count, does not silently disable"
    );
    assert!(!mmq_dtype_eligible("", false, "q4k", &others), "unset defers to the task count");
    assert!(
        mmq_dtype_eligible("1", false, "q4k", &others),
        "\"1\" force-enables regardless of the task count"
    );
    assert!(
        mmq_dtype_eligible("q4k", false, "q4k", &others),
        "own key force-enables regardless of the task count"
    );
    assert!(
        !mmq_dtype_eligible("0", true, "q4k", &others),
        "\"0\" force-disables even when the task count is true"
    );
    assert!(
        !mmq_dtype_eligible("0", false, "q4k", &others),
        "\"0\" force-disables when the task count is false too"
    );
    assert!(
        !mmq_dtype_eligible("q5k", true, "q4k", &others),
        "a sibling's key excludes this dtype even when the task count is true"
    );
    assert!(
        !mmq_dtype_eligible("q6k", true, "q4k", &others),
        "the OTHER sibling's key excludes this dtype too"
    );
}

#[test]
fn task_count_decides_the_tier_by_default() {
    for dtype in [GgmlDType::Q4K, GgmlDType::Q5K, GgmlDType::Q6K] {
        assert_eq!(moe_tier(dtype, 1023, &env()), MoeTier::TaskMajor);
        assert_eq!(moe_tier(dtype, 1024, &env()), MoeTier::Tiled);
        let lower = MoeEnv { min_tasks: Some("64"), ..env() };
        assert_eq!(moe_tier(dtype, 63, &lower), MoeTier::TaskMajor);
        assert_eq!(moe_tier(dtype, 64, &lower), MoeTier::Tiled);
    }
    assert_eq!(moe_tier(GgmlDType::Q8_0, 5000, &env()), MoeTier::TaskMajor);
    assert_eq!(moe_tier(GgmlDType::Q2K, 5000, &env()), MoeTier::TaskMajor);
}

#[test]
fn overrides_force_the_tier() {
    let off = MoeEnv { grouped: "0", ..env() };
    let on = MoeEnv { grouped: "1", ..env() };
    let only_q5k = MoeEnv { grouped: "q5k", ..env() };
    let typo = MoeEnv { grouped: "yes", ..env() };
    assert_eq!(moe_tier(GgmlDType::Q4K, 5000, &off), MoeTier::TaskMajor);
    assert_eq!(moe_tier(GgmlDType::Q4K, 1, &on), MoeTier::Tiled);
    assert_eq!(moe_tier(GgmlDType::Q5K, 1, &only_q5k), MoeTier::Tiled);
    assert_eq!(moe_tier(GgmlDType::Q4K, 5000, &only_q5k), MoeTier::TaskMajor);
    assert_eq!(moe_tier(GgmlDType::Q6K, 5000, &only_q5k), MoeTier::TaskMajor);
    assert_eq!(moe_tier(GgmlDType::Q6K, 5000, &typo), MoeTier::Tiled);
    assert_eq!(moe_tier(GgmlDType::Q6K, 5, &typo), MoeTier::TaskMajor);
}

#[test]
fn grouped_tier_is_bounded() {
    let on = MoeEnv { grouped: "1", ..env() };
    assert_eq!(moe_tier(GgmlDType::Q8_0, 32, &on), MoeTier::TaskMajor);
    assert_eq!(moe_tier(GgmlDType::Q8_0, 33, &on), MoeTier::Grouped);
    assert_eq!(moe_tier(GgmlDType::Q8_0, 1024, &on), MoeTier::Grouped);
    assert_eq!(moe_tier(GgmlDType::Q8_0, 1025, &on), MoeTier::TaskMajor);
    let key = MoeEnv { grouped: "q4k", ..env() };
    assert_eq!(moe_tier(GgmlDType::Q8_0, 100, &key), MoeTier::TaskMajor);
}

#[test]
fn tensor_cores_come_first() {
    let mma = MoeEnv { mma: "1", grouped: "1", ..env() };
    assert_eq!(moe_tier(GgmlDType::Q4K, 33, &mma), MoeTier::Mma);
    assert_eq!(moe_tier(GgmlDType::Q4K, 32, &mma), MoeTier::Tiled);
    assert_eq!(moe_tier(GgmlDType::Q5K, 33, &mma), MoeTier::Tiled);
    assert_eq!(MoeTier::Mma.label(), "mma_moe");
    assert_eq!(MoeTier::Tiled.label(), "mmq_moe");
    assert_eq!(MoeTier::Grouped.label(), "grp_family");
    assert_eq!(MoeTier::TaskMajor.label(), "task_major");
}

#[test]
fn kernels_by_tier_and_format() {
    let task = |dtype, warp_rows| Some((Kernel::MoeTask { dtype, warp_rows }, warp_rows));
    assert_eq!(moe_kernel(MoeTier::Mma, GgmlDType::Q4K, 512, true), Some((Kernel::MoeMma, false)));
    assert_eq!(
        moe_kernel(MoeTier::Tiled, GgmlDType::Q5K, 512, true),
        Some((Kernel::MoeTiled { dtype: GgmlDType::Q5K, y64: true }, false))
    );
    assert_eq!(
        moe_kernel(MoeTier::Tiled, GgmlDType::Q6K, 512, true),
        Some((Kernel::MoeTiled { dtype: GgmlDType::Q6K, y64: false }, false))
    );
    assert_eq!(
        moe_kernel(MoeTier::Grouped, GgmlDType::Q8_0, 512, false),
        Some((Kernel::MoeGrouped, true))
    );
    assert_eq!(moe_kernel(MoeTier::TaskMajor, GgmlDType::Q4K, 2303, false), task(GgmlDType::Q4K, true));
    assert_eq!(moe_kernel(MoeTier::TaskMajor, GgmlDType::Q4K, 2304, false), task(GgmlDType::Q4K, false));
    assert_eq!(moe_kernel(MoeTier::TaskMajor, GgmlDType::Q5K, 1279, false), task(GgmlDType::Q5K, true));
    assert_eq!(moe_kernel(MoeTier::TaskMajor, GgmlDType::Q6K, 1280, false), task(GgmlDType::Q6K, false));
    assert_eq!(moe_kernel(MoeTier::TaskMajor, GgmlDType::Q2K, 256, false), task(GgmlDType::Q2K, false));
    assert_eq!(moe_kernel(MoeTier::TaskMajor, GgmlDType::Q3K, 256, false), task(GgmlDType::Q3K, false));
    assert_eq!(moe_kernel(MoeTier::TaskMajor, GgmlDType::Q8_0, 256, false), task(GgmlDType::Q8_0, false));
    assert_eq!(moe_kernel(MoeTier::TaskMajor, GgmlDType::Q4_0, 256, false), None);
    assert_eq!(moe_kernel(MoeTier::TaskMajor, GgmlDType::Q8K, 256, false), None);
}

#[test]
fn settings_are_read() {
    assert!(moe_geom_y64(Some("y64")));
    assert!(!moe_geom_y64(Some("y32")));
    assert!(!moe_geom_y64(None));
    assert_eq!(moe_col_stride(None, 2), 2);
    assert_eq!(moe_col_stride(Some("1"), 2), 1);
    assert_eq!(moe_col_stride(Some("256"), 2), 256);
    assert_eq!(moe_col_stride(Some("257"), 2), 2);
    assert_eq!(moe_col_stride(Some("0"), 4), 4);
    assert_eq!(moe_col_stride(Some("x"), 4), 4);
    assert_eq!(moe_col_stride(Some("4294967297"), 4), 4);
}

fn cfg(grid_dim: (u32, u32, u32), block_dim: (u32, u32, u32)) -> LaunchConfig {
    LaunchConfig { grid_dim, block_dim, shared_mem_bytes: 0 }
}

#[test]
fn geometry_by_tier() {
    let g = MoeGrid { n: 130, num_experts: 60, batch: 9, topk: 8 };
    let set = MoeEnv {
        geom: Some("y64"),
        col_stride: Some("16"),
        mma_col_stride: Some("7"),
        ..env()
    };
    assert_eq!(
        moe_config(MoeTier::Mma, GgmlDType::Q4K, false, g, &env()),
        cfg((2, 4, 60), (256, 1, 1))
    );
    assert_eq!(
        moe_config(MoeTier::Mma, GgmlDType::Q4K, false, g, &set),
        cfg((2, 7, 60), (256, 1, 1))
    );
    assert_eq!(
        moe_config(MoeTier::Tiled, GgmlDType::Q4K, false, g, &env()),
        cfg((5, 2, 60), (32, 4, 1))
    );
    assert_eq!(
        moe_config(MoeTier::Tiled, GgmlDType::Q5K, false, g, &set),
        cfg((3, 16, 60), (32, 8, 1))
    );
    assert_eq!(
        moe_config(MoeTier::Tiled, GgmlDType::Q6K, false, g, &set),
        cfg((5, 16, 60), (32, 4, 1))
    );
    assert_eq!(
        moe_config(MoeTier::Grouped, GgmlDType::Q8_0, true, g, &env()),
        cfg((33, 60, 1), (32, 4, 1))
    );
    assert_eq!(
        moe_config(MoeTier::TaskMajor, GgmlDType::Q4K, true, g, &env()),
        cfg((33, 9, 8), (32, 4, 1))
    );
    assert_eq!(
        moe_config(MoeTier::TaskMajor, GgmlDType::Q2K, false, g, &env()),
        cfg((130, 9, 8), (32, 4, 1))
    );
}

#[test]
fn blocks_cover_every_row_of_their_kernel() {
    let tall = MoeEnv { geom: Some("y64"), ..env() };
    for n in [1usize, 31, 32, 33, 63, 64, 65, 127, 128, 129, 1000] {
        let g = MoeGrid { n, num_experts: 3, batch: 5, topk: 2 };
        for (tier, dtype, env) in [
            (MoeTier::Mma, GgmlDType::Q4K, env()),
            (MoeTier::Tiled, GgmlDType::Q4K, env()),
            (MoeTier::Tiled, GgmlDType::Q4K, tall),
            (MoeTier::Tiled, GgmlDType::Q6K, tall),
            (MoeTier::Grouped, GgmlDType::Q8_0, env()),
            (MoeTier::TaskMajor, GgmlDType::Q5K, env()),
            (MoeTier::TaskMajor, GgmlDType::Q2K, env()),
        ] {
            let (kernel, warp_rows) = moe_kernel(tier, dtype, 512, moe_geom_y64(env.geom)).unwrap();
            let launch = moe_config(tier, dtype, warp_rows, g, &env);
            let rows = match kernel {
                Kernel::MoeMma => 128,
                Kernel::MoeTiled { y64: true, .. } => 64,
                Kernel::MoeTiled { y64: false, .. } => 32,
                Kernel::MoeGrouped | Kernel::MoeTask { warp_rows: true, .. } => 4,
                _ => 1,
            };
            let blocks = launch.grid_dim.0 as usize;
            assert!(n <= blocks * rows && blocks * rows < n + rows, "{kernel:?} {n}");
            if let Kernel::MoeTiled { y64, .. } = kernel {
                assert_eq!(launch.block_dim.1, if y64 { 8 } else { 4 });
            }
        }
    }
}

#[test]
fn first_matching_layer_is_dumped() {
    let mut dumped = false;
    assert!(!moe_dump(MoeTier::Mma, GgmlDType::Q4K, 1024, 2048, "", &mut dumped));
    assert!(!dumped);
    assert!(!moe_dump(MoeTier::TaskMajor, GgmlDType::Q4K, 1024, 2048, "1", &mut dumped));
    assert!(!moe_dump(MoeTier::Tiled, GgmlDType::Q5K, 1024, 2048, "1", &mut dumped));
    assert!(!moe_dump(MoeTier::Tiled, GgmlDType::Q4K, 1023, 2048, "1", &mut dumped));
    assert!(!dumped);
    assert!(moe_dump(MoeTier::Tiled, GgmlDType::Q4K, 1024, 2048, "1", &mut dumped));
    assert!(dumped);
    assert!(!moe_dump(MoeTier::Mma, GgmlDType::Q4K, 1024, 2048, "1", &mut dumped));
}

#[test]
fn layer_sizes_are_read_off_shapes() {
    assert_eq!(
        moe_shape(&[16, 96, 512], &[5, 1, 512], &[5, 8]),
        Ok(MoeShape { num_experts: 16, n: 96, k: 512, batch: 5, input_dim1: 1, topk: 8 })
    );
    assert_eq!(
        moe_shape(&[16, 96], &[5, 1, 512], &[5, 8]),
        Err(ErrorOf::UnexpectedRank { expected: 3, got: 2, shape: vec![16, 96] })
    );
    let s = MoeShape { k: 100, ..layer(5, 8, 8) };
    assert_eq!(moe_workspace_demand(&s), (5 * 8 * 96, 40 * 576));
    assert!(s.sizes_fit());
    assert!(!MoeShape { n: usize::MAX, ..s }.sizes_fit());
    assert!(!MoeShape { k: usize::MAX, ..s }.sizes_fit());
    assert!(!MoeShape { batch: usize::MAX, ..s }.sizes_fit());
}

#[test]
fn tasks_are_split_at_token_or_task_boundaries() {
    let tiled = MoeTier::Tiled;
    assert_eq!(moe_split(tiled, &layer(128, 1, 8)), MoeSplit::Whole);
    assert_eq!(
        moe_split(tiled, &layer(129, 1, 8)),
        MoeSplit::Chunked { units: 129, per_unit: 8, chunk: 128 }
    );
    assert_eq!(
        moe_split(MoeTier::Mma, &layer(129, 8, 8)),
        MoeSplit::Chunked { units: 1032, per_unit: 1, chunk: 1024 }
    );
    assert_eq!(moe_split(tiled, &layer(129, 2, 8)), MoeSplit::Refused);
    assert_eq!(moe_split(MoeTier::TaskMajor, &layer(129, 2, 8)), MoeSplit::Whole);
    assert_eq!(moe_split(MoeTier::Grouped, &layer(129, 2, 8)), MoeSplit::Whole);
    assert_eq!(moe_split(tiled, &layer(3, 1, 2048)), MoeSplit::Refused);
    assert_eq!(moe_split(MoeTier::Mma, &layer(1, 1, 2000)), MoeSplit::Refused);
    assert_eq!(moe_split(tiled, &layer(1, 1, 1024)), MoeSplit::Whole);
    assert_eq!(
        moe_split(tiled, &layer(2, 1, 1024)),
        MoeSplit::Chunked { units: 2, per_unit: 1024, chunk: 1 }
    );
    assert_eq!(
        moe_split(tiled, &layer(3, 2048, 2048)),
        MoeSplit::Chunked { units: 6144, per_unit: 1, chunk: 1024 }
    );
}

fn spans(step: &Step) -> (Span, Span, Span, i32, i32, i32) {
    match step {
        Step::Launch { args: KernelArgs::Moe { input, ids, out, batch, topk, input_dim1, .. }, .. } => {
            (*input, *ids, *out, *batch, *topk, *input_dim1)
        }
        other => panic!("not an expert launch: {other:?}"),
    }
}

#[test]
fn token_runs_tile_every_buffer() {
    let s = layer(300, 1, 8);
    let input = MoeInput::Q8_1 { len: 300 * 576 };
    let p = indexed_moe_forward_fused_q8_1_input(&s, GgmlDType::Q4K, input, &[300, 1, 512], BUF, &env());
    assert_eq!(p.outcome, Ok(vec![300, 8, 96]));
    assert_eq!(p.steps.len(), 4);
    let kernel = Kernel::MoeTiled { dtype: GgmlDType::Q4K, y64: false };
    assert_eq!(p.steps[0], Step::Load { kernel });
    let expect = [(0usize, 128usize), (128, 128), (256, 44)];
    for (step, (start, len)) in p.steps[1..].iter().zip(expect) {
        assert_eq!(
            spans(step),
            (
                Span { start: start * 576, len: len * 576 },
                Span { start: start * 8, len: len * 8 },
                Span { start: start * 8 * 96, len: len * 8 * 96 },
                len as i32,
                8,
                1,
            )
        );
        assert!(len * 8 <= 1024);
    }
}

#[test]
fn task_runs_become_single_task_tokens() {
    let s = layer(300, 8, 8);
    let mma = MoeEnv { mma: "1", ..env() };
    let input = MoeInput::Q8_1 { len: 2400 * 576 };
    let p = indexed_moe_forward_fused_q8_1_input(&s, GgmlDType::Q4K, input, &[300, 8, 512], BUF, &mma);
    assert_eq!(p.outcome, Ok(vec![300, 8, 96]));
    assert_eq!(p.steps[0], Step::Load { kernel: Kernel::MoeMma });
    let expect = [(0usize, 1024usize), (1024, 1024), (2048, 352)];
    assert_eq!(p.steps.len(), 4);
    for (step, (start, len)) in p.steps[1..].iter().zip(expect) {
        assert_eq!(
            spans(step),
            (
                Span { start: start * 576, len: len * 576 },
                Span { start, len },
                Span { start: start * 96, len: len * 96 },
                len as i32,
                1,
                1,
            )
        );
    }
}

#[test]
fn small_layer_is_one_whole_launch() {
    let s = layer(4, 1, 8);
    let p = indexed_moe_forward_fused_q8_1_input(
        &s,
        GgmlDType::Q5K,
        MoeInput::F32 { len: 9999 },
        &[4, 1, 512],
        BUF,
        &env(),
    );
    assert_eq!(p.outcome, Ok(vec![4, 8, 96]));
    let quantize = Kernel::QuantizeQ8_1;
    let task = Kernel::MoeTask { dtype: GgmlDType::Q5K, warp_rows: true };
    assert_eq!(
        p.steps,
        vec![
            Step::Load { kernel: quantize },
            Step::Launch {
                kernel: quantize,
                cfg: cfg((2, 4, 1), (256, 1, 1)),
                args: KernelArgs::Quantize {
                    src: Span { start: 0, len: 4 * 512 },
                    dst: Span { start: 0, len: 4 * 576 },
                    k: 512,
                    kx_padded: 512,
                },
            },
            Step::Load { kernel: task },
            Step::Launch {
                kernel: task,
                cfg: cfg((24, 4, 8), (32, 4, 1)),
                args: KernelArgs::Moe {
                    input: Span { start: 0, len: 4 * 576 },
                    ids: Span { start: 0, len: 50_000 },
                    out: Span { start: 0, len: 77 },
                    n: 96,
                    k: 512,
                    batch: 4,
                    topk: 8,
                    k_padded: 512,
                    input_dim1: 1,
                },
            },
        ]
    );
}

#[test]
fn quantized_input_skips_quantization() {
    let s = layer(4, 1, 8);
    let dims = [4, 1, 512];
    let run = |input| indexed_moe_forward_fused_q8_1_input(&s, GgmlDType::Q3K, input, &dims, BUF, &env());
    let from_f32 = run(MoeInput::F32 { len: 2048 });
    let from_bf16 = run(MoeInput::Bf16 { len: 2048 });
    let ready = run(MoeInput::Q8_1 { len: 4 * 576 });
    assert_eq!(from_f32.steps[2..], ready.steps[..]);
    assert_eq!(from_bf16.steps[2..], ready.steps[..]);
    assert_eq!(from_bf16.steps[0], Step::Load { kernel: Kernel::QuantizeQ8_1Bf16 });
    let longer = run(MoeInput::Q8_1 { len: 4 * 576 + 3 });
    assert_eq!(spans(&longer.steps[1]).0, Span { start: 0, len: 4 * 576 + 3 });
}

#[test]
fn layers_are_refused_in_order() {
    let dims = [300, 1, 512];
    let mma = MoeEnv { mma: "1", ..env() };
    let ok = MoeInput::Q8_1 { len: usize::MAX };
    let short = indexed_moe_forward_fused_q8_1_input(
        &layer(300, 1, 8),
        GgmlDType::Q4_0,
        MoeInput::Q8_1 { len: 300 * 576 - 1 },
        &dims,
        BUF,
        &env(),
    );
    assert_eq!(short.outcome, Err(ErrorOf::MoeInputBytes { have: 300 * 576 - 1, need: 300 * 576 }));
    assert!(short.steps.is_empty());

    let unsupported = indexed_moe_forward_fused_q8_1_input(
        &layer(300, 1, 8),
        GgmlDType::Q4_0,
        MoeInput::F32 { len: 0 },
        &dims,
        BUF,
        &env(),
    );
    assert_eq!(unsupported.outcome, Err(ErrorOf::UnsupportedMoe { dtype: GgmlDType::Q4_0 }));
    assert_eq!(unsupported.steps.len(), 2);

    let inner = indexed_moe_forward_fused_q8_1_input(
        &MoeShape { k: 300, n: 0, ..layer(300, 1, 8) },
        GgmlDType::Q4K,
        ok,
        &dims,
        BUF,
        &mma,
    );
    assert_eq!(inner.outcome, Err(ErrorOf::MmaInner { k: 300 }));
    assert_eq!(inner.steps, vec![Step::Load { kernel: Kernel::MoeMma }]);

    let rows = indexed_moe_forward_fused_q8_1_input(
        &MoeShape { n: 0, ..layer(300, 1, 8) },
        GgmlDType::Q4K,
        ok,
        &dims,
        BUF,
        &mma,
    );
    assert_eq!(rows.outcome, Err(ErrorOf::MmaRows));

    let unchunkable = indexed_moe_forward_fused_q8_1_input(
        &layer(300, 2, 8),
        GgmlDType::Q4K,
        ok,
        &[300, 2, 512],
        BUF,
        &env(),
    );
    assert_eq!(
        unchunkable.outcome,
        Err(ErrorOf::MoeUnchunkable { total_tasks: 2400, input_dim1: 2, topk: 8 })
    );
    assert_eq!(unchunkable.steps.len(), 1);

    let overflowing = indexed_moe_forward_fused_q8_1_input(
        &layer(1, 1, 2000),
        GgmlDType::Q4K,
        ok,
        &[1, 1, 512],
        BUF,
        &env(),
    );
    assert_eq!(
        overflowing.outcome,
        Err(ErrorOf::MoeUnchunkable { total_tasks: 2000, input_dim1: 1, topk: 2000 })
    );
    assert_eq!(overflowing.steps.len(), 1);

    let flat = indexed_moe_forward_fused_q8_1_input(
        &layer(4, 1, 8),
        GgmlDType::Q4K,
        ok,
        &[4, 1],
        BUF,
        &env(),
    );
    assert_eq!(flat.outcome, Err(ErrorOf::Reshape { elems: 3072, shape: vec![4, 8] }));
    assert_eq!(flat.steps.len(), 2);
}

#[test]
fn checksums_come_ahead_of_tensor_core_launches() {
    let checked = MoeEnv { mma: "1", checksum: "1", ..env() };
    let s = layer(8, 1, 8);
    let input = MoeInput::Q8_1 { len: 8 * 576 };
    let p = indexed_moe_forward_fused_q8_1_input(&s, GgmlDType::Q4K, input, &[8, 1, 512], BUF, &checked);
    assert_eq!(
        p.steps[1..5],
        [
            Step::Load { kernel: Kernel::MoeChecksum },
            Step::AllocChecksum,
            Step::Launch {
                kernel: Kernel::MoeChecksum,
                cfg: cfg((256, 1, 1), (256, 1, 1)),
                args: KernelArgs::MoeChecksum {
                    weight_len: 1_000_000,
                    input: Span { start: 0, len: 8 * 576 },
                    input_len: 8 * 576,
                    ids_len: 50_000,
                },
            },
            Step::ReportChecksum,
        ]
    );
    assert_eq!(p.steps.len(), 6);
    let tiled = MoeEnv { grouped: "1", checksum: "1", ..env() };
    let p = indexed_moe_forward_fused_q8_1_input(&s, GgmlDType::Q4K, input, &[8, 1, 512], BUF, &tiled);
    assert_eq!(p.steps.len(), 2);
}

fn two_devices() -> (CudaDevice, CudaDevice) {
    let mut ids = DeviceIds::new();
    (CudaDevice::brought_up(&mut ids, 0, 1), CudaDevice::brought_up(&mut ids, 1, 1))
}

#[test]
fn work_on_the_side_stream_has_its_own_buffers() {
    let (mut dev, other) = two_devices();
    let main = moe_workspace_key(&dev, 100, 200);
    assert_eq!(main, (dev.id(), 100));
    assert_ne!(moe_workspace_key(&other, 100, 200), main);
    dev.fork_side_branch(ForkEvent::Start);
    dev.fork_side_branch(ForkEvent::Created { ok: true });
    assert_eq!(moe_workspace_key(&dev, 100, 200), main);
    dev.fork_side_branch(ForkEvent::Fenced { ok: true });
    assert_eq!(moe_workspace_key(&dev, 100, 200), (dev.id(), 200));
    dev.join_side_branch();
    assert_eq!(moe_workspace_key(&dev, 100, 200), main);
}

#[test]
fn workspace_grows_on_demand_and_is_reused() {
    let (dev, _) = two_devices();
    let key = moe_workspace_key(&dev, 100, 0);
    let mut w = MoeWorkspaces::new();
    assert_eq!(w.stream_ptr(key), None);
    assert_eq!(
        w.moe_workspace_ensure(key, 50, 9, WorkspaceEvent::Start),
        WorkspaceAction::AllocInput { bytes: 9, zeroed: false }
    );
    assert_eq!(
        w.moe_workspace_ensure(key, 50, 9, WorkspaceEvent::InputReady),
        WorkspaceAction::CountHandles
    );
    assert_eq!(w.stream_ptr(key), Some(100));
    assert_eq!(
        w.moe_workspace_ensure(key, 50, 9, WorkspaceEvent::Counted { counts: &[] }),
        WorkspaceAction::AllocOut { slot: 0, elems: 50, zeroed: true }
    );
    assert_eq!(
        w.moe_workspace_ensure(key, 50, 9, WorkspaceEvent::OutReady { slot: 0 }),
        WorkspaceAction::Ready { slot: 0 }
    );
    assert_eq!(w.slot_capacity(key, 0), Some(50));
    assert_eq!(w.slot_capacity(key, 1), None);

    assert_eq!(
        w.moe_workspace_ensure(key, 50, 9, WorkspaceEvent::Start),
        WorkspaceAction::CountHandles
    );
    assert_eq!(
        w.moe_workspace_ensure(key, 40, 3, WorkspaceEvent::Counted { counts: &[1] }),
        WorkspaceAction::Ready { slot: 0 }
    );
    assert_eq!(
        w.moe_workspace_ensure(key, 51, 3, WorkspaceEvent::Counted { counts: &[1] }),
        WorkspaceAction::AllocOut { slot: 0, elems: 51, zeroed: true }
    );
    assert_eq!(
        w.moe_workspace_ensure(key, 40, 10, WorkspaceEvent::Start),
        WorkspaceAction::AllocInput { bytes: 10, zeroed: false }
    );
}

#[test]
fn held_outputs_are_never_overwritten() {
    let (dev, _) = two_devices();
    let key = moe_workspace_key(&dev, 100, 0);
    let mut w = MoeWorkspaces::new();
    w.moe_workspace_ensure(key, 50, 9, WorkspaceEvent::InputReady);
    w.moe_workspace_ensure(key, 50, 9, WorkspaceEvent::OutReady { slot: 0 });
    assert_eq!(
        w.moe_workspace_ensure(key, 50, 9, WorkspaceEvent::Counted { counts: &[2] }),
        WorkspaceAction::AllocOut { slot: 1, elems: 50, zeroed: true }
    );
    w.moe_workspace_ensure(key, 50, 9, WorkspaceEvent::OutReady { slot: 1 });
    assert_eq!(
        w.moe_workspace_ensure(key, 50, 9, WorkspaceEvent::Counted { counts: &[2, 1] }),
        WorkspaceAction::Ready { slot: 1 }
    );
    assert_eq!(
        w.moe_workspace_ensure(key, 50, 9, WorkspaceEvent::Counted { counts: &[1, 1] }),
        WorkspaceAction::Ready { slot: 0 }
    );
    assert_eq!(
        w.moe_workspace_ensure(key, 50, 9, WorkspaceEvent::Counted { counts: &[3, 2] }),
        WorkspaceAction::AllocOut { slot: 2, elems: 50, zeroed: true }
    );
}

#[test]
fn devices_and_streams_do_not_share_buffers() {
    let (a, b) = two_devices();
    let mut w = MoeWorkspaces::new();
    let keys = [
        moe_workspace_key(&a, 100, 0),
        moe_workspace_key(&a, 200, 0),
        moe_workspace_key(&b, 100, 0),
    ];
    w.moe_workspace_ensure(keys[0], 50, 9, WorkspaceEvent::InputReady);
    w.moe_workspace_ensure(keys[0], 50, 9, WorkspaceEvent::OutReady { slot: 0 });
    for key in &keys[1..] {
        assert_eq!(
            w.moe_workspace_ensure(*key, 50, 9, WorkspaceEvent::Start),
            WorkspaceAction::AllocInput { bytes: 9, zeroed: false }
        );
        w.moe_workspace_ensure(*key, 50, 9, WorkspaceEvent::InputReady);
        assert_eq!(w.slot_capacity(*key, 0), None);
        assert_eq!(w.stream_ptr(*key), Some(key.1));
    }
    assert_eq!(w.slot_capacity(keys[0], 0), Some(50));
}

#[test]
fn launches_stay_within_their_buffers() {
    for (batch, input_dim1, topk) in [(300, 1, 8), (300, 8, 8), (2, 1, 1024), (5, 1, 8)] {
        let s = layer(batch, input_dim1, topk);
        let (out_elems, input_bytes) = moe_workspace_demand(&s);
        let buf = MoeBuffers { weight_len: 0, ids_len: batch * topk, out_capacity: out_elems };
        let input = MoeInput::Q8_1 { len: input_bytes };
        let dims = [batch, input_dim1, 512];
        assert!(moe_out_dims_fit(&s, &dims));
        let p =
            indexed_moe_forward_fused_q8_1_input(&s, GgmlDType::Q4K, input, &dims, buf, &env());
        let mut ends = (0, 0, 0);
        for step in &p.steps {
            if let Step::Launch { args: KernelArgs::Moe { input, ids, out, .. }, .. } = step {
                ends = (input.start + input.len, ids.start + ids.len, out.start + out.len);
                assert!(ends.0 <= input_bytes && ends.1 <= buf.ids_len && ends.2 <= out_elems);
            }
        }
        assert_eq!(ends, (input_bytes, buf.ids_len, out_elems));
    }
}

#[test]
fn output_dimensions_have_to_fit() {
    let s = layer(2, 1, 8);
    assert!(moe_out_dims_fit(&s, &[2, 1, 512]));
    assert!(!moe_out_dims_fit(&s, &[2]));
    assert!(!moe_out_dims_fit(&s, &[usize::MAX, 1, 512]));
}
