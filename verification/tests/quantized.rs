use candle_cuda::dequantize::{dequantize_f16, dequantize_f32};
use candle_cuda::device_id::{DeviceId, DeviceIds};
use candle_cuda::dtype::{DType, GgmlDType};
use candle_cuda::error::{Error, ErrorOf, Op};
use candle_cuda::launch::{
    Kernel, KernelArgs, LaunchConfig, Program, Span, Step, CUDA_DEQUANTIZE_BLOCK_SIZE,
    CUDA_QUANTIZE_BLOCK_SIZE, GGML_CUDA_MMV_X, GGML_CUDA_MMV_Y, MATRIX_ROW_PADDING,
    MMQ_X_Q4_0_AMPERE, MMQ_Y_Q4_0_AMPERE, NWARPS_Q4_0_AMPERE, WARP_SIZE,
};
use candle_cuda::matmul::{
    checked_data_elems, dequantize_mul_mat_vec, mul_mat_tile, mul_mat_vec_via_q8_1,
    mul_mat_via_q8_1, scratch_sizes_fit,
};
use candle_cuda::moe::{MoeInput, MoeShape};
use candle_cuda::quantize::{quantize_q8_1, quantize_q8_1_from_bf16, quantize_sizes_fit};
use candle_cuda::storage::{
    load_quantized, padded_len_fits, set_force_dmmv, DequantizePlan, DmmvMode, Encoding, FwdPlan,
    Layout, MoeCall, QCudaStorage, QuantizeAction, QuantizeEvent,
};
use candle_cuda::{arith::pad, dummy_cuda};

fn dev() -> DeviceId {
    let mut ids = DeviceIds::new();
    DeviceId::new(&mut ids)
}

fn cfg(grid_dim: (u32, u32, u32), block_dim: (u32, u32, u32)) -> LaunchConfig {
    LaunchConfig { grid_dim, block_dim, shared_mem_bytes: 0 }
}

#[test]
fn launch_constants() {
    assert_eq!(WARP_SIZE, 32);
    assert_eq!(MMQ_X_Q4_0_AMPERE, 4);
    assert_eq!(MMQ_Y_Q4_0_AMPERE, 32);
    assert_eq!(NWARPS_Q4_0_AMPERE, 4);
    assert_eq!(GGML_CUDA_MMV_X, 32);
    assert_eq!(GGML_CUDA_MMV_Y, 1);
    assert_eq!(CUDA_QUANTIZE_BLOCK_SIZE, 256);
    assert_eq!(CUDA_DEQUANTIZE_BLOCK_SIZE, 256);
    assert_eq!(MATRIX_ROW_PADDING, 512);
}

#[test]
fn block_formats_have_their_sizes() {
    let sizes = [
        (GgmlDType::F32, 1, 4),
        (GgmlDType::F16, 1, 2),
        (GgmlDType::BF16, 1, 2),
        (GgmlDType::Q4_0, 32, 18),
        (GgmlDType::Q4_1, 32, 20),
        (GgmlDType::Q5_0, 32, 22),
        (GgmlDType::Q5_1, 32, 24),
        (GgmlDType::Q8_0, 32, 34),
        (GgmlDType::Q8_1, 32, 36),
        (GgmlDType::Q2K, 256, 84),
        (GgmlDType::Q3K, 256, 110),
        (GgmlDType::Q4K, 256, 144),
        (GgmlDType::Q5K, 256, 176),
        (GgmlDType::Q6K, 256, 210),
        (GgmlDType::Q8K, 256, 292),
    ];
    for (dtype, block, bytes) in sizes {
        assert_eq!((dtype.block_size(), dtype.type_size()), (block, bytes));
    }
}

#[test]
fn cuda_quantize_q8_1() {
    let el = 256;
    let el_padded = pad(el, MATRIX_ROW_PADDING);
    let y_size_in_bytes = el_padded * GgmlDType::Q8_1.type_size() / GgmlDType::Q8_1.block_size();
    let mut steps = Vec::new();
    quantize_q8_1(&mut steps, el, 1);
    assert_eq!(
        steps,
        vec![
            Step::Load { kernel: Kernel::QuantizeQ8_1 },
            Step::Launch {
                kernel: Kernel::QuantizeQ8_1,
                cfg: cfg((2, 1, 1), (256, 1, 1)),
                args: KernelArgs::Quantize {
                    src: Span { start: 0, len: 256 },
                    dst: Span { start: 0, len: y_size_in_bytes },
                    k: 256,
                    kx_padded: 512,
                },
            },
        ]
    );
}

#[test]
fn many_rows_are_quantized_in_runs() {
    let mut steps = Vec::new();
    quantize_q8_1_from_bf16(&mut steps, 600, 2 * 65535 + 10);
    assert_eq!(steps.len(), 4);
    assert_eq!(steps[0], Step::Load { kernel: Kernel::QuantizeQ8_1Bf16 });
    let row = 1024 / 32 * 36;
    for (i, (start, rows)) in [(0, 65535), (65535, 65535), (131070, 10)].iter().enumerate() {
        assert_eq!(
            steps[i + 1],
            Step::Launch {
                kernel: Kernel::QuantizeQ8_1Bf16,
                cfg: cfg((4, *rows as u32, 1), (256, 1, 1)),
                args: KernelArgs::Quantize {
                    src: Span { start: start * 600, len: rows * 600 },
                    dst: Span { start: start * row, len: rows * row },
                    k: 600,
                    kx_padded: 1024,
                },
            }
        );
    }
    let mut none = Vec::new();
    quantize_q8_1(&mut none, 600, 0);
    assert_eq!(none, vec![Step::Load { kernel: Kernel::QuantizeQ8_1 }]);
    assert!(quantize_sizes_fit(600, 10));
    assert!(!quantize_sizes_fit(usize::MAX, 0));
    assert!(!quantize_sizes_fit(600, usize::MAX));
}

fn dequantized(program: Program<()>) -> (u32, u32, Option<i32>) {
    assert_eq!(program.outcome, Ok(()));
    match program.steps[2] {
        Step::Launch { cfg, args: KernelArgs::Dequantize { count }, .. } => {
            assert_eq!((cfg.grid_dim.1, cfg.grid_dim.2), (1, 1));
            (cfg.grid_dim.0, cfg.block_dim.0, count)
        }
        other => panic!("not a dequantize launch: {other:?}"),
    }
}

#[test]
fn dequantize_geometry_by_format() {
    let elems = 1025;
    for (dtype, expected) in [
        (GgmlDType::Q4_0, (5, 32, Some(32))),
        (GgmlDType::Q4_1, (5, 32, Some(32))),
        (GgmlDType::Q5_0, (3, 256, Some(1025))),
        (GgmlDType::Q5_1, (3, 256, Some(1025))),
        (GgmlDType::Q8_0, (5, 32, Some(32))),
        (GgmlDType::Q2K, (5, 64, None)),
        (GgmlDType::Q3K, (5, 64, None)),
        (GgmlDType::Q4K, (5, 32, None)),
        (GgmlDType::Q5K, (5, 64, None)),
        (GgmlDType::Q6K, (5, 64, None)),
        (GgmlDType::Q8K, (5, 32, None)),
    ] {
        assert_eq!(dequantized(dequantize_f32(dtype, elems)), expected);
        assert_eq!(dequantized(dequantize_f16(dtype, elems)), expected);
    }
    let p = dequantize_f16(GgmlDType::Q4K, elems);
    assert_eq!(p.steps[0], Step::Load { kernel: Kernel::DequantizeF16 { dtype: GgmlDType::Q4K } });
    assert_eq!(p.steps[1], Step::AllocOut { dtype: DType::F16, len: 1025 });
    let p = dequantize_f32(GgmlDType::Q4K, elems);
    assert_eq!(p.steps[0], Step::Load { kernel: Kernel::DequantizeF32 { dtype: GgmlDType::Q4K } });
    assert_eq!(p.steps[1], Step::AllocOut { dtype: DType::F32, len: 1025 });
}

#[test]
fn floats_have_no_dequantize_kernel() {
    for dtype in [GgmlDType::F32, GgmlDType::F16, GgmlDType::BF16, GgmlDType::Q8_1] {
        let p = dequantize_f32(dtype, 64);
        assert_eq!(p.outcome, Err(ErrorOf::UnsupportedDequantize { dtype }));
        assert!(p.steps.is_empty());
        assert_eq!(
            dequantize_f16(dtype, 64).outcome,
            Err(ErrorOf::UnsupportedDequantize { dtype })
        );
    }
}

#[test]
fn unpacking_vector_product() {
    let p = dequantize_mul_mat_vec(144, 256, GgmlDType::Q4_0, 256, 1);
    let kernel = Kernel::DequantizeMulMatVec { dtype: GgmlDType::Q4_0 };
    assert_eq!(p.outcome, Ok(()));
    assert_eq!(
        p.steps,
        vec![
            Step::Load { kernel },
            Step::AllocOut { dtype: DType::F32, len: 1 },
            Step::Launch {
                kernel,
                cfg: cfg((1, 1, 1), (32, 1, 1)),
                args: KernelArgs::MatVec { ncols: 256, nrows: 1 },
            },
        ]
    );
    let refused = |data_len, y_len, dtype| dequantize_mul_mat_vec(data_len, y_len, dtype, 256, 1);
    assert_eq!(
        refused(143, 256, GgmlDType::Q4_0).outcome,
        Err(ErrorOf::DataSize { data_elems: 224, ncols: 256, nrows: 1 })
    );
    assert_eq!(
        refused(144, 255, GgmlDType::Q4_0).outcome,
        Err(ErrorOf::YSize { len: 255, ncols: 256, nrows: 1 })
    );
    let p = refused(292, 256, GgmlDType::Q8K);
    assert_eq!(p.outcome, Err(ErrorOf::UnsupportedMatmul { dtype: GgmlDType::Q8K }));
    assert!(p.steps.is_empty());
}

#[test]
fn one_quantized_vector_product() {
    let p = mul_mat_vec_via_q8_1(144, 256, GgmlDType::Q4_0, 256, 1, 1);
    let kernel = Kernel::MulMatVecQ8_1 { dtype: GgmlDType::Q4_0, b_size: 1 };
    assert_eq!(p.outcome, Ok(()));
    assert_eq!(p.steps.len(), 6);
    assert_eq!(p.steps[0], Step::AllocScratch { bytes: 576, zeroed: true });
    assert_eq!(p.steps[1], Step::Load { kernel: Kernel::QuantizeQ8_1 });
    assert_eq!(
        p.steps[3..],
        [
            Step::Load { kernel },
            Step::AllocOut { dtype: DType::F32, len: 1 },
            Step::Launch {
                kernel,
                cfg: cfg((1, 1, 1), (32, 4, 1)),
                args: KernelArgs::MatVecQ8_1 { ncols_x: 256, nrows_x: 1, nrows_y: 512, nrows_dst: 1 },
            },
        ]
    );
}

#[test]
fn vector_batches_have_their_geometry() {
    for (b_size, grid, warps) in [(1, 7, 4), (2, 4, 4), (4, 4, 4), (5, 4, 2), (8, 4, 2)] {
        let p = mul_mat_vec_via_q8_1(84 * 14, 512 * b_size, GgmlDType::Q2K, 512, 7, b_size);
        assert_eq!(p.outcome, Ok(()));
        assert_eq!(p.steps[0], Step::AllocScratch { bytes: 576 * b_size, zeroed: false });
        assert_eq!(p.steps[4], Step::AllocOut { dtype: DType::F32, len: 7 * b_size });
        match p.steps[5] {
            Step::Launch { cfg: launched, .. } => {
                assert_eq!(launched, cfg((grid, 1, 1), (32, warps, 1)))
            }
            other => panic!("not a launch: {other:?}"),
        }
    }
}

#[test]
fn vector_products_are_refused_in_order() {
    let run = |data_len, y_len, dtype, b| mul_mat_vec_via_q8_1(data_len, y_len, dtype, 256, 2, b);
    assert_eq!(
        run(143, 1, GgmlDType::Q4_0, 9).outcome,
        Err(ErrorOf::DataSize { data_elems: 224, ncols: 256, nrows: 2 })
    );
    assert_eq!(
        run(288, 1, GgmlDType::Q4_0, 9).outcome,
        Err(ErrorOf::YSize { len: 1, ncols: 256, nrows: 2 })
    );
    assert_eq!(
        run(288, 256 * 9, GgmlDType::Q4_0, 9).outcome,
        Err(ErrorOf::BatchSize { b_size: 9 })
    );
    let p = run(288, 0, GgmlDType::Q4_0, 0);
    assert_eq!(p.outcome, Err(ErrorOf::BatchSize { b_size: 0 }));
    assert!(p.steps.is_empty());
    let p = run(2048, 256, GgmlDType::F32, 1);
    assert_eq!(p.outcome, Err(ErrorOf::UnsupportedMatmul { dtype: GgmlDType::F32 }));
    assert_eq!(p.steps.len(), 3);
}

#[test]
fn square_matrix_product() {
    let p = mul_mat_via_q8_1(576, 1024, GgmlDType::Q4_0, 4, 256, 256, 4);
    let kernel = Kernel::MulMatQ8_1 { dtype: GgmlDType::Q4_0 };
    assert_eq!(p.outcome, Ok(()));
    assert_eq!(p.steps[0], Step::AllocScratch { bytes: 4 * 576, zeroed: true });
    assert_eq!(
        p.steps[3..],
        [
            Step::Load { kernel },
            Step::AllocOut { dtype: DType::F32, len: 16 },
            Step::Launch {
                kernel,
                cfg: cfg((1, 1, 1), (32, 4, 1)),
                args: KernelArgs::MatMatQ8_1 {
                    ncols_x: 256,
                    nrows_x: 4,
                    ncols_y: 4,
                    nrows_y: 512,
                    nrows_dst: 4,
                },
            },
        ]
    );
}

#[test]
fn cuda_mmv_q8_1() {
    let ncols = 256;
    let mut xs = QCudaStorage::zeros(dev(), ncols, GgmlDType::Q4_0).weights;
    quantize(&mut xs, ncols, ncols / 32 * 18);
    let p = mul_mat_vec_via_q8_1(xs.data.len, ncols, GgmlDType::Q4_0, ncols, 1, 1);
    assert_eq!(p.outcome, Ok(()));
    assert_eq!(p.steps[4], Step::AllocOut { dtype: DType::F32, len: 1 });
    let kernel = Kernel::MulMatVecQ8_1 { dtype: GgmlDType::Q4_0, b_size: 1 };
    assert_eq!(
        p.steps[5],
        Step::Launch {
            kernel,
            cfg: cfg((1, 1, 1), (32, 4, 1)),
            args: KernelArgs::MatVecQ8_1 { ncols_x: 256, nrows_x: 1, nrows_y: 512, nrows_dst: 1 },
        }
    );

    let p = dequantize_mul_mat_vec(xs.data.len, ncols, GgmlDType::Q4_0, ncols, 1);
    assert_eq!(p.outcome, Ok(()));
    assert_eq!(p.steps[1], Step::AllocOut { dtype: DType::F32, len: 1 });
    assert_eq!(
        p.steps[2],
        Step::Launch {
            kernel: Kernel::DequantizeMulMatVec { dtype: GgmlDType::Q4_0 },
            cfg: cfg((1, 1, 1), (32, 1, 1)),
            args: KernelArgs::MatVec { ncols: 256, nrows: 1 },
        }
    );
}

#[test]
fn cuda_mm_q8_1() {
    let ncols = 256;
    let mut xs = QCudaStorage::zeros(dev(), ncols * 4, GgmlDType::Q4_0).weights;
    quantize(&mut xs, ncols * 4, ncols * 4 / 32 * 18);
    let p = mul_mat_via_q8_1(xs.data.len, ncols * 4, GgmlDType::Q4_0, 4, ncols, ncols, 4);
    assert_eq!(p.outcome, Ok(()));
    assert_eq!(p.steps[4], Step::AllocOut { dtype: DType::F32, len: 16 });
    assert_eq!(
        p.steps[5],
        Step::Launch {
            kernel: Kernel::MulMatQ8_1 { dtype: GgmlDType::Q4_0 },
            cfg: cfg((1, 1, 1), (32, 4, 1)),
            args: KernelArgs::MatMatQ8_1 {
                ncols_x: 256,
                nrows_x: 4,
                ncols_y: 4,
                nrows_y: 512,
                nrows_dst: 4,
            },
        }
    );
}

#[test]
fn cuda_mm_q8_1_pad() {
    let (x_rows, ncols, y_cols) = (4, 16, 2048);
    let mut xs = QCudaStorage::zeros(dev(), ncols * x_rows, GgmlDType::Q4_0).weights;
    quantize(&mut xs, ncols * y_cols, ncols * y_cols / 32 * 18);
    let p = mul_mat_via_q8_1(
        xs.data.len,
        ncols * y_cols,
        GgmlDType::Q4_0,
        x_rows,
        ncols,
        ncols,
        y_cols,
    );
    assert_eq!(p.outcome, Ok(()));
    assert_eq!(p.steps[0], Step::AllocScratch { bytes: 2048 * 576, zeroed: true });
    assert_eq!(p.steps[4], Step::AllocOut { dtype: DType::F32, len: 4 * 2048 });
    match p.steps[5] {
        Step::Launch { cfg: launched, .. } => assert_eq!(launched, cfg((1, 32, 1), (32, 4, 1))),
        other => panic!("not a launch: {other:?}"),
    }
}

#[test]
fn matrix_tiles_by_format() {
    for (dtype, tile) in [
        (GgmlDType::Q4_0, Some((64, 128))),
        (GgmlDType::Q4_1, Some((64, 128))),
        (GgmlDType::Q5_0, Some((128, 64))),
        (GgmlDType::Q5_1, Some((128, 64))),
        (GgmlDType::Q8_0, Some((128, 64))),
        (GgmlDType::Q2K, Some((64, 128))),
        (GgmlDType::Q3K, Some((128, 128))),
        (GgmlDType::Q4K, Some((64, 128))),
        (GgmlDType::Q5K, Some((64, 128))),
        (GgmlDType::Q6K, Some((64, 64))),
        (GgmlDType::Q8K, None),
        (GgmlDType::Q8_1, None),
        (GgmlDType::BF16, None),
    ] {
        assert_eq!(mul_mat_tile(dtype), tile);
    }
}

#[test]
fn blocks_and_tiles_cover_the_output() {
    for rows in [1usize, 63, 64, 65, 128, 129] {
        for dtype in [GgmlDType::Q4_0, GgmlDType::Q8_0, GgmlDType::Q3K, GgmlDType::Q6K] {
            let (mmq_x, mmq_y) = mul_mat_tile(dtype).unwrap();
            let p = mul_mat_via_q8_1(1_000_000, 64 * rows, dtype, rows, 64, 64, rows);
            let Step::Launch { cfg: launched, .. } = p.steps[p.steps.len() - 1] else {
                panic!("not a launch")
            };
            for (blocks, tile) in [(launched.grid_dim.0, mmq_y), (launched.grid_dim.1, mmq_x)] {
                let covered = blocks as usize * tile;
                assert!(rows <= covered && covered < rows + tile);
            }
        }
    }
    for elems in [1usize, 255, 256, 257, 511, 512, 513] {
        for (dtype, tile) in [(GgmlDType::Q4_0, 256), (GgmlDType::Q5_1, 512), (GgmlDType::Q2K, 256)] {
            let (blocks, _, _) = dequantized(dequantize_f32(dtype, elems));
            let covered = blocks as usize * tile;
            assert!(elems <= covered && covered < elems + tile);
        }
    }
}

#[test]
fn matrix_products_are_refused_in_order() {
    let run = |data_len, y_len, dtype, y_rows| {
        mul_mat_via_q8_1(data_len, y_len, dtype, 2, 256, y_rows, 3)
    };
    assert_eq!(
        run(18, 0, GgmlDType::Q4_0, 1).outcome,
        Err(ErrorOf::LhsSize { data_elems: 32, x_rows: 2, x_cols: 256 })
    );
    assert_eq!(
        run(288, 767, GgmlDType::Q4_0, 256).outcome,
        Err(ErrorOf::RhsSize { len: 767, y_rows: 256, y_cols: 3 })
    );
    assert_eq!(
        run(288, 765, GgmlDType::Q4_0, 255).outcome,
        Err(ErrorOf::InnerSize { x_rows: 2, x_cols: 256, y_rows: 255, y_cols: 3 })
    );
    let p = run(584, 768, GgmlDType::Q8K, 256);
    assert_eq!(p.outcome, Err(ErrorOf::UnsupportedMatmul { dtype: GgmlDType::Q8K }));
    assert_eq!(p.steps.len(), 3);
    assert_eq!(checked_data_elems(300, GgmlDType::Q4K), Some(512));
    assert_eq!(checked_data_elems(usize::MAX, GgmlDType::Q2K), None);
    assert!(scratch_sizes_fit(8, 4096));
    assert!(!scratch_sizes_fit(usize::MAX, 1));
}

#[test]
fn zero_weights_are_padded_by_a_row() {
    for (dtype, el_count, len, padding) in [
        (GgmlDType::Q4_0, 256, 144, 288),
        (GgmlDType::Q4_0, 257, 162, 288),
        (GgmlDType::Q6K, 1, 210, 420),
        (GgmlDType::F32, 3, 12, 2048),
    ] {
        assert!(QCudaStorage::zeros_size_fits(el_count, dtype));
        let plan = QCudaStorage::zeros(dev(), el_count, dtype);
        assert_eq!((plan.bytes, plan.zeroed), (len + padding, true));
        assert_eq!(plan.copied, Span { start: 0, len: 0 });
        let s = plan.weights;
        assert_eq!(s.storage_size_in_bytes(), len);
        assert_eq!(s.data.inner_len, len + padding);
        assert_eq!(s.dtype(), dtype);
        assert_eq!(s.device(), dev());
        assert_eq!(s.data(), Span { start: 0, len });
    }
    assert!(!QCudaStorage::zeros_size_fits(usize::MAX - 511, GgmlDType::Q4_0));
    assert!(!QCudaStorage::zeros_size_fits(usize::MAX / 4, GgmlDType::F32));
    assert!(QCudaStorage::zeros_size_fits(usize::MAX - 512, GgmlDType::Q4_0));
}

#[test]
fn loaded_weights_are_padded_with_zeros() {
    let plan = load_quantized(dev(), GgmlDType::Q4_0, 144);
    assert_eq!((plan.bytes, plan.zeroed), (144 + 288, true));
    assert_eq!(plan.copied, Span { start: 0, len: 144 });
    assert_eq!(plan.weights, QCudaStorage::zeros(dev(), 256, GgmlDType::Q4_0).weights);
    assert!(padded_len_fits(GgmlDType::Q4_0, usize::MAX - 288));
    assert!(!padded_len_fits(GgmlDType::Q4_0, usize::MAX - 287));
}

/// Quantizes `elems` elements on the device into `s`, as blocks of `bytes` bytes.
fn quantize(s: &mut QCudaStorage, elems: usize, bytes: usize) {
    let padding = 512 * s.dtype().type_size() / s.dtype().block_size();
    let before = *s;
    let dtype = s.dtype();
    assert_eq!(
        s.quantize(QuantizeEvent::Start { src: DType::F32, elems }),
        Ok(QuantizeAction::Fetch { elems })
    );
    assert_eq!(
        s.quantize(QuantizeEvent::Fetched { elems, ok: true }),
        Ok(QuantizeAction::Encode { dtype, elems, encoding: Encoding::Plain })
    );
    assert_eq!(
        s.quantize(QuantizeEvent::Encoded { made: Some(bytes) }),
        Ok(QuantizeAction::AllocBuffer { bytes: bytes + padding, zeroed: false })
    );
    assert_eq!(
        s.quantize(QuantizeEvent::Allocated { bytes, ok: true }),
        Ok(QuantizeAction::Copy { dst: Span { start: 0, len: bytes } })
    );
    assert_eq!(*s, before);
    assert_eq!(
        s.quantize(QuantizeEvent::Copied { bytes, ok: true }),
        Ok(QuantizeAction::Done)
    );
    assert_eq!(s.storage_size_in_bytes(), bytes);
    assert_eq!(s.data.inner_len, bytes + padding);
}

#[test]
fn quantizing_replaces_the_weights() {
    let mut s = QCudaStorage::zeros(dev(), 256, GgmlDType::Q4K).weights;
    quantize(&mut s, 1024, 576);
    assert_eq!(s, load_quantized(dev(), GgmlDType::Q4K, 576).weights);
    let start = QuantizeEvent::Start { src: DType::F32, elems: 256 };
    let encode = |encoding| {
        Ok(QuantizeAction::Encode { dtype: GgmlDType::Q4K, elems: 256, encoding })
    };
    let importance = Encoding::Importance { n_per_row: 64 };
    assert_eq!(s.quantize_imatrix(64, start), Ok(QuantizeAction::Fetch { elems: 256 }));
    assert_eq!(
        s.quantize_imatrix(64, QuantizeEvent::Fetched { elems: 256, ok: true }),
        encode(importance)
    );
    assert_eq!(s.quantize_onto(start), encode(Encoding::Plain));
    assert_eq!(s.quantize_imatrix_onto(64, start), encode(importance));
    let copied = QuantizeEvent::Copied { bytes: 144, ok: true };
    assert_eq!(s.quantize_imatrix_onto(64, copied), Ok(QuantizeAction::Done));
    assert_eq!(s.storage_size_in_bytes(), 144);
}

#[test]
fn failed_quantizing_keeps_the_weights() {
    let mut s = QCudaStorage::zeros(dev(), 256, GgmlDType::Q4K).weights;
    let before = s;
    let start = |src| QuantizeEvent::Start { src, elems: 9 };
    assert_eq!(s.quantize(start(DType::F16)), Err(ErrorOf::OnlyF32));
    assert_eq!(s.quantize_imatrix(3, start(DType::BF16)), Err(ErrorOf::OnlyF32));
    assert_eq!(
        s.quantize_onto(start(DType::U8)),
        Err(ErrorOf::UnexpectedDType { expected: DType::F32, got: DType::U8 })
    );
    assert_eq!(
        s.quantize_imatrix_onto(3, start(DType::F64)),
        Err(ErrorOf::UnexpectedDType { expected: DType::F32, got: DType::F64 })
    );
    for event in [
        QuantizeEvent::Fetched { elems: 9, ok: false },
        QuantizeEvent::Encoded { made: None },
        QuantizeEvent::Allocated { bytes: 7, ok: false },
        QuantizeEvent::Copied { bytes: 7, ok: false },
    ] {
        assert_eq!(s.quantize(event), Ok(QuantizeAction::Fail));
        assert_eq!(s.quantize_imatrix(3, event), Ok(QuantizeAction::Fail));
        assert_eq!(s.quantize_onto(event), Ok(QuantizeAction::Fail));
        assert_eq!(s.quantize_imatrix_onto(3, event), Ok(QuantizeAction::Fail));
    }
    assert_eq!(s, before);
}

#[test]
fn weights_are_unpacked_by_kernel_or_host() {
    let s = QCudaStorage::zeros(dev(), 512, GgmlDType::Q4K).weights;
    match s.dequantize(512) {
        DequantizePlan::Kernel { program } => {
            assert_eq!(program.steps, dequantize_f32(GgmlDType::Q4K, 512).steps)
        }
        other => panic!("{other:?}"),
    }
    assert_eq!(s.dequantize_f16(512).steps, dequantize_f16(GgmlDType::Q4K, 512).steps);
    for (dtype, blocks) in [
        (GgmlDType::F32, 512),
        (GgmlDType::F16, 512),
        (GgmlDType::BF16, 512),
        (GgmlDType::Q8_1, 16),
    ] {
        let s = QCudaStorage::zeros(dev(), 512, dtype).weights;
        assert!(s.host_route_fits(512));
        assert!(!s.host_route_fits(1024));
        match s.dequantize(512) {
            DequantizePlan::Host { bytes, blocks: n, elems } => {
                assert_eq!((bytes, n, elems), (s.storage_size_in_bytes(), blocks, 512))
            }
            other => panic!("{other:?}"),
        }
    }
}

const PLAIN: DmmvMode = DmmvMode { force: false };

fn layout(dims: &[usize]) -> Layout {
    let len = dims.iter().product::<usize>();
    Layout { dims: dims.to_vec(), contiguous: Some((10, 10 + len)) }
}

fn fwd(mode: DmmvMode, self_dims: &[usize], rhs: DType, l: Layout) -> FwdPlan {
    let s = QCudaStorage::zeros(dev(), 6 * 256, GgmlDType::Q4K).weights;
    assert!(s.fwd_sizes_fit(&mode, self_dims, rhs, &l));
    s.fwd(&mode, self_dims, rhs, &l)
}

fn refusal(plan: FwdPlan) -> Error {
    match plan {
        FwdPlan::Refused { error } => error,
        other => panic!("not refused: {other:?}"),
    }
}

#[test]
fn small_batches_take_the_vector_kernels() {
    for dims in [vec![8, 256], vec![2, 4, 256], vec![1, 256]] {
        let b = dims[..dims.len() - 1].iter().product::<usize>();
        let mut out = dims.clone();
        *out.last_mut().unwrap() = 6;
        match fwd(PLAIN, &[6, 256], DType::F32, layout(&dims)) {
            FwdPlan::Quantized { rhs, program } => {
                assert_eq!(rhs, Span { start: 10, len: b * 256 });
                assert_eq!(program.outcome, Ok(out));
                let direct = mul_mat_vec_via_q8_1(864, b * 256, GgmlDType::Q4K, 256, 6, b);
                assert_eq!(program.steps, direct.steps);
            }
            other => panic!("{other:?}"),
        }
    }
}

#[test]
fn large_batches_take_the_matrix_kernels() {
    for dims in [vec![9, 256], vec![3, 3, 256]] {
        let mut out = dims.clone();
        *out.last_mut().unwrap() = 6;
        match fwd(PLAIN, &[6, 256], DType::F32, layout(&dims)) {
            FwdPlan::Quantized { rhs, program } => {
                assert_eq!(rhs, Span { start: 10, len: 9 * 256 });
                assert_eq!(program.outcome, Ok(out));
                let direct = mul_mat_via_q8_1(864, 9 * 256, GgmlDType::Q4K, 6, 256, 256, 9);
                assert_eq!(program.steps, direct.steps);
            }
            other => panic!("{other:?}"),
        }
    }
}

#[test]
fn last_choice_of_kernels_counts() {
    let mut mode = DmmvMode::new();
    assert_eq!(mode, PLAIN);
    set_force_dmmv(&mut mode, true);
    set_force_dmmv(&mut mode, true);
    assert_eq!(mode, DmmvMode { force: true });
    set_force_dmmv(&mut mode, false);
    assert_eq!(mode, PLAIN);
}

#[test]
fn forced_products_unpack_the_weights() {
    let mut mode = DmmvMode::new();
    set_force_dmmv(&mut mode, true);
    assert_eq!(mode, DmmvMode { force: true });
    match fwd(mode, &[6, 256], DType::F32, layout(&[1, 1, 256])) {
        FwdPlan::Quantized { program, .. } => {
            assert_eq!(program.outcome, Ok(vec![1, 1, 6]));
            let direct = dequantize_mul_mat_vec(864, 256, GgmlDType::Q4K, 256, 6);
            assert_eq!(program.steps, direct.steps);
        }
        other => panic!("{other:?}"),
    }
    match fwd(mode, &[6, 256], DType::F16, layout(&[2, 3, 256])) {
        FwdPlan::Dense { weights, matmul, out_dims } => {
            assert!(matches!(weights, DequantizePlan::Kernel { .. }));
            assert_eq!(matmul.bmnk, (2, 3, 6, 256));
            assert_eq!(matmul.rhs_dims, [2, 256, 6]);
            assert_eq!(matmul.rhs_stride, [0, 1, 256]);
            assert_eq!(out_dims, vec![2, 3, 6]);
        }
        other => panic!("{other:?}"),
    }
    match fwd(mode, &[6, 256], DType::F32, layout(&[2, 256])) {
        FwdPlan::Dense { matmul, out_dims, .. } => {
            assert_eq!(matmul.bmnk, (1, 2, 6, 256));
            assert_eq!(out_dims, vec![2, 6]);
        }
        other => panic!("{other:?}"),
    }
    set_force_dmmv(&mut mode, false);
    assert_eq!(mode, PLAIN);
}

#[test]
fn products_are_refused_in_order() {
    let gaps = |dims: &[usize]| Layout { dims: dims.to_vec(), contiguous: None };
    for rows in [1, 20] {
        let op = if rows == 1 { Op::Dmmv } else { Op::QuantizedMatmul };
        assert_eq!(
            refusal(fwd(PLAIN, &[6], DType::F16, gaps(&[rows, 3]))),
            ErrorOf::UnexpectedRank { expected: 2, got: 1, shape: vec![6] }
        );
        assert_eq!(
            refusal(fwd(PLAIN, &[6, 256], DType::F16, gaps(&[rows, 256]))),
            ErrorOf::UnexpectedDType { expected: DType::F32, got: DType::F16 }
        );
        assert_eq!(
            refusal(fwd(PLAIN, &[6, 256], DType::F32, gaps(&[rows, 256]))),
            ErrorOf::RequiresContiguous { op }
        );
        assert_eq!(
            refusal(fwd(PLAIN, &[6, 256], DType::F32, layout(&[rows, 255]))),
            ErrorOf::MatmulDim { lhs: vec![6, 256], rhs: vec![rows, 255] }
        );
    }
    assert_eq!(
        refusal(fwd(PLAIN, &[6, 256], DType::F16, gaps(&[256]))),
        ErrorOf::MatShape { shape: vec![256] }
    );
    assert_eq!(
        refusal(fwd(PLAIN, &[6, 256], DType::F16, gaps(&[1, 1, 1, 256]))),
        ErrorOf::MatShape { shape: vec![1, 1, 1, 256] }
    );
    match fwd(PLAIN, &[7, 256], DType::F32, layout(&[1, 256])) {
        FwdPlan::Quantized { program, .. } => {
            assert!(program.steps.is_empty());
            assert_eq!(
                program.outcome,
                Err(ErrorOf::DataSize { data_elems: 1536, ncols: 256, nrows: 7 })
            );
        }
        other => panic!("{other:?}"),
    }
    match fwd(PLAIN, &[6, 256], DType::F32, layout(&[0, 256])) {
        FwdPlan::Quantized { program, .. } => {
            assert_eq!(program.outcome, Err(ErrorOf::BatchSize { b_size: 0 }))
        }
        other => panic!("{other:?}"),
    }
}

#[test]
fn oversized_products_are_noticed() {
    let s = QCudaStorage::zeros(dev(), 6 * 256, GgmlDType::Q4K).weights;
    let huge = Layout { dims: vec![usize::MAX, 2, 256], contiguous: None };
    assert!(!s.fwd_sizes_fit(&PLAIN, &[6, 256], DType::F32, &huge));
    let backwards = Layout { dims: vec![1, 256], contiguous: Some((5, 4)) };
    assert!(!s.fwd_sizes_fit(&PLAIN, &[6, 256], DType::F32, &backwards));
    let wide = Layout { dims: vec![1, usize::MAX], contiguous: Some((0, 1)) };
    assert!(!s.fwd_sizes_fit(&PLAIN, &[2, usize::MAX], DType::F32, &wide));
}

#[test]
fn expert_layers_are_made_ready() {
    let s = QCudaStorage::zeros(dev(), 4 * 6 * 256, GgmlDType::Q4K).weights;
    let ready = |input: DType, ids: DType| {
        s.indexed_moe_forward(&[4, 6, 256], input, 600, 88, &[2, 1, 256], ids, &[2, 3])
    };
    let shape = MoeShape { num_experts: 4, n: 6, k: 256, batch: 2, input_dim1: 1, topk: 3 };
    for (dtype, input) in [
        (DType::F32, MoeInput::F32 { len: 512 }),
        (DType::BF16, MoeInput::Bf16 { len: 512 }),
        (DType::U8, MoeInput::Q8_1 { len: 512 }),
    ] {
        assert_eq!(
            ready(dtype, DType::U32),
            Ok(MoeCall { shape, input, weight_len: s.data.inner_len })
        );
    }
    assert_eq!(ready(DType::F16, DType::I64), Err(ErrorOf::MoeInput { dtype: DType::F16 }));
    assert_eq!(
        ready(DType::F32, DType::I64),
        Err(ErrorOf::UnexpectedDType { expected: DType::U32, got: DType::I64 })
    );
    assert_eq!(
        s.indexed_moe_forward(&[4, 6], DType::F32, 600, 0, &[2, 1, 256], DType::U32, &[2, 3]),
        Err(ErrorOf::UnexpectedRank { expected: 3, got: 2, shape: vec![4, 6] })
    );
    let fits = |len: usize, start: usize, in_dims: &[usize], idx_dims: &[usize]| {
        s.moe_shapes_fit(&[4, 6, 256], DType::F32, len, start, in_dims, DType::U32, idx_dims)
    };
    assert!(fits(600, 600, &[2, 1, 256], &[2, 3]));
    assert!(!fits(600, 601, &[2, 1, 256], &[2, 3]));
    assert!(!fits(600, 0, &[2, 1, 256], &[3, 3]));
    assert!(!fits(600, 0, &[2], &[2, 3]));
    let s = QCudaStorage::zeros(dev(), 256, GgmlDType::Q4_0).weights;
    assert!(s.moe_shapes_fit(&[4, 6], DType::F16, 0, 1, &[], DType::U8, &[]));
    assert_eq!(
        s.indexed_moe_forward(&[4, 6], DType::F16, 0, 1, &[], DType::U8, &[]),
        Err(ErrorOf::MoeWeights { dtype: GgmlDType::Q4_0 })
    );
}

#[test]
fn expert_formats() {
    let cases = [
        (GgmlDType::Q8_0, true),
        (GgmlDType::Q2K, true),
        (GgmlDType::Q3K, true),
        (GgmlDType::Q4K, true),
        (GgmlDType::Q5K, true),
        (GgmlDType::Q6K, true),
        (GgmlDType::F32, false),
        (GgmlDType::Q4_0, false),
        (GgmlDType::Q8K, false),
    ];
    for (dtype, taken) in cases {
        assert_eq!(QCudaStorage::zeros(dev(), 512, dtype).weights.takes_experts(), taken);
    }
}

#[test]
fn without_device_support_everything_is_refused() {
    let none: Error = ErrorOf::NotCompiledWithCudaSupport;
    assert_eq!(dummy_cuda::QCudaStorage::zeros(dev(), 1, GgmlDType::Q4K), Err(none));
    let s = dummy_cuda::QCudaStorage { dtype: GgmlDType::Q4K, device: dev() };
    assert_eq!(s.dtype(), GgmlDType::Q4K);
    assert_eq!(s.device(), dev());
    assert_eq!(s.storage_size_in_bytes(), 0);
    assert_eq!(s.dequantize(1), Err(ErrorOf::NotCompiledWithCudaSupport));
    assert_eq!(s.dequantize_f16(1), Err(ErrorOf::NotCompiledWithCudaSupport));
    assert_eq!(s.quantize(DType::F32), Err(ErrorOf::NotCompiledWithCudaSupport));
    assert_eq!(s.quantize_imatrix(DType::F32), Err(ErrorOf::NotCompiledWithCudaSupport));
    assert_eq!(s.quantize_onto(DType::F32), Err(ErrorOf::NotCompiledWithCudaSupport));
    assert_eq!(s.quantize_imatrix_onto(DType::F32), Err(ErrorOf::NotCompiledWithCudaSupport));
    assert_eq!(s.device_ptr(), Err(ErrorOf::NotCompiledWithCudaSupport));
    assert_eq!(s.data(), Err(ErrorOf::NotCompiledWithCudaSupport));
    assert!(matches!(
        s.fwd(&[1, 1], DType::F32, &layout(&[1, 1])),
        Err(ErrorOf::NotCompiledWithCudaSupport)
    ));
    assert_eq!(
        s.indexed_moe_forward(&[], &[], &[]),
        Err(ErrorOf::NotCompiledWithCudaSupport)
    );
    assert_eq!(
        dummy_cuda::load_quantized(dev(), GgmlDType::Q4K, 1),
        Err(ErrorOf::NotCompiledWithCudaSupport)
    );
}
