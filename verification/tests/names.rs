use candle_cuda::dtype::{DType, GgmlDType};
use candle_cuda::error::{Error, ErrorOf, Op};
use candle_cuda::launch::Kernel;

#[test]
fn kernels_have_their_names() {
    for (kernel, name) in [
        (Kernel::QuantizeQ8_1, "quantize_q8_1"),
        (Kernel::QuantizeQ8_1Bf16, "quantize_q8_1_bf16"),
        (Kernel::MoeMma, "indexed_mul_mat_q4_K_moe_mma8w"),
        (Kernel::MoeGrouped, "indexed_moe_forward_q8_0_q8_1_grp"),
        (Kernel::MoeChecksum, "cerebra_mmq_checksum"),
        (Kernel::DequantizeF32 { dtype: GgmlDType::Q4_0 }, "dequantize_block_q4_0_f32"),
        (Kernel::DequantizeF16 { dtype: GgmlDType::Q4_0 }, "dequantize_block_q4_0_f16"),
        (Kernel::DequantizeF32 { dtype: GgmlDType::Q4_1 }, "dequantize_block_q4_1_f32"),
        (Kernel::DequantizeF16 { dtype: GgmlDType::Q4_1 }, "dequantize_block_q4_1_f16"),
        (Kernel::DequantizeF32 { dtype: GgmlDType::Q5_0 }, "dequantize_block_q5_0_f32"),
        (Kernel::DequantizeF16 { dtype: GgmlDType::Q5_0 }, "dequantize_block_q5_0_f16"),
        (Kernel::DequantizeF32 { dtype: GgmlDType::Q5_1 }, "dequantize_block_q5_1_f32"),
        (Kernel::DequantizeF16 { dtype: GgmlDType::Q5_1 }, "dequantize_block_q5_1_f16"),
        (Kernel::DequantizeF32 { dtype: GgmlDType::Q8_0 }, "dequantize_block_q8_0_f32"),
        (Kernel::DequantizeF16 { dtype: GgmlDType::Q8_0 }, "dequantize_block_q8_0_f16"),
        (Kernel::DequantizeF32 { dtype: GgmlDType::Q2K }, "dequantize_block_q2_K_f32"),
        (Kernel::DequantizeF16 { dtype: GgmlDType::Q2K }, "dequantize_block_q2_K_f16"),
        (Kernel::DequantizeF32 { dtype: GgmlDType::Q3K }, "dequantize_block_q3_K_f32"),
        (Kernel::DequantizeF16 { dtype: GgmlDType::Q3K }, "dequantize_block_q3_K_f16"),
        (Kernel::DequantizeF32 { dtype: GgmlDType::Q4K }, "dequantize_block_q4_K_f32"),
        (Kernel::DequantizeF16 { dtype: GgmlDType::Q4K }, "dequantize_block_q4_K_f16"),
        (Kernel::DequantizeF32 { dtype: GgmlDType::Q5K }, "dequantize_block_q5_K_f32"),
        (Kernel::DequantizeF16 { dtype: GgmlDType::Q5K }, "dequantize_block_q5_K_f16"),
        (Kernel::DequantizeF32 { dtype: GgmlDType::Q6K }, "dequantize_block_q6_K_f32"),
        (Kernel::DequantizeF16 { dtype: GgmlDType::Q6K }, "dequantize_block_q6_K_f16"),
        (Kernel::DequantizeF32 { dtype: GgmlDType::Q8K }, "dequantize_block_q8_K_f32"),
        (Kernel::DequantizeF16 { dtype: GgmlDType::Q8K }, "dequantize_block_q8_K_f16"),
        (Kernel::DequantizeMulMatVec { dtype: GgmlDType::Q4_0 }, "dequantize_mul_mat_vec_q4_0_cuda"),
        (Kernel::MulMatVecQ8_1 { dtype: GgmlDType::Q4_0, b_size: 3 }, "mul_mat_vec_q4_0_q8_1_cuda3"),
        (Kernel::MulMatQ8_1 { dtype: GgmlDType::Q4_0 }, "mul_mat_q4_0"),
        (Kernel::DequantizeMulMatVec { dtype: GgmlDType::Q4_1 }, "dequantize_mul_mat_vec_q4_1_cuda"),
        (Kernel::MulMatVecQ8_1 { dtype: GgmlDType::Q4_1, b_size: 3 }, "mul_mat_vec_q4_1_q8_1_cuda3"),
        (Kernel::MulMatQ8_1 { dtype: GgmlDType::Q4_1 }, "mul_mat_q4_1"),
        (Kernel::DequantizeMulMatVec { dtype: GgmlDType::Q5_0 }, "dequantize_mul_mat_vec_q5_0_cuda"),
        (Kernel::MulMatVecQ8_1 { dtype: GgmlDType::Q5_0, b_size: 3 }, "mul_mat_vec_q5_0_q8_1_cuda3"),
        (Kernel::MulMatQ8_1 { dtype: GgmlDType::Q5_0 }, "mul_mat_q5_0"),
        (Kernel::DequantizeMulMatVec { dtype: GgmlDType::Q5_1 }, "dequantize_mul_mat_vec_q5_1_cuda"),
        (Kernel::MulMatVecQ8_1 { dtype: GgmlDType::Q5_1, b_size: 3 }, "mul_mat_vec_q5_1_q8_1_cuda3"),
        (Kernel::MulMatQ8_1 { dtype: GgmlDType::Q5_1 }, "mul_mat_q5_1"),
        (Kernel::DequantizeMulMatVec { dtype: GgmlDType::Q8_0 }, "dequantize_mul_mat_vec_q8_0_cuda"),
        (Kernel::MulMatVecQ8_1 { dtype: GgmlDType::Q8_0, b_size: 3 }, "mul_mat_vec_q8_0_q8_1_cuda3"),
        (Kernel::MulMatQ8_1 { dtype: GgmlDType::Q8_0 }, "mul_mat_q8_0"),
        (Kernel::DequantizeMulMatVec { dtype: GgmlDType::Q2K }, "dequantize_mul_mat_vec_q2_k"),
        (Kernel::MulMatVecQ8_1 { dtype: GgmlDType::Q2K, b_size: 3 }, "mul_mat_vec_q2_K_q8_1_cuda3"),
        (Kernel::MulMatQ8_1 { dtype: GgmlDType::Q2K }, "mul_mat_q2_K"),
        (Kernel::DequantizeMulMatVec { dtype: GgmlDType::Q3K }, "dequantize_mul_mat_vec_q3_k"),
        (Kernel::MulMatVecQ8_1 { dtype: GgmlDType::Q3K, b_size: 3 }, "mul_mat_vec_q3_K_q8_1_cuda3"),
        (Kernel::MulMatQ8_1 { dtype: GgmlDType::Q3K }, "mul_mat_q3_K"),
        (Kernel::DequantizeMulMatVec { dtype: GgmlDType::Q4K }, "dequantize_mul_mat_vec_q4_k"),
        (Kernel::MulMatVecQ8_1 { dtype: GgmlDType::Q4K, b_size: 3 }, "mul_mat_vec_q4_K_q8_1_cuda3"),
        (Kernel::MulMatQ8_1 { dtype: GgmlDType::Q4K }, "mul_mat_q4_K"),
        (Kernel::DequantizeMulMatVec { dtype: GgmlDType::Q5K }, "dequantize_mul_mat_vec_q5_k"),
        (Kernel::MulMatVecQ8_1 { dtype: GgmlDType::Q5K, b_size: 3 }, "mul_mat_vec_q5_K_q8_1_cuda3"),
        (Kernel::MulMatQ8_1 { dtype: GgmlDType::Q5K }, "mul_mat_q5_K"),
        (Kernel::DequantizeMulMatVec { dtype: GgmlDType::Q6K }, "dequantize_mul_mat_vec_q6_k"),
        (Kernel::MulMatVecQ8_1 { dtype: GgmlDType::Q6K, b_size: 3 }, "mul_mat_vec_q6_K_q8_1_cuda3"),
        (Kernel::MulMatQ8_1 { dtype: GgmlDType::Q6K }, "mul_mat_q6_K"),
        (Kernel::MoeTiled { dtype: GgmlDType::Q4K, y64: false }, "indexed_mul_mat_q4_K_moe"),
        (Kernel::MoeTiled { dtype: GgmlDType::Q4K, y64: true }, "indexed_mul_mat_q4_K_moe_y64"),
        (Kernel::MoeTiled { dtype: GgmlDType::Q5K, y64: false }, "indexed_mul_mat_q5_K_moe"),
        (Kernel::MoeTiled { dtype: GgmlDType::Q5K, y64: true }, "indexed_mul_mat_q5_K_moe_y64"),
        (Kernel::MoeTiled { dtype: GgmlDType::Q6K, y64: false }, "indexed_mul_mat_q6_K_moe"),
        (Kernel::MoeTask { dtype: GgmlDType::Q2K, warp_rows: false }, "indexed_moe_forward_q2k_q8_1"),
        (Kernel::MoeTask { dtype: GgmlDType::Q3K, warp_rows: false }, "indexed_moe_forward_q3k_q8_1"),
        (Kernel::MoeTask { dtype: GgmlDType::Q4K, warp_rows: false }, "indexed_moe_forward_q4k_q8_1"),
        (Kernel::MoeTask { dtype: GgmlDType::Q5K, warp_rows: false }, "indexed_moe_forward_q5k_q8_1"),
        (Kernel::MoeTask { dtype: GgmlDType::Q6K, warp_rows: false }, "indexed_moe_forward_q6k_q8_1"),
        (Kernel::MoeTask { dtype: GgmlDType::Q8_0, warp_rows: false }, "indexed_moe_forward_q8_0_q8_1"),
        (Kernel::MoeTask { dtype: GgmlDType::Q4K, warp_rows: true }, "indexed_moe_forward_q4k_q8_1_wr"),
        (Kernel::MoeTask { dtype: GgmlDType::Q5K, warp_rows: true }, "indexed_moe_forward_q5k_q8_1_wr"),
        (Kernel::MoeTask { dtype: GgmlDType::Q6K, warp_rows: true }, "indexed_moe_forward_q6k_q8_1_wr"),
    ] {
        assert_eq!(kernel.name(), name);
    }
}

#[test]
fn failures_have_their_words() {
    let q4k = GgmlDType::Q4K;
    let messages: Vec<(Error, &str)> = vec![
        (
            ErrorOf::ArenaExhausted { offset: 256, bytes: 10, total_bytes: 260 },
            "CaptureArena exhausted: requested offset 256 + 10 bytes exceeds arena size 260 bytes \
             -- the live capture pass allocated more than the dry run that sized this arena did, \
             meaning the decode step's allocation sequence is NOT static as assumed (see \
             CudaDevice::alloc_mode's doc comment)",
        ),
        (
            ErrorOf::PinnedExhausted { idx: 4, pool_len: 3 },
            "CudaDevice::clone_htod_capture_safe: pinned scratch pool exhausted at index 4 (pool \
             has 3 entries) -- the sizing plan and the real capture pass made a different number \
             of clone_htod_capture_safe calls",
        ),
        (
            ErrorOf::PinnedLength { idx: 4, have: 3, need: 2 },
            "CudaDevice::clone_htod_capture_safe: pinned scratch pool entry 4 has length 3 but \
             this call needs 2 -- the sizing plan and the real capture pass requested different \
             sizes at the same call-order position",
        ),
        (ErrorOf::DummyDType, "Dummy types not supported in CUDA backend"),
        (
            ErrorOf::UnsupportedDType { dtype: DType::U8, op: Op::RandNormal },
            "unsupported dtype U8 for rand_normal",
        ),
        (
            ErrorOf::CublasWorkspace { status: 7 },
            "cublasSetWorkspace_v2 failed: CUBLAS_STATUS_INVALID_VALUE",
        ),
        (
            ErrorOf::CublasWorkspace { status: 14 },
            "cublasSetWorkspace_v2 failed: CUBLAS_STATUS_INTERNAL_ERROR",
        ),
        (ErrorOf::CublasWorkspace { status: 99 }, "cublasSetWorkspace_v2 failed: 99"),
        (
            ErrorOf::UnsupportedDequantize { dtype: GgmlDType::Q8_1 },
            "unsupported dtype for dequantize Q8_1",
        ),
        (
            ErrorOf::UnsupportedMatmul { dtype: GgmlDType::F32 },
            "unsupported dtype for quantized matmul F32",
        ),
        (
            ErrorOf::DataSize { data_elems: 1, ncols: 2, nrows: 3 },
            "unexpected data size 1, ncols 2 3",
        ),
        (ErrorOf::YSize { len: 1, ncols: 2, nrows: 3 }, "unexpected y size 1, ncols 2 3"),
        (
            ErrorOf::BatchSize { b_size: 9 },
            "only bsize between 1 and 8 are supported, got 9",
        ),
        (
            ErrorOf::LhsSize { data_elems: 1, x_rows: 2, x_cols: 3 },
            "unexpected lhs size 1, 2 3",
        ),
        (ErrorOf::RhsSize { len: 1, y_rows: 2, y_cols: 3 }, "unexpected y size 1, 2 3"),
        (
            ErrorOf::InnerSize { x_rows: 1, x_cols: 2, y_rows: 3, y_cols: 4 },
            "unexpected x/y size 1 2 3 4",
        ),
        (
            ErrorOf::UnsupportedMoe { dtype: q4k },
            "unsupported dtype for indexed_moe_forward Q4K",
        ),
        (
            ErrorOf::MoeWeights { dtype: q4k },
            "The given quantized dtype Q4K is not supported for indexed_moe_forward!",
        ),
        (
            ErrorOf::MoeInput { dtype: DType::F16 },
            "indexed_moe_forward input must be F32, BF16, or U8 (pre-quantized Q8_1), got F16",
        ),
        (
            ErrorOf::MoeInputBytes { have: 5, need: 6 },
            "indexed_moe_forward: pre-quantized input holds 5 bytes, needs 6",
        ),
        (
            ErrorOf::MmaInner { k: 300 },
            "indexed_mul_mat_q4_K_moe_mma: k=300 must be a multiple of QK_K=256",
        ),
        (ErrorOf::MmaRows, "indexed_mul_mat_q4_K_moe_mma: n=0 (no output rows)"),
        (
            ErrorOf::MoeUnchunkable { total_tasks: 4000, input_dim1: 1, topk: 2000 },
            "indexed_moe_forward: total_tasks=4000 exceeds the tiled MMQ kernel's 1024-task shared \
             list and so do the topk=2000 tasks of a single token -- refusing the unchunked \
             launch, which would silently drop tasks in nondeterministic order",
        ),
        (
            ErrorOf::MoeUnchunkable { total_tasks: 2400, input_dim1: 2, topk: 8 },
            "indexed_moe_forward: total_tasks=2400 exceeds the tiled MMQ kernel's 1024-task shared \
             list and input_dim1=2 matches neither chunkable shape (1 or topk=8) -- refusing the \
             unchunked launch, which would silently drop tasks in nondeterministic order",
        ),
        (
            ErrorOf::UnexpectedRank { expected: 2, got: 3, shape: vec![4, 5, 6] },
            "unexpected rank, expected: 2, got: 3 ([4, 5, 6])",
        ),
        (
            ErrorOf::MatmulDim { lhs: vec![1, 2], rhs: vec![3] },
            "mismatch on matmul dim [1, 2] [3]",
        ),
        (ErrorOf::VecShape { shape: vec![] }, "unexpected rhs shape in dmmv []"),
        (ErrorOf::MatShape { shape: vec![7] }, "unexpected shape for input [7]"),
        (
            ErrorOf::Reshape { elems: 12, shape: vec![3, 5] },
            "shape mismatch in reshape, lhs: [12], rhs: [3, 5]",
        ),
        (
            ErrorOf::RequiresContiguous { op: Op::QuantizedMatmul },
            "quantized-matmul only supports contiguous tensors",
        ),
        (
            ErrorOf::UnexpectedDType { expected: DType::F32, got: DType::BF16 },
            "unexpected dtype, expected: F32, got: BF16",
        ),
        (ErrorOf::OnlyF32, "only f32 can be quantized"),
        (
            ErrorOf::NotCompiledWithCudaSupport,
            "the candle crate has not been built with cuda support",
        ),
    ];
    for (error, words) in messages {
        assert_eq!(error.message(), words);
    }
}

#[test]
fn labels_follow_the_variants() {
    assert_eq!(DType::F8E4M3.label(), format!("{:?}", DType::F8E4M3));
    assert_eq!(GgmlDType::Q5_1.label(), format!("{:?}", GgmlDType::Q5_1));
    assert_eq!(Op::Dmmv.label(), "dmmv");
    assert_eq!(Op::RandUniform.label(), "rand_uniform");
    assert_eq!(Op::StorageFromSlice.label(), "storage_from_slice");
    assert_eq!(Op::StorageFromCpuStorage.label(), "storage_from_cpu_storage");
    assert_eq!(Op::StorageFromCpuStorageOwned.label(), "storage_from_cpu_storage_owned");
    assert!(GgmlDType::Q2K.is_k());
    assert!(!GgmlDType::Q8_1.is_k());
}
