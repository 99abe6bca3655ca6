//! Kernel launches and the device steps around them, as plain values.

use crate::dtype::DType;
use crate::dtype::GgmlDType;
use crate::error::Error;
use vstd::prelude::*;

verus! {

/// Threads of one warp.
pub const WARP_SIZE: usize = 32;

pub const MMQ_X_Q4_0_AMPERE: usize = 4;

pub const MMQ_Y_Q4_0_AMPERE: usize = 32;

pub const NWARPS_Q4_0_AMPERE: usize = 4;

pub const GGML_CUDA_MMV_X: usize = 32;

/// Rows that one block of the matrix-vector kernels computes.
pub const GGML_CUDA_MMV_Y: usize = 1;

/// Threads of one block of the quantize kernels.
pub const CUDA_QUANTIZE_BLOCK_SIZE: usize = 256;

/// Threads of one block of the dequantize kernels.
pub const CUDA_DEQUANTIZE_BLOCK_SIZE: usize = 256;

/// Rows of quantized activations are padded to a multiple of this many elements.
pub const MATRIX_ROW_PADDING: usize = 512;

/// Grid and block geometry of a launch.
#[derive(Clone, Copy, Debug, PartialEq, Eq)]
pub struct LaunchConfig {
    pub grid_dim: (u32, u32, u32),
    pub block_dim: (u32, u32, u32),
    pub shared_mem_bytes: u32,
}

/// The elements `start..start + len` of a buffer.
#[derive(Clone, Copy, Debug, PartialEq, Eq, Structural)]
pub struct Span {
    pub start: usize,
    pub len: usize,
}

/// A kernel of the quantized module.
#[derive(Clone, Copy, Debug, PartialEq, Eq, Structural)]
pub enum Kernel {
    /// Quantizes F32 rows to Q8_1 blocks.
    QuantizeQ8_1,
    /// Quantizes BF16 rows to Q8_1 blocks.
    QuantizeQ8_1Bf16,
    /// Dequantizes a buffer of the given format to F32.
    DequantizeF32 { dtype: GgmlDType },
    /// Dequantizes a buffer of the given format to F16.
    DequantizeF16 { dtype: GgmlDType },
    /// Multiplies a quantized matrix by one F32 vector.
    DequantizeMulMatVec { dtype: GgmlDType },
    /// Multiplies a quantized matrix by `b_size` Q8_1 vectors.
    MulMatVecQ8_1 { dtype: GgmlDType, b_size: usize },
    /// Multiplies a quantized matrix by a Q8_1 matrix.
    MulMatQ8_1 { dtype: GgmlDType },
    /// Tensor-core expert kernel for Q4K weights.
    MoeMma,
    /// Tiled expert kernel; `y64` selects the tall row tile.
    MoeTiled { dtype: GgmlDType, y64: bool },
    /// Expert-major kernel for Q8_0 weights.
    MoeGrouped,
    /// Task-major expert kernel; `warp_rows` gives each warp its own row.
    MoeTask { dtype: GgmlDType, warp_rows: bool },
    /// Folds the operands of an expert launch into three checksums.
    MoeChecksum,
}

/// The arguments of a launch, in the order in which the kernel takes them. `data`, `y`, `ids`,
/// `scratch` and `out` are the buffers of the planning function that made the launch.
#[derive(Clone, Copy, Debug, PartialEq, Eq)]
pub enum KernelArgs {
    /// A part of the activations, a part of the Q8_1 scratch, then the row widths.
    Quantize { src: Span, dst: Span, k: i32, kx_padded: i32 },
    /// `data`, `out`, then the count where the kernel takes one.
    Dequantize { count: Option<i32> },
    /// `data`, `y`, `out`, then the sizes.
    MatVec { ncols: i32, nrows: i32 },
    /// `data`, `scratch`, `out`, then the sizes.
    MatVecQ8_1 { ncols_x: i32, nrows_x: i32, nrows_y: i32, nrows_dst: i32 },
    /// `data`, `scratch`, `out`, then the sizes.
    MatMatQ8_1 { ncols_x: i32, nrows_x: i32, ncols_y: i32, nrows_y: i32, nrows_dst: i32 },
    /// `data`, parts of the Q8_1 activations, of `ids` and of `out`, then the sizes.
    Moe {
        input: Span,
        ids: Span,
        out: Span,
        n: i32,
        k: i32,
        batch: i32,
        topk: i32,
        k_padded: i32,
        input_dim1: i32,
    },
    /// `data` and its length, the Q8_1 activations and their length, `ids` and its length, then a
    /// zeroed buffer of three words.
    MoeChecksum { weight_len: u32, input: Span, input_len: u32, ids_len: u32 },
}

/// One thing that the device is asked to do.
#[derive(Clone, Copy, Debug, PartialEq, Eq)]
pub enum Step {
    /// Fetch the kernel, loading its module first where needed.
    Load { kernel: Kernel },
    /// Allocate the Q8_1 scratch, zeroed or not.
    AllocScratch { bytes: usize, zeroed: bool },
    /// Allocate three zeroed words for checksums.
    AllocChecksum,
    /// Copy the checksums back and report them.
    ReportChecksum,
    /// Allocate the output.
    AllocOut { dtype: DType, len: usize },
    /// Launch a kernel that was loaded before.
    Launch { kernel: Kernel, cfg: LaunchConfig, args: KernelArgs },
}

/// Device steps in the order in which they are run, and what the operation ends in once all of
/// them have succeeded.
#[derive(Debug)]
pub struct Program<T> {
    pub steps: Vec<Step>,
    pub outcome: Result<T, Error>,
}

} // verus!
