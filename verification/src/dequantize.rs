//! Launch plans that turn quantized buffers into floating point.

use crate::arith::ceil_div;
use crate::arith::ceil_quot;
use crate::arith::lemma_ceil_quot;
use crate::dtype::DType;
use crate::dtype::GgmlDType;
use crate::error::result_unit;
use crate::error::ErrorOf;
use crate::launch::Kernel;
use crate::launch::KernelArgs;
use crate::launch::LaunchConfig;
use crate::launch::Program;
use crate::launch::Step;
use crate::launch::CUDA_DEQUANTIZE_BLOCK_SIZE;
use vstd::prelude::*;

verus! {

/// Geometry of a dequantize launch.
#[derive(Clone, Copy, Debug, PartialEq, Eq)]
pub struct DequantizeGrid {
    /// Threads of a block.
    pub block_dim: usize,
    /// Number of blocks.
    pub num_blocks: usize,
    /// The count that the kernel takes, if it takes one.
    pub count: Option<usize>,
}

/// Elements that one block of threads dequantizes.
pub open spec fn dequantize_tile(dtype: GgmlDType) -> int {
    match dtype {
        GgmlDType::Q5_0 | GgmlDType::Q5_1 => 512,
        _ => 256,
    }
}

/// The geometry for `elem_count` elements. The one-level formats take a count: of elements where
/// the kernel has a thread per pair of elements, of quantization blocks otherwise. There is no
/// kernel for the plain floats nor for Q8_1.
pub open spec fn dequantize_grid_spec(dtype: GgmlDType, elem_count: usize) -> Option<
    DequantizeGrid,
> {
    let nb = ceil_quot(elem_count as int, 256) as usize;
    match dtype {
        GgmlDType::Q4_0 | GgmlDType::Q4_1 | GgmlDType::Q8_0 => Some(
            DequantizeGrid {
                block_dim: 32,
                num_blocks: nb,
                count: Some((elem_count / 32) as usize),
            },
        ),
        GgmlDType::Q5_0 | GgmlDType::Q5_1 => Some(
            DequantizeGrid {
                block_dim: CUDA_DEQUANTIZE_BLOCK_SIZE,
                num_blocks: ceil_quot(elem_count as int, 512) as usize,
                count: Some(elem_count),
            },
        ),
        GgmlDType::Q2K | GgmlDType::Q3K | GgmlDType::Q5K | GgmlDType::Q6K => Some(
            DequantizeGrid { block_dim: 64, num_blocks: nb, count: None },
        ),
        GgmlDType::Q4K | GgmlDType::Q8K => Some(
            DequantizeGrid { block_dim: 32, num_blocks: nb, count: None },
        ),
        GgmlDType::F32 | GgmlDType::F16 | GgmlDType::BF16 | GgmlDType::Q8_1 => None,
    }
}

/// Lays out the launch that dequantizes `elem_count` elements.
pub fn dequantize_grid(dtype: GgmlDType, elem_count: usize) -> (r: Option<DequantizeGrid>)
    ensures
        r == dequantize_grid_spec(dtype, elem_count),
{
    let nb: usize = ceil_div(elem_count, 256);
    match dtype {
        GgmlDType::Q4_0 | GgmlDType::Q4_1 | GgmlDType::Q8_0 => Some(
            DequantizeGrid { block_dim: 32, num_blocks: nb, count: Some(elem_count / 32) },
        ),
        GgmlDType::Q5_0 | GgmlDType::Q5_1 => Some(
            DequantizeGrid {
                block_dim: CUDA_DEQUANTIZE_BLOCK_SIZE,
                num_blocks: ceil_div(elem_count, 2 * CUDA_DEQUANTIZE_BLOCK_SIZE),
                count: Some(elem_count),
            },
        ),
        GgmlDType::Q2K | GgmlDType::Q3K | GgmlDType::Q5K | GgmlDType::Q6K => Some(
            DequantizeGrid { block_dim: 64, num_blocks: nb, count: None },
        ),
        GgmlDType::Q4K | GgmlDType::Q8K => Some(
            DequantizeGrid { block_dim: 32, num_blocks: nb, count: None },
        ),
        GgmlDType::F32 | GgmlDType::F16 | GgmlDType::BF16 | GgmlDType::Q8_1 => None,
    }
}

/// The steps that dequantize `elem_count` elements to `out`.
pub open spec fn dequantize_steps(
    kernel: Kernel,
    out: DType,
    dtype: GgmlDType,
    elem_count: usize,
) -> Seq<Step> {
    match dequantize_grid_spec(dtype, elem_count) {
        Some(g) => seq![
            Step::Load { kernel },
            Step::AllocOut { dtype: out, len: elem_count },
            Step::Launch {
                kernel,
                cfg: LaunchConfig {
                    grid_dim: (g.num_blocks as u32, 1, 1),
                    block_dim: (g.block_dim as u32, 1, 1),
                    shared_mem_bytes: 0,
                },
                args: KernelArgs::Dequantize {
                    count: match g.count {
                        Some(n) => Some(n as i32),
                        None => None,
                    },
                },
            },
        ],
        None => Seq::empty(),
    }
}

/// What dequantizing ends in: formats without a kernel are refused.
pub open spec fn dequantize_outcome(dtype: GgmlDType) -> Result<(), ErrorOf<Seq<usize>>> {
    match dtype {
        GgmlDType::F32 | GgmlDType::F16 | GgmlDType::BF16 | GgmlDType::Q8_1 => Err(
            ErrorOf::UnsupportedDequantize { dtype },
        ),
        _ => Ok(()),
    }
}

fn plan_dequantize(kernel: Kernel, out: DType, dtype: GgmlDType, elem_count: usize) -> (r: Program<
    (),
>)
    ensures
        r.steps@ == dequantize_steps(kernel, out, dtype, elem_count),
        result_unit(r.outcome) == dequantize_outcome(dtype),
{
    let mut steps: Vec<Step> = Vec::new();
    match dequantize_grid(dtype, elem_count) {
        Some(g) => {
            steps.push(Step::Load { kernel });
            steps.push(Step::AllocOut { dtype: out, len: elem_count });
            let count: Option<i32> = match g.count {
                Some(n) => Some(n as i32),
                None => None,
            };
            steps.push(
                Step::Launch {
                    kernel,
                    cfg: LaunchConfig {
                        grid_dim: (g.num_blocks as u32, 1, 1),
                        block_dim: (g.block_dim as u32, 1, 1),
                        shared_mem_bytes: 0,
                    },
                    args: KernelArgs::Dequantize { count },
                },
            );
            assert(steps@ =~= dequantize_steps(kernel, out, dtype, elem_count));
            Program { steps, outcome: Ok(()) }
        },
        None => {
            assert(steps@ =~= dequantize_steps(kernel, out, dtype, elem_count));
            Program { steps, outcome: Err(ErrorOf::UnsupportedDequantize { dtype }) }
        },
    }
}

/// Plans the dequantization of `elem_count` elements to F32.
pub fn dequantize_f32(dtype: GgmlDType, elem_count: usize) -> (r: Program<()>)
    ensures
        r.steps@ == dequantize_steps(
            Kernel::DequantizeF32 { dtype },
            DType::F32,
            dtype,
            elem_count,
        ),
        result_unit(r.outcome) == dequantize_outcome(dtype),
{
    plan_dequantize(Kernel::DequantizeF32 { dtype }, DType::F32, dtype, elem_count)
}

/// Plans the dequantization of `elem_count` elements to F16.
pub fn dequantize_f16(dtype: GgmlDType, elem_count: usize) -> (r: Program<()>)
    ensures
        r.steps@ == dequantize_steps(
            Kernel::DequantizeF16 { dtype },
            DType::F16,
            dtype,
            elem_count,
        ),
        result_unit(r.outcome) == dequantize_outcome(dtype),
{
    plan_dequantize(Kernel::DequantizeF16 { dtype }, DType::F16, dtype, elem_count)
}

/// The blocks of a launch cover every element, and none lies wholly past the end.
pub proof fn law_dequantize_covers(dtype: GgmlDType, elem_count: usize)
    ensures
        match dequantize_grid_spec(dtype, elem_count) {
            Some(g) => elem_count <= g.num_blocks * dequantize_tile(dtype) < elem_count
                + dequantize_tile(dtype),
            None => true,
        },
{
    lemma_ceil_quot(elem_count as int, dequantize_tile(dtype));
}

/// The launch that unpacks weights stands for all their elements, and the output has room for
/// exactly these. A block of threads unpacks 256 elements, or 512 in the formats with a fifth bit
/// apart, whose kernel takes the number of elements. The kernels of the other one-level formats
/// take the number of whole blocks of 32 elements; those of the two-level formats take no count.
pub proof fn law_dequantize_describes_elements(
    kernel: Kernel,
    out: DType,
    dtype: GgmlDType,
    elem_count: usize,
)
    requires
        !(dtype is F32 || dtype is F16 || dtype is BF16 || dtype is Q8_1),
        elem_count <= i32::MAX,
    ensures
        ({
            let steps = dequantize_steps(kernel, out, dtype, elem_count);
            &&& steps.len() == 3
            &&& steps[0] == (Step::Load { kernel })
            &&& steps[1] == (Step::AllocOut { dtype: out, len: elem_count })
            &&& match steps[2] {
                Step::Launch { kernel: launched, cfg, args: KernelArgs::Dequantize { count } } => {
                    let (blocks, grid_y, grid_z) = cfg.grid_dim;
                    let (threads, block_y, block_z) = cfg.block_dim;
                    &&& launched == kernel
                    &&& grid_y == 1 && grid_z == 1 && block_y == 1 && block_z == 1
                    &&& cfg.shared_mem_bytes == 0
                    &&& if dtype is Q5_0 || dtype is Q5_1 {
                        &&& threads == 256
                        &&& elem_count <= blocks * 512 < elem_count + 512
                        &&& count == Some(elem_count as i32)
                        &&& elem_count as i32 == elem_count
                    } else if dtype is Q4_0 || dtype is Q4_1 || dtype is Q8_0 {
                        &&& threads == 32
                        &&& elem_count <= blocks * 256 < elem_count + 256
                        &&& count is Some
                        &&& count->0 * 32 <= elem_count < count->0 * 32 + 32
                    } else if dtype is Q4K || dtype is Q8K {
                        &&& threads == 32
                        &&& elem_count <= blocks * 256 < elem_count + 256
                        &&& count is None
                    } else {
                        &&& threads == 64
                        &&& elem_count <= blocks * 256 < elem_count + 256
                        &&& count is None
                    }
                },
                _ => false,
            }
        }),
{
    lemma_ceil_quot(elem_count as int, 256);
    lemma_ceil_quot(elem_count as int, 512);
}

/// Unpacking to F16 is refused for the same formats as unpacking to F32: the plain floats and the
/// format of activations. Nothing is done for these.
pub proof fn law_dequantize_refusals(
    kernel: Kernel,
    out: DType,
    dtype: GgmlDType,
    elem_count: usize,
)
    ensures
        dequantize_outcome(dtype) == if dtype is F32 || dtype is F16 || dtype is BF16
            || dtype is Q8_1 {
            Err::<(), ErrorOf<Seq<usize>>>(ErrorOf::UnsupportedDequantize { dtype })
        } else {
            Ok(())
        },
        dequantize_outcome(dtype) is Err <==> dequantize_steps(
            kernel,
            out,
            dtype,
            elem_count,
        ).len() == 0,
{
}

} // verus!
