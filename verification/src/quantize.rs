//! Quantization of activation rows to Q8_1 blocks.

use crate::arith::ceil_div;
use crate::arith::ceil_quot;
use crate::arith::checked_pad;
use crate::arith::law_padding;
use crate::arith::lemma_ceil_quot;
use crate::arith::pad;
use crate::arith::padded;
use crate::dtype::GgmlDType;
use crate::launch::Kernel;
use crate::launch::KernelArgs;
use crate::launch::LaunchConfig;
use crate::launch::Span;
use crate::launch::Step;
use crate::launch::CUDA_QUANTIZE_BLOCK_SIZE;
use crate::launch::MATRIX_ROW_PADDING;
use crate::runs::lemma_part;
use crate::runs::lemma_run;
use crate::runs::lemma_run_span;
use crate::runs::lemma_runs_tile;
use crate::runs::run_span;
use crate::runs::run_units;
use crate::runs::runs_tile;
use vstd::prelude::*;

verus! {

/// The second grid dimension takes at most this many blocks.
pub const QUANTIZE_CHUNK_ROWS: usize = 65535;

/// Elements of a row of `k` elements, padding and all.
pub open spec fn padded_row(k: int) -> int {
    padded(k, 512)
}

/// Bytes of one row of `k` elements as Q8_1 blocks, padding and all: 36 bytes for 32 elements.
pub open spec fn q8_1_row_bytes(k: int) -> int {
    padded_row(k) / 32 * 36
}

/// The `i`th launch that quantizes `ky` rows of `k` elements.
pub open spec fn quantize_launch(kernel: Kernel, k: usize, ky: usize, i: int) -> Step {
    let rows = run_units(ky as int, 65535, i);
    let kx_padded = padded_row(k as int) as usize;
    Step::Launch {
        kernel,
        cfg: LaunchConfig {
            grid_dim: (
                ceil_quot(kx_padded as int, 256) as u32,
                rows as u32,
                1,
            ),
            block_dim: (CUDA_QUANTIZE_BLOCK_SIZE as u32, 1, 1),
            shared_mem_bytes: 0,
        },
        args: KernelArgs::Quantize {
            src: run_span(ky as int, 65535, k as int, i),
            dst: run_span(ky as int, 65535, q8_1_row_bytes(k as int), i),
            k: k as i32,
            kx_padded: kx_padded as i32,
        },
    }
}

/// The steps that quantize `ky` rows of `k` elements: one launch for every full chunk of rows and
/// one for what is left.
pub open spec fn quantize_steps(kernel: Kernel, k: usize, ky: usize) -> Seq<Step> {
    seq![Step::Load { kernel }] + Seq::new(
        ceil_quot(ky as int, 65535) as nat,
        |i: int| quantize_launch(kernel, k, ky, i),
    )
}

/// The sizes that quantizing `ky` rows of `k` elements computes fit the machine.
pub open spec fn quantize_fits(k: int, ky: int) -> bool {
    &&& padded_row(k) <= usize::MAX
    &&& q8_1_row_bytes(k) <= usize::MAX
    &&& ky * k <= usize::MAX
    &&& ky * q8_1_row_bytes(k) <= usize::MAX
}

pub proof fn lemma_row_bytes(k: int)
    requires
        k >= 0,
    ensures
        q8_1_row_bytes(k) >= 0,
        q8_1_row_bytes(k) * 32 == padded_row(k) * 36,
        padded_row(k) <= q8_1_row_bytes(k),
{
    law_padding(k, 512);
    let p = padded_row(k);
    assert(GgmlDType::Q8_1.block_size() == 32 && GgmlDType::Q8_1.type_size() == 36);
    assert(q8_1_row_bytes(k) == p / 32 * 36);
    assert(p % 32 == 0);
}

/// Appends to `steps` what quantizes `ky` rows of `k` elements.
fn push_quantize(steps: &mut Vec<Step>, kernel: Kernel, k: usize, ky: usize)
    requires
        quantize_fits(k as int, ky as int),
    ensures
        final(steps)@ == old(steps)@ + quantize_steps(kernel, k, ky),
{
    proof {
        lemma_ceil_quot(k as int, 512);
        lemma_row_bytes(k as int);
        lemma_ceil_quot(ky as int, 65535);
    }
    let kx_padded: usize = pad(k, MATRIX_ROW_PADDING);
    let num_blocks: usize = ceil_div(kx_padded, CUDA_QUANTIZE_BLOCK_SIZE);
    let q8_1: GgmlDType = GgmlDType::Q8_1;
    let num_blocks_per_row: usize = kx_padded / q8_1.block_size();
    let dst_row_size_bytes: usize = num_blocks_per_row * q8_1.type_size();
    let ghost row = q8_1_row_bytes(k as int);
    let ghost before = steps@;
    let ghost count = ceil_quot(ky as int, 65535);
    let ghost launches = Seq::new(count as nat, |i: int| quantize_launch(kernel, k, ky, i));
    steps.push(Step::Load { kernel });
    let mut rows_processed: usize = 0;
    let ghost mut i: int = 0;
    assert(steps@ =~= before + seq![Step::Load { kernel }] + launches.take(0));
    while rows_processed < ky
        invariant
            quantize_fits(k as int, ky as int),
            kx_padded == padded_row(k as int),
            num_blocks == ceil_quot(kx_padded as int, 256),
            dst_row_size_bytes == row,
            row == q8_1_row_bytes(k as int),
            row >= 0,
            count == ceil_quot(ky as int, 65535),
            ky <= count * QUANTIZE_CHUNK_ROWS < ky + QUANTIZE_CHUNK_ROWS,
            launches == Seq::new(count as nat, |j: int| quantize_launch(kernel, k, ky, j)),
            0 <= i <= count,
            rows_processed == if i == count {
                ky as int
            } else {
                i * QUANTIZE_CHUNK_ROWS
            },
            rows_processed <= ky,
            steps@ == before + seq![Step::Load { kernel }] + launches.take(i),
        decreases ky - rows_processed,
    {
        proof {
            lemma_run(ky as int, 65535, i);
        }
        let remaining_rows: usize = ky - rows_processed;
        let rows_in_chunk: usize = if QUANTIZE_CHUNK_ROWS < remaining_rows {
            QUANTIZE_CHUNK_ROWS
        } else {
            remaining_rows
        };
        proof {
            lemma_part(rows_processed as int, ky as int, k as int);
            lemma_part(rows_in_chunk as int, ky as int, k as int);
            lemma_part(rows_processed as int, ky as int, row);
            lemma_part(rows_in_chunk as int, ky as int, row);
        }
        let step: Step = Step::Launch {
            kernel,
            cfg: LaunchConfig {
                grid_dim: (num_blocks as u32, rows_in_chunk as u32, 1),
                block_dim: (CUDA_QUANTIZE_BLOCK_SIZE as u32, 1, 1),
                shared_mem_bytes: 0,
            },
            args: KernelArgs::Quantize {
                src: Span { start: rows_processed * k, len: rows_in_chunk * k },
                dst: Span {
                    start: rows_processed * dst_row_size_bytes,
                    len: rows_in_chunk * dst_row_size_bytes,
                },
                k: k as i32,
                kx_padded: kx_padded as i32,
            },
        };
        proof {
            assert(step == launches[i]);
            assert(launches.take(i + 1) =~= launches.take(i).push(step));
        }
        steps.push(step);
        rows_processed = rows_processed + rows_in_chunk;
        proof {
            i = i + 1;
            assert(steps@ =~= before + seq![Step::Load { kernel }] + launches.take(i));
        }
    }
    proof {
        assert(i == count) by {
            if i < count {
                lemma_run(ky as int, 65535, i);
            }
        }
        assert(launches.take(count) =~= launches);
        assert(steps@ =~= before + quantize_steps(kernel, k, ky));
    }
}

/// Plans the quantization of `ky` F32 rows of `k` elements to Q8_1 blocks.
pub fn quantize_q8_1(steps: &mut Vec<Step>, k: usize, ky: usize)
    requires
        quantize_fits(k as int, ky as int),
    ensures
        final(steps)@ == old(steps)@ + quantize_steps(Kernel::QuantizeQ8_1, k, ky),
{
    push_quantize(steps, Kernel::QuantizeQ8_1, k, ky)
}

/// Plans the quantization of `ky` BF16 rows of `k` elements to Q8_1 blocks, without widening them
/// first.
pub fn quantize_q8_1_from_bf16(steps: &mut Vec<Step>, k: usize, ky: usize)
    requires
        quantize_fits(k as int, ky as int),
    ensures
        final(steps)@ == old(steps)@ + quantize_steps(Kernel::QuantizeQ8_1Bf16, k, ky),
{
    push_quantize(steps, Kernel::QuantizeQ8_1Bf16, k, ky)
}

/// The launches are given consecutive parts of the rows and of the blocks that they become: each
/// element and each byte belongs to the part of exactly one launch. No launch takes more rows than
/// the grid allows.
pub proof fn law_quantize_covers_rows(k: int, ky: int)
    requires
        quantize_fits(k, ky),
        k >= 0,
        ky > 0,
    ensures
        runs_tile(ky, 65535, k, ky * k),
        runs_tile(ky, 65535, q8_1_row_bytes(k), ky * q8_1_row_bytes(k)),
        forall|i: int|
            0 <= i < ceil_quot(ky, 65535) ==> 0 < #[trigger] run_units(
                ky,
                65535,
                i,
            ) <= QUANTIZE_CHUNK_ROWS,
{
    lemma_row_bytes(k);
    lemma_runs_tile(ky, 65535, k);
    lemma_runs_tile(ky, 65535, q8_1_row_bytes(k));
    assert forall|i: int| 0 <= i < ceil_quot(ky, 65535) implies 0
        < #[trigger] run_units(ky, 65535, i) <= QUANTIZE_CHUNK_ROWS by {
        lemma_run(ky, 65535, i);
    }
}

/// Tells whether the sizes that quantizing `ky` rows of `k` elements computes fit the machine.
pub fn quantize_sizes_fit(k: usize, ky: usize) -> (r: bool)
    ensures
        r == quantize_fits(k as int, ky as int),
{
    let q8_1: GgmlDType = GgmlDType::Q8_1;
    let kx_padded: usize = match checked_pad(k, MATRIX_ROW_PADDING) {
        Some(v) => v,
        None => return false,
    };
    proof {
        lemma_row_bytes(k as int);
    }
    match (kx_padded / q8_1.block_size()).checked_mul(q8_1.type_size()) {
        Some(row) => ky.checked_mul(k).is_some() && ky.checked_mul(row).is_some(),
        None => false,
    }
}

/// The launches that quantize rows describe what they are given: each takes the next rows, up to
/// 65535 of them, reads `k` elements for a row and writes the blocks of a row that was padded to a
/// multiple of 512 elements, 36 bytes for 32 elements. A row of blocks has a thread for each
/// padded element, and there is one such row for each row that the launch takes. The first launch
/// begins at the first row, each further one where the one before it ends, and the last one ends
/// with the last row.
pub proof fn law_quantize_launch_describes_rows(kernel: Kernel, k: usize, ky: usize, i: int)
    requires
        quantize_fits(k as int, ky as int),
        k <= i32::MAX - 511,
        0 <= i,
        i + 1 < quantize_steps(kernel, k, ky).len(),
    ensures
        ({
            let steps = quantize_steps(kernel, k, ky);
            let count = steps.len() - 1;
            &&& steps[0] == (Step::Load { kernel })
            &&& (count - 1) * 65535 < ky <= count * 65535
            &&& match steps[i + 1] {
                Step::Launch {
                    kernel: launched,
                    cfg,
                    args: KernelArgs::Quantize { src, dst, k: width, kx_padded },
                } => {
                    let (blocks, rows, one) = cfg.grid_dim;
                    &&& launched == kernel
                    &&& cfg.block_dim == (256u32, 1u32, 1u32)
                    &&& cfg.shared_mem_bytes == 0
                    &&& one == 1
                    &&& 0 < rows <= 65535
                    &&& width == k
                    &&& kx_padded % 512 == 0
                    &&& k <= kx_padded < k + 512
                    &&& blocks * 256 == kx_padded
                    &&& src.start == i * 65535 * k
                    &&& src.len == rows * k
                    &&& dst.start * 32 == i * 65535 * (kx_padded * 36)
                    &&& dst.len * 32 == rows * (kx_padded * 36)
                    &&& i + 1 < count ==> rows == 65535
                    &&& i + 1 == count ==> i * 65535 + rows == ky
                },
                _ => false,
            }
        }),
{
    let steps = quantize_steps(kernel, k, ky);
    let count = ceil_quot(ky as int, 65535);
    lemma_ceil_quot(ky as int, 65535);
    lemma_row_bytes(k as int);
    law_padding(k as int, 512);
    let p = padded_row(k as int);
    let row = q8_1_row_bytes(k as int);
    lemma_run(ky as int, 65535, i);
    lemma_run_span(ky as int, 65535, k as int, i);
    lemma_run_span(ky as int, 65535, row, i);
    let rows = run_units(ky as int, 65535, i);
    lemma_ceil_quot(p, 256);
    assert(steps[i + 1] == quantize_launch(kernel, k, ky, i));
    assert(i * 65535 * row * 32 == i * 65535 * (p * 36)) by (nonlinear_arith)
        requires
            row * 32 == p * 36,
    ;
    assert(rows * row * 32 == rows * (p * 36)) by (nonlinear_arith)
        requires
            row * 32 == p * 36,
    ;
}

/// F32 and BF16 rows are quantized by launches that differ in nothing but the kernel.
pub proof fn law_bf16_rows_quantize_alike(k: usize, ky: usize, i: int)
    requires
        0 <= i,
        i + 1 < quantize_steps(Kernel::QuantizeQ8_1, k, ky).len(),
    ensures
        quantize_steps(Kernel::QuantizeQ8_1Bf16, k, ky).len() == quantize_steps(
            Kernel::QuantizeQ8_1,
            k,
            ky,
        ).len(),
        match (
            quantize_steps(Kernel::QuantizeQ8_1, k, ky)[i + 1],
            quantize_steps(Kernel::QuantizeQ8_1Bf16, k, ky)[i + 1],
        ) {
            (
                Step::Launch { kernel: a, cfg: cfg_a, args: args_a },
                Step::Launch { kernel: b, cfg: cfg_b, args: args_b },
            ) => a is QuantizeQ8_1 && b is QuantizeQ8_1Bf16 && cfg_a == cfg_b && args_a == args_b,
            _ => false,
        },
{
}

} // verus!
