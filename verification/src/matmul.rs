//! Launch plans that multiply a quantized matrix by vectors or by another matrix.

use crate::arith::ceil_div;
use crate::arith::ceil_div_u32;
use crate::arith::ceil_quot;
use crate::arith::law_padding;
use crate::arith::lemma_ceil_quot;
use crate::arith::pad;
use crate::arith::padded;
use crate::dtype::blocks_of_bytes;
use crate::dtype::elems_of_blocks;
use crate::dtype::lemma_block_counts;
use crate::dtype::DType;
use crate::dtype::GgmlDType;
use crate::error::result_unit;
use crate::error::ErrorOf;
use crate::launch::Kernel;
use crate::launch::KernelArgs;
use crate::launch::LaunchConfig;
use crate::launch::Program;
use crate::launch::Step;
use crate::launch::GGML_CUDA_MMV_Y;
use crate::launch::MATRIX_ROW_PADDING;
use crate::launch::WARP_SIZE;
use crate::quantize::lemma_row_bytes;
use crate::quantize::padded_row;
use crate::quantize::q8_1_row_bytes;
use crate::quantize::quantize_fits;
use crate::quantize::quantize_q8_1;
use crate::quantize::quantize_sizes_fit;
use crate::quantize::quantize_steps;
use vstd::arithmetic::div_mod::lemma_fundamental_div_mod;
use vstd::arithmetic::div_mod::lemma_fundamental_div_mod_converse;
use vstd::prelude::*;

verus! {

/// Number of elements that `data_len` bytes of a block format hold.
pub open spec fn data_elems_spec(data_len: usize, dtype: GgmlDType) -> int {
    elems_of_blocks(blocks_of_bytes(data_len as int, dtype), dtype)
}

/// Number of elements that `data_len` bytes of a block format hold; nothing where it does not fit
/// the machine.
pub fn checked_data_elems(data_len: usize, dtype: GgmlDType) -> (r: Option<usize>)
    ensures
        match r {
            Some(v) => v == data_elems_spec(data_len, dtype),
            None => data_elems_spec(data_len, dtype) > usize::MAX,
        },
{
    proof {
        lemma_block_counts(data_len as int, dtype);
        lemma_block_counts(blocks_of_bytes(data_len as int, dtype), dtype);
    }
    (data_len / dtype.type_size()).checked_mul(dtype.block_size())
}

fn data_elems(data_len: usize, dtype: GgmlDType) -> (r: usize)
    requires
        data_elems_spec(data_len, dtype) <= usize::MAX,
    ensures
        r == data_elems_spec(data_len, dtype),
{
    proof {
        lemma_block_counts(data_len as int, dtype);
        lemma_block_counts(blocks_of_bytes(data_len as int, dtype), dtype);
    }
    data_len / dtype.type_size() * dtype.block_size()
}

/// The block formats that the matrix kernels take.
pub open spec fn matmul_takes_spec(dtype: GgmlDType) -> bool {
    match dtype {
        GgmlDType::Q4_0 | GgmlDType::Q4_1 | GgmlDType::Q5_0 | GgmlDType::Q5_1 | GgmlDType::Q8_0
        | GgmlDType::Q2K | GgmlDType::Q3K | GgmlDType::Q4K | GgmlDType::Q5K
        | GgmlDType::Q6K => true,
        _ => false,
    }
}

/// Tells the block formats that the matrix kernels take.
pub fn matmul_takes(dtype: GgmlDType) -> (r: bool)
    ensures
        r == matmul_takes_spec(dtype),
{
    match dtype {
        GgmlDType::Q4_0 | GgmlDType::Q4_1 | GgmlDType::Q5_0 | GgmlDType::Q5_1 | GgmlDType::Q8_0
        | GgmlDType::Q2K | GgmlDType::Q3K | GgmlDType::Q4K | GgmlDType::Q5K
        | GgmlDType::Q6K => true,
        _ => false,
    }
}

/// Why a product with one F32 vector is refused, if it is.
pub open spec fn dmmv_refusal(
    data_len: usize,
    y_len: usize,
    dtype: GgmlDType,
    ncols: usize,
    nrows: usize,
) -> Option<ErrorOf<Seq<usize>>> {
    if data_elems_spec(data_len, dtype) < ncols * nrows {
        Some(
            ErrorOf::DataSize {
                data_elems: data_elems_spec(data_len, dtype) as usize,
                ncols,
                nrows,
            },
        )
    } else if y_len != ncols {
        Some(ErrorOf::YSize { len: y_len, ncols, nrows })
    } else if !matmul_takes_spec(dtype) {
        Some(ErrorOf::UnsupportedMatmul { dtype })
    } else {
        None
    }
}

/// The steps of a product with one F32 vector: a block of one warp for each row.
pub open spec fn dmmv_steps(dtype: GgmlDType, ncols: usize, nrows: usize) -> Seq<Step> {
    let kernel = Kernel::DequantizeMulMatVec { dtype };
    seq![
        Step::Load { kernel },
        Step::AllocOut { dtype: DType::F32, len: nrows },
        Step::Launch {
            kernel,
            cfg: LaunchConfig {
                grid_dim: (nrows as u32, 1, 1),
                block_dim: (WARP_SIZE as u32, GGML_CUDA_MMV_Y as u32, 1),
                shared_mem_bytes: 0,
            },
            args: KernelArgs::MatVec { ncols: ncols as i32, nrows: nrows as i32 },
        },
    ]
}

/// What an operation ends in that is refused for the given reason, if for any.
pub open spec fn refused_or_done(refusal: Option<ErrorOf<Seq<usize>>>) -> Result<
    (),
    ErrorOf<Seq<usize>>,
> {
    match refusal {
        Some(e) => Err(e),
        None => Ok(()),
    }
}

/// Plans the product of a quantized matrix of `nrows` rows and `ncols` columns, held in `data_len`
/// bytes, with one F32 vector of `y_len` elements.
pub fn dequantize_mul_mat_vec(
    data_len: usize,
    y_len: usize,
    dtype: GgmlDType,
    ncols: usize,
    nrows: usize,
) -> (r: Program<()>)
    requires
        data_elems_spec(data_len, dtype) <= usize::MAX,
        ncols * nrows <= usize::MAX,
    ensures
        r.steps@ == match dmmv_refusal(data_len, y_len, dtype, ncols, nrows) {
            Some(_) => Seq::empty(),
            None => dmmv_steps(dtype, ncols, nrows),
        },
        result_unit(r.outcome) == refused_or_done(
            dmmv_refusal(data_len, y_len, dtype, ncols, nrows),
        ),
{
    let mut steps: Vec<Step> = Vec::new();
    let elems: usize = data_elems(data_len, dtype);
    if elems < ncols * nrows {
        return Program {
            steps,
            outcome: Err(ErrorOf::DataSize { data_elems: elems, ncols, nrows }),
        };
    }
    if y_len != ncols {
        return Program { steps, outcome: Err(ErrorOf::YSize { len: y_len, ncols, nrows }) };
    }
    if !matmul_takes(dtype) {
        return Program { steps, outcome: Err(ErrorOf::UnsupportedMatmul { dtype }) };
    }
    let kernel: Kernel = Kernel::DequantizeMulMatVec { dtype };
    steps.push(Step::Load { kernel });
    steps.push(Step::AllocOut { dtype: DType::F32, len: nrows });
    let block_num_y: usize = ceil_div(nrows, GGML_CUDA_MMV_Y);
    steps.push(
        Step::Launch {
            kernel,
            cfg: LaunchConfig {
                grid_dim: (block_num_y as u32, 1, 1),
                block_dim: (WARP_SIZE as u32, GGML_CUDA_MMV_Y as u32, 1),
                shared_mem_bytes: 0,
            },
            args: KernelArgs::MatVec { ncols: ncols as i32, nrows: nrows as i32 },
        },
    );
    assert(steps@ =~= dmmv_steps(dtype, ncols, nrows));
    Program { steps, outcome: Ok(()) }
}

/// Bytes of the scratch that holds `rows` quantized rows of `k` elements.
pub open spec fn scratch_bytes(rows: int, k: int) -> int {
    rows * padded_row(k) * 36 / 32
}

/// The steps that quantize `rows` rows of `k` elements into a scratch of their own, zeroed only
/// where rows have a padded tail.
pub open spec fn scratch_steps(rows: usize, k: usize) -> Seq<Step> {
    seq![
        Step::AllocScratch {
            bytes: scratch_bytes(rows as int, k as int) as usize,
            zeroed: padded_row(k as int) != k,
        },
    ] + quantize_steps(Kernel::QuantizeQ8_1, k, rows)
}

/// The sizes of the scratch fit the machine.
pub open spec fn scratch_fits(rows: int, k: int) -> bool {
    &&& quantize_fits(k, rows)
    &&& rows * padded_row(k) * 36 <= usize::MAX
}

/// The scratch holds exactly the quantized rows, and these have a padded tail unless their length
/// is a multiple of the padding.
pub proof fn law_scratch_exact(rows: int, k: int)
    requires
        rows >= 0,
        k >= 0,
    ensures
        scratch_bytes(rows, k) == rows * q8_1_row_bytes(k),
        padded_row(k) != k <==> k % 512 != 0,
{
    lemma_row_bytes(k);
    law_padding(k, 512);
    let p = padded_row(k);
    let row = q8_1_row_bytes(k);
    assert(rows * p * 36 == rows * row * 32) by (nonlinear_arith)
        requires
            row * 32 == p * 36,
    ;
    assert(GgmlDType::Q8_1.type_size() == 36 && GgmlDType::Q8_1.block_size() == 32);
    assert(scratch_bytes(rows, k) == rows * p * 36 / 32);
}

fn push_scratch(steps: &mut Vec<Step>, rows: usize, k: usize)
    requires
        scratch_fits(rows as int, k as int),
    ensures
        final(steps)@ == old(steps)@ + scratch_steps(rows, k),
{
    let ghost before = steps@;
    let q8_1: GgmlDType = GgmlDType::Q8_1;
    proof {
        law_padding(k as int, 512);
        let p = padded_row(k as int);
        assert(q8_1.type_size() == 36);
        assert(0 <= rows * p) by (nonlinear_arith)
            requires
                p >= 0,
        ;
        assert(rows * p * q8_1.type_size() == rows * p * 36);
    }
    let k_padded: usize = pad(k, MATRIX_ROW_PADDING);
    let bytes: usize = rows * k_padded * q8_1.type_size() / q8_1.block_size();
    steps.push(Step::AllocScratch { bytes, zeroed: k_padded != k });
    quantize_q8_1(steps, k, rows);
    assert(steps@ =~= before + scratch_steps(rows, k));
}

/// Why a product with quantized vectors is refused before anything runs, if it is.
pub open spec fn mmv_refusal(
    data_len: usize,
    y_len: usize,
    dtype: GgmlDType,
    ncols: usize,
    nrows: usize,
    b_size: usize,
) -> Option<ErrorOf<Seq<usize>>> {
    if data_elems_spec(data_len, dtype) < ncols * nrows {
        Some(
            ErrorOf::DataSize {
                data_elems: data_elems_spec(data_len, dtype) as usize,
                ncols,
                nrows,
            },
        )
    } else if y_len != ncols * b_size {
        Some(ErrorOf::YSize { len: y_len, ncols, nrows })
    } else if b_size == 0 || b_size > 8 {
        Some(ErrorOf::BatchSize { b_size })
    } else {
        None
    }
}

/// The launch of a product with `b_size` quantized vectors: a row per block for one vector, two
/// rows per block for more, with fewer warps from five vectors on.
pub open spec fn mmv_config(nrows: usize, b_size: usize) -> LaunchConfig {
    LaunchConfig {
        grid_dim: (
            if b_size == 1 {
                nrows as u32
            } else {
                ceil_quot((nrows as u32) as int, 2) as u32
            },
            1,
            1,
        ),
        block_dim: (
            WARP_SIZE as u32,
            if b_size <= 4 {
                4
            } else {
                2
            },
            1,
        ),
        shared_mem_bytes: 0,
    }
}

/// The steps of a product with `b_size` quantized vectors. An unsupported block format is noticed
/// only after the vectors have been quantized.
pub open spec fn mmv_steps(dtype: GgmlDType, ncols: usize, nrows: usize, b_size: usize) -> Seq<
    Step,
> {
    let kernel = Kernel::MulMatVecQ8_1 { dtype, b_size };
    scratch_steps(b_size, ncols) + if matmul_takes_spec(dtype) {
        seq![
            Step::Load { kernel },
            Step::AllocOut { dtype: DType::F32, len: (nrows * b_size) as usize },
            Step::Launch {
                kernel,
                cfg: mmv_config(nrows, b_size),
                args: KernelArgs::MatVecQ8_1 {
                    ncols_x: ncols as i32,
                    nrows_x: nrows as i32,
                    nrows_y: (padded_row(ncols as int) as usize) as i32,
                    nrows_dst: nrows as i32,
                },
            },
        ]
    } else {
        Seq::empty()
    }
}

/// What a product over quantized operands ends in.
pub open spec fn q8_1_outcome(refusal: Option<ErrorOf<Seq<usize>>>, dtype: GgmlDType) -> Result<
    (),
    ErrorOf<Seq<usize>>,
> {
    match refusal {
        Some(e) => Err(e),
        None => if matmul_takes_spec(dtype) {
            Ok(())
        } else {
            Err(ErrorOf::UnsupportedMatmul { dtype })
        },
    }
}

/// Plans the product of a quantized matrix of `nrows` rows and `ncols` columns, held in `data_len`
/// bytes, with `b_size` F32 vectors of `y_len` elements in all, which are quantized first.
pub fn mul_mat_vec_via_q8_1(
    data_len: usize,
    y_len: usize,
    dtype: GgmlDType,
    ncols: usize,
    nrows: usize,
    b_size: usize,
) -> (r: Program<()>)
    requires
        data_elems_spec(data_len, dtype) <= usize::MAX,
        ncols * nrows <= usize::MAX,
        data_elems_spec(data_len, dtype) >= ncols * nrows ==> ncols * b_size <= usize::MAX,
        mmv_refusal(data_len, y_len, dtype, ncols, nrows, b_size) is None ==> scratch_fits(
            b_size as int,
            ncols as int,
        ) && (matmul_takes_spec(dtype) ==> nrows * b_size <= usize::MAX),
    ensures
        r.steps@ == match mmv_refusal(data_len, y_len, dtype, ncols, nrows, b_size) {
            Some(_) => Seq::empty(),
            None => mmv_steps(dtype, ncols, nrows, b_size),
        },
        result_unit(r.outcome) == q8_1_outcome(
            mmv_refusal(data_len, y_len, dtype, ncols, nrows, b_size),
            dtype,
        ),
{
    let mut steps: Vec<Step> = Vec::new();
    let elems: usize = data_elems(data_len, dtype);
    if elems < ncols * nrows {
        return Program {
            steps,
            outcome: Err(ErrorOf::DataSize { data_elems: elems, ncols, nrows }),
        };
    }
    if y_len != ncols * b_size {
        return Program { steps, outcome: Err(ErrorOf::YSize { len: y_len, ncols, nrows }) };
    }
    if b_size == 0 || b_size > 8 {
        return Program { steps, outcome: Err(ErrorOf::BatchSize { b_size }) };
    }
    push_scratch(&mut steps, b_size, ncols);
    if !matmul_takes(dtype) {
        assert(steps@ =~= mmv_steps(dtype, ncols, nrows, b_size));
        return Program { steps, outcome: Err(ErrorOf::UnsupportedMatmul { dtype }) };
    }
    let kernel: Kernel = Kernel::MulMatVecQ8_1 { dtype, b_size };
    let ncols_padded: usize = pad(ncols, MATRIX_ROW_PADDING);
    steps.push(Step::Load { kernel });
    steps.push(Step::AllocOut { dtype: DType::F32, len: nrows * b_size });
    let nblocks: u32 = if b_size == 1 {
        nrows as u32
    } else {
        ceil_div_u32(nrows as u32, 2)
    };
    let nwarps: u32 = if b_size <= 4 {
        4
    } else {
        2
    };
    steps.push(
        Step::Launch {
            kernel,
            cfg: LaunchConfig {
                grid_dim: (nblocks, 1, 1),
                block_dim: (WARP_SIZE as u32, nwarps, 1),
                shared_mem_bytes: 0,
            },
            args: KernelArgs::MatVecQ8_1 {
                ncols_x: ncols as i32,
                nrows_x: nrows as i32,
                nrows_y: ncols_padded as i32,
                nrows_dst: nrows as i32,
            },
        },
    );
    assert(steps@ =~= mmv_steps(dtype, ncols, nrows, b_size));
    Program { steps, outcome: Ok(()) }
}

/// Tile of the matrix kernel of a block format: columns of the right operand, then rows of the
/// left one.
pub open spec fn mul_mat_tile_spec(dtype: GgmlDType) -> Option<(usize, usize)> {
    match dtype {
        GgmlDType::Q4_0 | GgmlDType::Q4_1 | GgmlDType::Q2K | GgmlDType::Q4K
        | GgmlDType::Q5K => Some((64, 128)),
        GgmlDType::Q5_0 | GgmlDType::Q5_1 | GgmlDType::Q8_0 => Some((128, 64)),
        GgmlDType::Q3K => Some((128, 128)),
        GgmlDType::Q6K => Some((64, 64)),
        _ => None,
    }
}

/// The tile of the matrix kernel of a block format.
pub fn mul_mat_tile(dtype: GgmlDType) -> (r: Option<(usize, usize)>)
    ensures
        r == mul_mat_tile_spec(dtype),
        r is Some <==> matmul_takes_spec(dtype),
{
    match dtype {
        GgmlDType::Q4_0 | GgmlDType::Q4_1 | GgmlDType::Q2K | GgmlDType::Q4K
        | GgmlDType::Q5K => Some((64, 128)),
        GgmlDType::Q5_0 | GgmlDType::Q5_1 | GgmlDType::Q8_0 => Some((128, 64)),
        GgmlDType::Q3K => Some((128, 128)),
        GgmlDType::Q6K => Some((64, 64)),
        _ => None,
    }
}

/// Why a product with a matrix is refused before anything runs, if it is.
pub open spec fn mm_refusal(
    data_len: usize,
    y_len: usize,
    dtype: GgmlDType,
    x_rows: usize,
    x_cols: usize,
    y_rows: usize,
    y_cols: usize,
) -> Option<ErrorOf<Seq<usize>>> {
    if data_elems_spec(data_len, dtype) < x_rows * x_cols {
        Some(
            ErrorOf::LhsSize {
                data_elems: data_elems_spec(data_len, dtype) as usize,
                x_rows,
                x_cols,
            },
        )
    } else if y_len != y_rows * y_cols {
        Some(ErrorOf::RhsSize { len: y_len, y_rows, y_cols })
    } else if x_cols != y_rows {
        Some(ErrorOf::InnerSize { x_rows, x_cols, y_rows, y_cols })
    } else {
        None
    }
}

/// The steps of a product with a matrix of `y_cols` columns. An unsupported block format is
/// noticed only after the matrix has been quantized.
pub open spec fn mm_steps(dtype: GgmlDType, x_rows: usize, x_cols: usize, y_cols: usize) -> Seq<
    Step,
> {
    let kernel = Kernel::MulMatQ8_1 { dtype };
    scratch_steps(y_cols, x_cols) + match mul_mat_tile_spec(dtype) {
        Some((mmq_x, mmq_y)) => seq![
            Step::Load { kernel },
            Step::AllocOut { dtype: DType::F32, len: (x_rows * y_cols) as usize },
            Step::Launch {
                kernel,
                cfg: LaunchConfig {
                    grid_dim: (
                        ceil_quot(x_rows as int, mmq_y as int) as u32,
                        ceil_quot(y_cols as int, mmq_x as int) as u32,
                        1,
                    ),
                    block_dim: (WARP_SIZE as u32, 4, 1),
                    shared_mem_bytes: 0,
                },
                args: KernelArgs::MatMatQ8_1 {
                    ncols_x: x_cols as i32,
                    nrows_x: x_rows as i32,
                    ncols_y: y_cols as i32,
                    nrows_y: (padded_row(x_cols as int) as usize) as i32,
                    nrows_dst: x_rows as i32,
                },
            },
        ],
        None => Seq::empty(),
    }
}

/// Plans the product of a quantized matrix of `x_rows` rows and `x_cols` columns, held in
/// `data_len` bytes, with an F32 matrix of `y_len` elements, which is quantized first.
pub fn mul_mat_via_q8_1(
    data_len: usize,
    y_len: usize,
    dtype: GgmlDType,
    x_rows: usize,
    x_cols: usize,
    y_rows: usize,
    y_cols: usize,
) -> (r: Program<()>)
    requires
        data_elems_spec(data_len, dtype) <= usize::MAX,
        x_rows * x_cols <= usize::MAX,
        data_elems_spec(data_len, dtype) >= x_rows * x_cols ==> y_rows * y_cols <= usize::MAX,
        mm_refusal(data_len, y_len, dtype, x_rows, x_cols, y_rows, y_cols) is None
            ==> scratch_fits(y_cols as int, x_cols as int) && (matmul_takes_spec(dtype) ==> x_rows
            * y_cols <= usize::MAX),
    ensures
        r.steps@ == match mm_refusal(data_len, y_len, dtype, x_rows, x_cols, y_rows, y_cols) {
            Some(_) => Seq::empty(),
            None => mm_steps(dtype, x_rows, x_cols, y_cols),
        },
        result_unit(r.outcome) == q8_1_outcome(
            mm_refusal(data_len, y_len, dtype, x_rows, x_cols, y_rows, y_cols),
            dtype,
        ),
{
    let mut steps: Vec<Step> = Vec::new();
    let elems: usize = data_elems(data_len, dtype);
    if elems < x_rows * x_cols {
        return Program {
            steps,
            outcome: Err(ErrorOf::LhsSize { data_elems: elems, x_rows, x_cols }),
        };
    }
    if y_len != y_rows * y_cols {
        return Program { steps, outcome: Err(ErrorOf::RhsSize { len: y_len, y_rows, y_cols }) };
    }
    if x_cols != y_rows {
        return Program {
            steps,
            outcome: Err(ErrorOf::InnerSize { x_rows, x_cols, y_rows, y_cols }),
        };
    }
    push_scratch(&mut steps, y_cols, x_cols);
    match mul_mat_tile(dtype) {
        Some((mmq_x, mmq_y)) => {
            let kernel: Kernel = Kernel::MulMatQ8_1 { dtype };
            let k_padded: usize = pad(x_cols, MATRIX_ROW_PADDING);
            steps.push(Step::Load { kernel });
            steps.push(Step::AllocOut { dtype: DType::F32, len: x_rows * y_cols });
            let row_tiles: usize = ceil_div(x_rows, mmq_y);
            let col_tiles: usize = ceil_div(y_cols, mmq_x);
            steps.push(
                Step::Launch {
                    kernel,
                    cfg: LaunchConfig {
                        grid_dim: (row_tiles as u32, col_tiles as u32, 1),
                        block_dim: (WARP_SIZE as u32, 4, 1),
                        shared_mem_bytes: 0,
                    },
                    args: KernelArgs::MatMatQ8_1 {
                        ncols_x: x_cols as i32,
                        nrows_x: x_rows as i32,
                        ncols_y: y_cols as i32,
                        nrows_y: k_padded as i32,
                        nrows_dst: x_rows as i32,
                    },
                },
            );
            assert(steps@ =~= mm_steps(dtype, x_rows, x_cols, y_cols));
            Program { steps, outcome: Ok(()) }
        },
        None => {
            assert(steps@ =~= mm_steps(dtype, x_rows, x_cols, y_cols));
            Program { steps, outcome: Err(ErrorOf::UnsupportedMatmul { dtype }) }
        },
    }
}

/// The tiles of a matrix launch cover the output, and no row or column of tiles lies wholly past
/// its end.
pub proof fn law_mul_mat_tiles_cover(dtype: GgmlDType, x_rows: usize, y_cols: usize)
    ensures
        match mul_mat_tile_spec(dtype) {
            Some((mmq_x, mmq_y)) => {
                &&& x_rows <= ceil_quot(x_rows as int, mmq_y as int) * mmq_y < x_rows + mmq_y
                &&& y_cols <= ceil_quot(y_cols as int, mmq_x as int) * mmq_x < y_cols + mmq_x
            },
            None => true,
        },
{
    match mul_mat_tile_spec(dtype) {
        Some((mmq_x, mmq_y)) => {
            lemma_ceil_quot(x_rows as int, mmq_y as int);
            lemma_ceil_quot(y_cols as int, mmq_x as int);
        },
        None => {},
    }
}

/// Tells whether the sizes of the scratch fit the machine.
pub fn scratch_sizes_fit(rows: usize, k: usize) -> (r: bool)
    ensures
        r == scratch_fits(rows as int, k as int),
{
    let q8_1: GgmlDType = GgmlDType::Q8_1;
    if !quantize_sizes_fit(k, rows) {
        return false;
    }
    let k_padded: usize = pad(k, MATRIX_ROW_PADDING);
    proof {
        law_padding(k as int, 512);
        let p = padded_row(k as int);
        assert(q8_1.type_size() == 36);
        assert(0 <= rows * p) by (nonlinear_arith)
            requires
                p >= 0,
        ;
        assert(rows * p * q8_1.type_size() == rows * p * 36);
    }
    match rows.checked_mul(k_padded) {
        Some(v) => v.checked_mul(q8_1.type_size()).is_some(),
        None => false,
    }
}

/// The blocks of a vector launch cover every row, and none lies wholly past the last row.
pub proof fn law_mmv_blocks_cover(nrows: usize, b_size: usize)
    requires
        nrows <= u32::MAX,
    ensures
        ({
            let (blocks, _, _) = mmv_config(nrows, b_size).grid_dim;
            let rows = if b_size == 1 {
                1int
            } else {
                2int
            };
            nrows <= blocks * rows < nrows + rows
        }),
{
    lemma_ceil_quot(nrows as int, 2);
}

/// Where the kernel of a product writes the result of row `row` of the weights and vector `col`.
pub open spec fn result_at(args: KernelArgs, row: int, col: int) -> int {
    match args {
        KernelArgs::MatVecQ8_1 { nrows_dst, .. } => col * nrows_dst + row,
        KernelArgs::MatMatQ8_1 { nrows_dst, .. } => col * nrows_dst + row,
        _ => row,
    }
}

/// The block formats that have product kernels.
pub proof fn law_product_formats(dtype: GgmlDType)
    ensures
        matmul_takes_spec(dtype) <==> !(dtype is F32 || dtype is F16 || dtype is BF16
            || dtype is Q8_1 || dtype is Q8K),
        mul_mat_tile_spec(dtype) is Some <==> matmul_takes_spec(dtype),
{
}

/// The elements in a buffer are those of its whole blocks: no further block would fit.
pub proof fn law_data_elems_whole_blocks(data_len: usize, dtype: GgmlDType)
    ensures
        ({
            let blocks = data_elems_spec(data_len, dtype) / dtype.block_size() as int;
            &&& data_elems_spec(data_len, dtype) == blocks * dtype.block_size()
            &&& blocks * dtype.type_size() <= data_len < blocks * dtype.type_size()
                + dtype.type_size()
        }),
{
    lemma_block_counts(data_len as int, dtype);
    let blocks = blocks_of_bytes(data_len as int, dtype);
    lemma_block_counts(blocks, dtype);
    let (bs, ts) = (dtype.block_size() as int, dtype.type_size() as int);
    lemma_fundamental_div_mod(data_len as int, ts);
    assert(ts * blocks == blocks * ts) by (nonlinear_arith);
    assert(blocks * bs == bs * blocks + 0) by (nonlinear_arith);
    lemma_fundamental_div_mod_converse(blocks * bs, bs, blocks, 0);
}

/// A product with one vector is planned exactly where the weights hold all their elements, the
/// vector has an element for each column, and the format has a kernel.
pub proof fn law_dmmv_takes_matching_operands(
    data_len: usize,
    y_len: usize,
    dtype: GgmlDType,
    ncols: usize,
    nrows: usize,
)
    ensures
        dmmv_refusal(data_len, y_len, dtype, ncols, nrows) is None <==> data_elems_spec(
            data_len,
            dtype,
        ) >= nrows * ncols && y_len == ncols && !(dtype is F32 || dtype is F16 || dtype is BF16
            || dtype is Q8_1 || dtype is Q8K),
{
    assert(nrows * ncols == ncols * nrows) by (nonlinear_arith);
}

/// A product with a few vectors is planned exactly where the weights hold all their elements,
/// there are one to eight vectors, and each has an element for each column.
pub proof fn law_mmv_takes_matching_operands(
    data_len: usize,
    y_len: usize,
    dtype: GgmlDType,
    ncols: usize,
    nrows: usize,
    b_size: usize,
)
    ensures
        mmv_refusal(data_len, y_len, dtype, ncols, nrows, b_size) is None <==> data_elems_spec(
            data_len,
            dtype,
        ) >= nrows * ncols && y_len == b_size * ncols && 1 <= b_size <= 8,
        mmv_refusal(data_len, y_len, dtype, ncols, nrows, b_size) is None ==> (q8_1_outcome(
            None,
            dtype,
        ) is Ok <==> !(dtype is F32 || dtype is F16 || dtype is BF16 || dtype is Q8_1
            || dtype is Q8K)),
{
    assert(nrows * ncols == ncols * nrows) by (nonlinear_arith);
    assert(b_size * ncols == ncols * b_size) by (nonlinear_arith);
}

/// A product with a matrix is planned exactly where the weights hold all their elements, the input
/// has all of its own, and the inner widths agree.
pub proof fn law_mm_takes_matching_operands(
    data_len: usize,
    y_len: usize,
    dtype: GgmlDType,
    x_rows: usize,
    x_cols: usize,
    y_rows: usize,
    y_cols: usize,
)
    ensures
        mm_refusal(data_len, y_len, dtype, x_rows, x_cols, y_rows, y_cols) is None
            <==> data_elems_spec(data_len, dtype) >= x_rows * x_cols && y_len == y_rows * y_cols
            && x_cols == y_rows,
{
}

/// The launch of a product with one vector describes its operands. It has a block of one warp for
/// each row of the weights and none more, and the output has an element for each row.
pub proof fn law_dmmv_describes_operands(dtype: GgmlDType, ncols: usize, nrows: usize)
    requires
        nrows <= u32::MAX,
    ensures
        ({
            let steps = dmmv_steps(dtype, ncols, nrows);
            let kernel = Kernel::DequantizeMulMatVec { dtype };
            &&& steps.len() == 3
            &&& steps[0] == (Step::Load { kernel })
            &&& steps[1] == (Step::AllocOut { dtype: DType::F32, len: nrows })
            &&& match steps[2] {
                Step::Launch {
                    kernel: launched,
                    cfg,
                    args: KernelArgs::MatVec { ncols: width, nrows: height },
                } => {
                    let (blocks, grid_y, grid_z) = cfg.grid_dim;
                    let (threads, rows, block_z) = cfg.block_dim;
                    &&& launched == kernel
                    &&& blocks * rows == nrows
                    &&& threads == 32 && rows == 1
                    &&& grid_y == 1 && grid_z == 1 && block_z == 1
                    &&& cfg.shared_mem_bytes == 0
                    &&& ncols <= i32::MAX ==> width == ncols
                    &&& nrows <= i32::MAX ==> height == nrows
                },
                _ => false,
            }
        }),
{
    let cfg = dmmv_steps(dtype, ncols, nrows)[2]->cfg;
    let (blocks, _, _) = cfg.grid_dim;
    let (_, rows, _) = cfg.block_dim;
    assert(blocks * rows == nrows) by (nonlinear_arith)
        requires
            blocks == nrows,
            rows == 1,
    ;
}

/// The steps that quantize the vectors of a product: a scratch of exactly the bytes that they take,
/// 36 for 32 elements of a row that is padded to a multiple of 512 and zeroed where the padding is
/// not empty, and then their quantization from F32.
pub proof fn law_scratch_describes_rows(rows: usize, k: usize)
    requires
        scratch_fits(rows as int, k as int),
    ensures
        ({
            let steps = scratch_steps(rows, k);
            let width = padded_row(k as int);
            &&& width % 512 == 0
            &&& k <= width < k + 512
            &&& steps.len() >= 2
            &&& steps.skip(1) == quantize_steps(Kernel::QuantizeQ8_1, k, rows)
            &&& match steps[0] {
                Step::AllocScratch { bytes, zeroed } => {
                    &&& bytes * 32 == rows * (width * 36)
                    &&& zeroed <==> k % 512 != 0
                },
                _ => false,
            }
        }),
{
    law_scratch_exact(rows as int, k as int);
    lemma_row_bytes(k as int);
    law_padding(k as int, 512);
    let row = q8_1_row_bytes(k as int);
    let width = padded_row(k as int);
    assert(rows * row * 32 == rows * (width * 36)) by (nonlinear_arith)
        requires
            row * 32 == width * 36,
    ;
    assert(rows * row <= usize::MAX);
    assert(rows * row >= 0) by (nonlinear_arith)
        requires
            row >= 0,
    ;
    assert(scratch_steps(rows, k).skip(1) =~= quantize_steps(Kernel::QuantizeQ8_1, k, rows));
}

/// The launch of a product with one to eight vectors describes its operands: the rows and columns
/// of the weights, the padded length of a quantized vector, and the rows of the weights again as
/// the distance of two vectors in the output. The output has an element for each row and vector,
/// and the result of vector `col` fills the elements from `col * nrows` on, each by one row. The
/// blocks cover the rows: one for each row with one vector, one for each two rows with more.
pub proof fn law_mmv_describes_operands(
    dtype: GgmlDType,
    ncols: usize,
    nrows: usize,
    b_size: usize,
)
    requires
        !(dtype is F32 || dtype is F16 || dtype is BF16 || dtype is Q8_1 || dtype is Q8K),
        1 <= b_size <= 8,
        scratch_fits(b_size as int, ncols as int),
        nrows * b_size <= usize::MAX,
        nrows <= i32::MAX,
        ncols <= i32::MAX - 511,
    ensures
        ({
            let steps = mmv_steps(dtype, ncols, nrows, b_size);
            let n = steps.len() as int;
            let kernel = Kernel::MulMatVecQ8_1 { dtype, b_size };
            &&& n > 3
            &&& steps.take(n - 3) == scratch_steps(b_size, ncols)
            &&& steps[n - 3] == (Step::Load { kernel })
            &&& match (steps[n - 2], steps[n - 1]) {
                (
                    Step::AllocOut { dtype: out, len },
                    Step::Launch { kernel: launched, cfg, args },
                ) => {
                    let (blocks, grid_y, grid_z) = cfg.grid_dim;
                    let (threads, warps, block_z) = cfg.block_dim;
                    &&& out is F32
                    &&& len == b_size * nrows
                    &&& launched == kernel
                    &&& b_size == 1 ==> blocks == nrows && warps == 4
                    &&& b_size > 1 ==> nrows <= blocks * 2 < nrows + 2
                    &&& warps == if b_size >= 5 {
                        2int
                    } else {
                        4int
                    }
                    &&& threads == 32 && grid_y == 1 && grid_z == 1 && block_z == 1
                    &&& cfg.shared_mem_bytes == 0
                    &&& match args {
                        KernelArgs::MatVecQ8_1 { ncols_x, nrows_x, nrows_y, nrows_dst } => {
                            &&& ncols_x == ncols
                            &&& nrows_x == nrows
                            &&& nrows_y % 512 == 0 && ncols <= nrows_y < ncols + 512
                            &&& nrows_dst == nrows
                            &&& nrows_dst * b_size == len
                        },
                        _ => false,
                    }
                    &&& forall|row: int, col: int|
                        0 <= row < nrows && 0 <= col < b_size ==> (#[trigger] result_at(
                            args,
                            row,
                            col,
                        )) == col * nrows + row && 0 <= result_at(args, row, col) < len
                },
                _ => false,
            }
        }),
{
    let steps = mmv_steps(dtype, ncols, nrows, b_size);
    let n = steps.len() as int;
    law_scratch_describes_rows(b_size, ncols);
    law_padding(ncols as int, 512);
    lemma_ceil_quot(nrows as int, 2);
    assert(steps.take(n - 3) =~= scratch_steps(b_size, ncols));
    assert(nrows * b_size == b_size * nrows) by (nonlinear_arith);
    assert(b_size * nrows >= 0) by (nonlinear_arith);
    let args = steps[n - 1]->args;
    assert forall|row: int, col: int| 0 <= row < nrows && 0 <= col < b_size implies (
    #[trigger] result_at(args, row, col)) == col * nrows + row && 0 <= result_at(args, row, col)
        < b_size * nrows by {
        lemma_result_within(row, col, nrows as int, b_size as int);
    }
}

proof fn lemma_result_within(row: int, col: int, rows: int, cols: int)
    requires
        0 <= row < rows,
        0 <= col < cols,
    ensures
        0 <= col * rows + row < cols * rows,
{
    assert(0 <= col * rows + row < cols * rows) by (nonlinear_arith)
        requires
            0 <= row < rows,
            0 <= col,
            col + 1 <= cols,
    ;
}

/// The launch of a product with a matrix describes its operands: the rows and columns of the
/// weights, the number of input vectors, the padded length of a quantized vector, and the rows of
/// the weights again as the distance of two vectors in the output. The output has an element for
/// each row and vector, and the result of vector `col` fills the elements from `col * x_rows` on,
/// each by one row. The blocks cover the output by tiles.
pub proof fn law_mm_describes_operands(
    dtype: GgmlDType,
    x_rows: usize,
    x_cols: usize,
    y_cols: usize,
)
    requires
        !(dtype is F32 || dtype is F16 || dtype is BF16 || dtype is Q8_1 || dtype is Q8K),
        scratch_fits(y_cols as int, x_cols as int),
        x_rows * y_cols <= usize::MAX,
        x_rows <= i32::MAX,
        y_cols <= i32::MAX,
        x_cols <= i32::MAX - 511,
    ensures
        ({
            let steps = mm_steps(dtype, x_rows, x_cols, y_cols);
            let n = steps.len() as int;
            let kernel = Kernel::MulMatQ8_1 { dtype };
            &&& n > 3
            &&& steps.take(n - 3) == scratch_steps(y_cols, x_cols)
            &&& steps[n - 3] == (Step::Load { kernel })
            &&& match (steps[n - 2], steps[n - 1]) {
                (
                    Step::AllocOut { dtype: out, len },
                    Step::Launch { kernel: launched, cfg, args },
                ) => {
                    let (row_tiles, col_tiles, grid_z) = cfg.grid_dim;
                    let (tile_cols, tile_rows) = mul_mat_tile_spec(dtype)->0;
                    &&& out is F32
                    &&& len == y_cols * x_rows
                    &&& launched == kernel
                    &&& x_rows <= row_tiles * tile_rows < x_rows + tile_rows
                    &&& y_cols <= col_tiles * tile_cols < y_cols + tile_cols
                    &&& grid_z == 1
                    &&& cfg.block_dim == (32u32, 4u32, 1u32)
                    &&& cfg.shared_mem_bytes == 0
                    &&& match args {
                        KernelArgs::MatMatQ8_1 { ncols_x, nrows_x, ncols_y, nrows_y, nrows_dst } => {
                            &&& ncols_x == x_cols
                            &&& nrows_x == x_rows
                            &&& ncols_y == y_cols
                            &&& nrows_y % 512 == 0 && x_cols <= nrows_y < x_cols + 512
                            &&& nrows_dst == x_rows
                            &&& nrows_dst * ncols_y == len
                        },
                        _ => false,
                    }
                    &&& forall|row: int, col: int|
                        0 <= row < x_rows && 0 <= col < y_cols ==> (#[trigger] result_at(
                            args,
                            row,
                            col,
                        )) == col * x_rows + row && 0 <= result_at(args, row, col) < len
                },
                _ => false,
            }
        }),
{
    let steps = mm_steps(dtype, x_rows, x_cols, y_cols);
    let n = steps.len() as int;
    law_scratch_describes_rows(y_cols, x_cols);
    law_padding(x_cols as int, 512);
    law_mul_mat_tiles_cover(dtype, x_rows, y_cols);
    let (tile_cols, tile_rows) = mul_mat_tile_spec(dtype)->0;
    lemma_ceil_quot(x_rows as int, tile_rows as int);
    lemma_ceil_quot(y_cols as int, tile_cols as int);
    assert(steps.take(n - 3) =~= scratch_steps(y_cols, x_cols));
    assert(x_rows * y_cols == y_cols * x_rows) by (nonlinear_arith);
    assert(y_cols * x_rows >= 0) by (nonlinear_arith);
    let args = steps[n - 1]->args;
    assert forall|row: int, col: int| 0 <= row < x_rows && 0 <= col < y_cols implies (
    #[trigger] result_at(args, row, col)) == col * x_rows + row && 0 <= result_at(args, row, col)
        < y_cols * x_rows by {
        lemma_result_within(row, col, x_rows as int, y_cols as int);
    }
}

/// Vectors and matrices are multiplied alike: up to eight vectors take the same output from either
/// route, in the same places.
pub proof fn law_routes_agree_on_output(
    dtype: GgmlDType,
    rows: usize,
    cols: usize,
    vectors: usize,
    row: int,
    col: int,
)
    requires
        !(dtype is F32 || dtype is F16 || dtype is BF16 || dtype is Q8_1 || dtype is Q8K),
        1 <= vectors <= 8,
        scratch_fits(vectors as int, cols as int),
        rows * vectors <= usize::MAX,
        rows <= i32::MAX,
        cols <= i32::MAX - 511,
        0 <= row < rows,
        0 <= col < vectors,
    ensures
        ({
            let by_vec = mmv_steps(dtype, cols, rows, vectors);
            let by_mat = mm_steps(dtype, rows, cols, vectors);
            let n = by_vec.len() as int;
            &&& by_mat.len() == n > 3
            &&& by_vec.take(n - 3) == by_mat.take(n - 3)
            &&& by_vec[n - 2] == by_mat[n - 2]
            &&& match (by_vec[n - 1], by_mat[n - 1]) {
                (Step::Launch { args: a, .. }, Step::Launch { args: b, .. }) => result_at(
                    a,
                    row,
                    col,
                ) == result_at(b, row, col),
                _ => false,
            }
        }),
{
    law_mmv_describes_operands(dtype, cols, rows, vectors);
    law_mm_describes_operands(dtype, rows, cols, vectors);
}

/// Rows of ordinary size fit: where 36 bytes for each element of the rows, with room for padding and
/// one row more, stay within what the machine addresses, so do all sizes on the way.
pub proof fn law_ordinary_rows_fit(k: int, rows: int)
    requires
        k >= 0,
        rows >= 0,
        (rows + 1) * (k + 512) * 36 <= usize::MAX,
    ensures
        quantize_fits(k, rows),
        scratch_fits(rows, k),
{
    lemma_row_bytes(k);
    law_padding(k, 512);
    let p = padded_row(k);
    let row = q8_1_row_bytes(k);
    assert(row <= p * 36);
    assert(p <= (rows + 1) * (k + 512) * 36 && p * 36 <= (rows + 1) * (k + 512) * 36)
        by (nonlinear_arith)
        requires
            0 <= p <= k + 512,
            rows >= 0,
    ;
    assert(rows * k <= (rows + 1) * (k + 512) * 36) by (nonlinear_arith)
        requires
            k >= 0,
            rows >= 0,
    ;
    assert(rows * p * 36 <= (rows + 1) * (k + 512) * 36) by (nonlinear_arith)
        requires
            0 <= p <= k + 512,
            rows >= 0,
    ;
    assert(rows * row <= rows * p * 36) by (nonlinear_arith)
        requires
            row <= p * 36,
            rows >= 0,
    ;
}

/// A product that is refused is told the first thing that does not match, in its own numbers.
pub proof fn law_refused_products_are_told(
    data_len: usize,
    y_len: usize,
    dtype: GgmlDType,
    rows: usize,
    cols: usize,
    y_rows: usize,
    vectors: usize,
)
    requires
        data_elems_spec(data_len, dtype) <= usize::MAX,
    ensures
        ({
            let held = data_elems_spec(data_len, dtype);
            let short = held < rows * cols;
            &&& match dmmv_refusal(data_len, y_len, dtype, cols, rows) {
                Some(ErrorOf::DataSize { data_elems, ncols, nrows }) => short && data_elems == held
                    && ncols == cols && nrows == rows,
                Some(ErrorOf::YSize { len, ncols, nrows }) => !short && y_len != cols && len
                    == y_len && ncols == cols && nrows == rows,
                Some(ErrorOf::UnsupportedMatmul { dtype: format }) => !short && y_len == cols
                    && format == dtype,
                Some(_) => false,
                None => !short,
            }
            &&& match mmv_refusal(data_len, y_len, dtype, cols, rows, vectors) {
                Some(ErrorOf::DataSize { data_elems, ncols, nrows }) => short && data_elems == held
                    && ncols == cols && nrows == rows,
                Some(ErrorOf::YSize { len, ncols, nrows }) => !short && y_len != vectors * cols
                    && len == y_len && ncols == cols && nrows == rows,
                Some(ErrorOf::BatchSize { b_size }) => !short && y_len == vectors * cols && b_size
                    == vectors && !(1 <= vectors <= 8),
                Some(_) => false,
                None => !short,
            }
            &&& match mm_refusal(data_len, y_len, dtype, rows, cols, y_rows, vectors) {
                Some(ErrorOf::LhsSize { data_elems, x_rows, x_cols }) => short && data_elems
                    == held && x_rows == rows && x_cols == cols,
                Some(ErrorOf::RhsSize { len, y_rows: height, y_cols }) => !short && y_len != y_rows
                    * vectors && len == y_len && height == y_rows && y_cols == vectors,
                Some(ErrorOf::InnerSize { x_rows, x_cols, y_rows: height, y_cols }) => {
                    &&& !short && cols != y_rows
                    &&& x_rows == rows && x_cols == cols
                    &&& height == y_rows && y_cols == vectors
                },
                Some(_) => false,
                None => !short,
            }
        }),
{
    assert(rows * cols == cols * rows) by (nonlinear_arith);
    assert(vectors * cols == cols * vectors) by (nonlinear_arith);
    lemma_block_counts(data_len as int, dtype);
    lemma_block_counts(blocks_of_bytes(data_len as int, dtype), dtype);
    assert(data_elems_spec(data_len, dtype) >= 0) by (nonlinear_arith)
        requires
            data_elems_spec(data_len, dtype) == blocks_of_bytes(data_len as int, dtype)
                * dtype.block_size(),
            blocks_of_bytes(data_len as int, dtype) >= 0,
    ;
}

} // verus!
