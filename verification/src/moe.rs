//! Launch plans of expert layers over quantized weights.

use crate::arith::ceil_quot;
use crate::arith::checked_pad;
use crate::arith::law_padding;
use crate::arith::lemma_ceil_quot;
use crate::arith::pad;
use crate::dtype::GgmlDType;
use crate::error::result_dims;
use crate::error::Error;
use crate::error::ErrorOf;
use crate::launch::Kernel;
use crate::launch::KernelArgs;
use crate::launch::LaunchConfig;
use crate::launch::Program;
use crate::launch::Span;
use crate::launch::Step;
use crate::launch::MATRIX_ROW_PADDING;
use crate::matmul::law_ordinary_rows_fit;
use crate::moe_tier::geom_y64;
use crate::moe_tier::law_moe_tier_conditions;
use crate::moe_tier::moe_config;
use crate::moe_tier::moe_config_spec;
use crate::moe_tier::moe_geom_y64;
use crate::moe_tier::moe_kernel;
use crate::moe_tier::moe_kernel_spec;
use crate::moe_tier::moe_tier;
use crate::moe_tier::moe_tier_spec;
use crate::moe_tier::setting_text;
use crate::moe_tier::MoeEnv;
use crate::moe_tier::MoeGrid;
use crate::moe_tier::MoeTier;
use crate::moe_tier::MOE_MAX_TASKS;
use crate::quantize::lemma_row_bytes;
use crate::quantize::padded_row;
use crate::quantize::q8_1_row_bytes;
use crate::quantize::quantize_fits;
use crate::quantize::quantize_q8_1;
use crate::quantize::quantize_q8_1_from_bf16;
use crate::quantize::quantize_steps;
use crate::runs::lemma_part;
use crate::runs::lemma_run;
use crate::runs::lemma_run_span;
use crate::runs::lemma_runs_tile;
use crate::runs::run_span;
use crate::runs::run_units;
use crate::runs::runs_tile;
use crate::shape::dims3;
use crate::shape::dims_fit;
use crate::shape::dims_product;
use crate::shape::elem_count;
use crate::shape::elem_count_fits;
use crate::shape::lemma_dims_product3;
use crate::shape::rank_error;
use crate::shape::replace_last;
use crate::shape::with_last;
use crate::text::str_eq;
use vstd::arithmetic::div_mod::lemma_fundamental_div_mod;
use vstd::arithmetic::div_mod::lemma_fundamental_div_mod_converse;
use vstd::prelude::*;

verus! {

/// The sizes of an expert layer: `num_experts` weight matrices of `n` rows and `k` columns, and
/// `batch` tokens that are routed to `topk` experts each. An input has one row per token where
/// `input_dim1` is one, and one row per task where it is `topk`.
#[derive(Clone, Copy, Debug, PartialEq, Eq, Structural)]
pub struct MoeShape {
    pub num_experts: usize,
    pub n: usize,
    pub k: usize,
    pub batch: usize,
    pub input_dim1: usize,
    pub topk: usize,
}

impl MoeShape {
    /// Number of input rows.
    pub open spec fn total_rows(self) -> int {
        self.batch * self.input_dim1
    }

    /// Number of token and expert pairs.
    pub open spec fn total_tasks(self) -> int {
        self.batch * self.topk
    }

    /// Bytes of one quantized input row.
    pub open spec fn row_bytes(self) -> int {
        q8_1_row_bytes(self.k as int)
    }

    /// Bytes of the quantized input.
    pub open spec fn input_bytes(self) -> int {
        self.total_rows() * self.row_bytes()
    }

    /// Number of output elements.
    pub open spec fn out_elems(self) -> int {
        self.total_tasks() * self.n
    }

    /// The sizes fit the machine.
    pub open spec fn fits(self) -> bool {
        &&& padded_row(self.k as int) <= usize::MAX
        &&& self.row_bytes() <= usize::MAX
        &&& self.total_rows() <= usize::MAX
        &&& self.input_bytes() <= usize::MAX
        &&& self.total_tasks() <= usize::MAX
        &&& self.out_elems() <= usize::MAX
    }

    /// The part of the sizes that launch geometry depends on.
    pub open spec fn grid(self) -> MoeGrid {
        MoeGrid { n: self.n, num_experts: self.num_experts, batch: self.batch, topk: self.topk }
    }
}

impl MoeShape {
    /// Tells whether the sizes fit the machine.
    pub fn sizes_fit(&self) -> (r: bool)
        ensures
            r == self.fits(),
    {
        let q8_1: GgmlDType = GgmlDType::Q8_1;
        let k_padded: usize = match checked_pad(self.k, MATRIX_ROW_PADDING) {
            Some(v) => v,
            None => return false,
        };
        proof {
            lemma_row_bytes(self.k as int);
        }
        let row: usize = match (k_padded / q8_1.block_size()).checked_mul(q8_1.type_size()) {
            Some(v) => v,
            None => return false,
        };
        let total_rows: usize = match self.batch.checked_mul(self.input_dim1) {
            Some(v) => v,
            None => return false,
        };
        let total_tasks: usize = match self.batch.checked_mul(self.topk) {
            Some(v) => v,
            None => return false,
        };
        total_rows.checked_mul(row).is_some() && total_tasks.checked_mul(self.n).is_some()
    }
}

/// Reads the sizes of an expert layer off the shapes of its weights (`[num_experts, n, k]`), its
/// input (`[batch, topk or 1, k]`) and its expert indices (`[batch, topk]`).
pub fn moe_shape(w_dims: &[usize], in_dims: &[usize], idx_dims: &[usize]) -> (r: Result<
    MoeShape,
    Error,
>)
    requires
        w_dims@.len() == 3 ==> in_dims@.len() >= 2 && idx_dims@.len() >= 2 && in_dims@[0]
            == idx_dims@[0],
    ensures
        match r {
            Ok(s) => w_dims@.len() == 3 && s == (MoeShape {
                num_experts: w_dims@[0],
                n: w_dims@[1],
                k: w_dims@[2],
                batch: in_dims@[0],
                input_dim1: in_dims@[1],
                topk: idx_dims@[1],
            }),
            Err(e) => w_dims@.len() != 3 && e@ == rank_error(3, w_dims@),
        },
{
    match dims3(w_dims) {
        Ok((num_experts, n, k)) => Ok(
            MoeShape {
                num_experts,
                n,
                k,
                batch: in_dims[0],
                input_dim1: in_dims[1],
                topk: idx_dims[1],
            },
        ),
        Err(e) => Err(e),
    }
}

/// What the workspace has to hold for a layer: output elements, then bytes of quantized input.
pub open spec fn workspace_demand(s: MoeShape) -> (int, int) {
    (s.out_elems(), s.input_bytes())
}

/// What the workspace has to hold for a layer: output elements, then bytes of quantized input.
pub fn moe_workspace_demand(s: &MoeShape) -> (r: (usize, usize))
    requires
        s.fits(),
    ensures
        r.0 == workspace_demand(*s).0,
        r.1 == workspace_demand(*s).1,
{
    let q8_1: GgmlDType = GgmlDType::Q8_1;
    proof {
        lemma_ceil_quot(s.k as int, 512);
        lemma_row_bytes(s.k as int);
    }
    let total_rows: usize = s.batch * s.input_dim1;
    let k_padded: usize = pad(s.k, MATRIX_ROW_PADDING);
    let dst_row_size_bytes: usize = k_padded / q8_1.block_size() * q8_1.type_size();
    (s.batch * s.topk * s.n, total_rows * dst_row_size_bytes)
}

/// The input rows of an expert layer and the length of the buffer that holds them, in elements of
/// that buffer.
#[derive(Clone, Copy, Debug, PartialEq, Eq, Structural)]
pub enum MoeInput {
    /// F32 rows, to be quantized first.
    F32 { len: usize },
    /// BF16 rows, to be quantized first.
    Bf16 { len: usize },
    /// Rows that are Q8_1 blocks already.
    Q8_1 { len: usize },
}

/// The lengths of the buffers that a launch is handed.
#[derive(Clone, Copy, Debug, PartialEq, Eq, Structural)]
pub struct MoeBuffers {
    /// Bytes of the weights.
    pub weight_len: usize,
    /// Number of expert indices.
    pub ids_len: usize,
    /// Elements of the output buffer.
    pub out_capacity: usize,
}

/// How the tasks of a layer are spread over launches.
#[derive(Clone, Copy, Debug, PartialEq, Eq, Structural)]
pub enum MoeSplit {
    /// One launch for all.
    Whole,
    /// Launches over runs of `chunk` units of `per_unit` tasks and one input row each, `units` in
    /// all.
    Chunked { units: usize, per_unit: usize, chunk: usize },
    /// The tasks exceed what a launch takes, and no rule says where to cut.
    Refused,
}

/// How many tokens of `topk` tasks each fit one launch.
pub open spec fn chunk_tokens(topk: int) -> int {
    1024int / topk
}

/// Tiers that list tasks in shared memory take no more than a full list per launch. Inputs with a
/// row per token are cut between tokens, inputs with a row per task between tasks. Where the tasks
/// of a single token overflow the list there is no place to cut.
pub open spec fn moe_split_spec(tier: MoeTier, s: MoeShape) -> MoeSplit {
    if (tier is Mma || tier is Tiled) && s.total_tasks() > MOE_MAX_TASKS {
        if s.input_dim1 == 1 && s.topk <= MOE_MAX_TASKS {
            MoeSplit::Chunked {
                units: s.batch,
                per_unit: s.topk,
                chunk: chunk_tokens(s.topk as int) as usize,
            }
        } else if s.input_dim1 == s.topk {
            MoeSplit::Chunked { units: s.total_tasks() as usize, per_unit: 1, chunk: MOE_MAX_TASKS }
        } else {
            MoeSplit::Refused
        }
    } else {
        MoeSplit::Whole
    }
}

/// Decides how the tasks of a layer are spread over launches.
pub fn moe_split(tier: MoeTier, s: &MoeShape) -> (r: MoeSplit)
    requires
        s.fits(),
    ensures
        r == moe_split_spec(tier, *s),
{
    let total_tasks: usize = s.batch * s.topk;
    let tiles: bool = matches!(tier, MoeTier::Mma | MoeTier::Tiled);
    if tiles && total_tasks > MOE_MAX_TASKS {
        if s.input_dim1 == 1 && s.topk <= MOE_MAX_TASKS {
            assert(s.topk > 0) by (nonlinear_arith)
                requires
                    s.batch * s.topk > 0,
            ;
            let chunk: usize = MOE_MAX_TASKS / s.topk;
            MoeSplit::Chunked { units: s.batch, per_unit: s.topk, chunk }
        } else if s.input_dim1 == s.topk {
            MoeSplit::Chunked { units: total_tasks, per_unit: 1, chunk: MOE_MAX_TASKS }
        } else {
            MoeSplit::Refused
        }
    } else {
        MoeSplit::Whole
    }
}

/// The `i`th launch of a split layer. Within it each unit is a token of its own with one input row
/// and `per_unit` tasks.
pub open spec fn moe_run_launch(
    kernel: Kernel,
    cfg: LaunchConfig,
    s: MoeShape,
    units: int,
    per_unit: int,
    chunk: int,
    i: int,
) -> Step {
    Step::Launch {
        kernel,
        cfg,
        args: KernelArgs::Moe {
            input: run_span(units, chunk, s.row_bytes(), i),
            ids: run_span(units, chunk, per_unit, i),
            out: run_span(units, chunk, per_unit * s.n, i),
            n: s.n as i32,
            k: s.k as i32,
            batch: (run_units(units, chunk, i) as usize) as i32,
            topk: (per_unit as usize) as i32,
            k_padded: (padded_row(s.k as int) as usize) as i32,
            input_dim1: 1,
        },
    }
}

/// The launch that takes a layer whole.
pub open spec fn moe_whole_launch(
    kernel: Kernel,
    cfg: LaunchConfig,
    s: MoeShape,
    input: MoeInput,
    buf: MoeBuffers,
) -> Step {
    Step::Launch {
        kernel,
        cfg,
        args: KernelArgs::Moe {
            input: Span {
                start: 0,
                len: match input {
                    MoeInput::Q8_1 { len } => len,
                    _ => s.input_bytes() as usize,
                },
            },
            ids: Span { start: 0, len: buf.ids_len },
            out: Span { start: 0, len: buf.out_capacity },
            n: s.n as i32,
            k: s.k as i32,
            batch: s.batch as i32,
            topk: s.topk as i32,
            k_padded: (padded_row(s.k as int) as usize) as i32,
            input_dim1: s.input_dim1 as i32,
        },
    }
}

/// The launches of a layer.
pub open spec fn moe_launches(
    kernel: Kernel,
    cfg: LaunchConfig,
    s: MoeShape,
    split: MoeSplit,
    input: MoeInput,
    buf: MoeBuffers,
) -> Seq<Step> {
    match split {
        MoeSplit::Whole => seq![moe_whole_launch(kernel, cfg, s, input, buf)],
        MoeSplit::Chunked { units, per_unit, chunk } => Seq::new(
            ceil_quot(units as int, chunk as int) as nat,
            |i: int|
                moe_run_launch(kernel, cfg, s, units as int, per_unit as int, chunk as int, i),
        ),
        MoeSplit::Refused => Seq::empty(),
    }
}

proof fn lemma_layer_fits(s: MoeShape)
    requires
        s.fits(),
    ensures
        quantize_fits(s.k as int, s.total_rows()),
{
    lemma_row_bytes(s.k as int);
    law_padding(s.k as int, 512);
    let rows = s.total_rows();
    let row = s.row_bytes();
    assert(rows >= 0) by (nonlinear_arith)
        requires
            rows == s.batch * s.input_dim1,
    ;
    assert(rows * s.k <= rows * row) by (nonlinear_arith)
        requires
            rows >= 0,
            s.k <= row,
    ;
}

/// The runs of a split layer stay within its buffers.
proof fn lemma_split_fits(tier: MoeTier, s: MoeShape)
    requires
        s.fits(),
        moe_split_spec(tier, s) is Chunked,
    ensures
        ({
            let split = moe_split_spec(tier, s);
            &&& split->chunk > 0
            &&& split->units * s.row_bytes() == s.input_bytes()
            &&& split->units * split->per_unit == s.total_tasks()
            &&& split->units * split->per_unit * s.n == s.out_elems()
        }),
{
    let split = moe_split_spec(tier, s);
    if s.input_dim1 == 1 && s.topk <= MOE_MAX_TASKS {
        assert(s.topk > 0) by (nonlinear_arith)
            requires
                s.batch * s.topk > 0,
        ;
        assert(1024int / s.topk as int > 0) by (nonlinear_arith)
            requires
                0 < s.topk <= 1024,
        ;
    } else {
        assert(s.batch * s.input_dim1 == s.batch * s.topk);
    }
}

/// Appends the launches of a split layer.
fn push_runs(
    steps: &mut Vec<Step>,
    kernel: Kernel,
    cfg: LaunchConfig,
    s: &MoeShape,
    units: usize,
    per_unit: usize,
    chunk: usize,
)
    requires
        s.fits(),
        chunk > 0,
        units * s.row_bytes() <= usize::MAX,
        units * per_unit <= usize::MAX,
        units * per_unit * s.n <= usize::MAX,
    ensures
        final(steps)@ == old(steps)@ + Seq::new(
            ceil_quot(units as int, chunk as int) as nat,
            |i: int|
                moe_run_launch(kernel, cfg, *s, units as int, per_unit as int, chunk as int, i),
        ),
{
    proof {
        lemma_ceil_quot(s.k as int, 512);
        lemma_row_bytes(s.k as int);
        lemma_ceil_quot(units as int, chunk as int);
    }
    let q8_1: GgmlDType = GgmlDType::Q8_1;
    let k_padded: usize = pad(s.k, MATRIX_ROW_PADDING);
    let dst_row_size_bytes: usize = k_padded / q8_1.block_size() * q8_1.type_size();
    let ghost row = s.row_bytes();
    let ghost before = steps@;
    let ghost count = ceil_quot(units as int, chunk as int);
    let ghost launches = Seq::new(
        count as nat,
        |i: int| moe_run_launch(kernel, cfg, *s, units as int, per_unit as int, chunk as int, i),
    );
    let mut start: usize = 0;
    let ghost mut i: int = 0;
    assert(steps@ =~= before + launches.take(0));
    while start < units
        invariant
            chunk > 0,
            units * row <= usize::MAX,
            units * per_unit <= usize::MAX,
            units * per_unit * s.n <= usize::MAX,
            k_padded == padded_row(s.k as int),
            dst_row_size_bytes == row,
            row == s.row_bytes(),
            row >= 0,
            count == ceil_quot(units as int, chunk as int),
            units <= count * chunk < units + chunk,
            launches == Seq::new(
                count as nat,
                |j: int|
                    moe_run_launch(
                        kernel,
                        cfg,
                        *s,
                        units as int,
                        per_unit as int,
                        chunk as int,
                        j,
                    ),
            ),
            0 <= i <= count,
            start == if i == count {
                units as int
            } else {
                i * chunk
            },
            start <= units,
            steps@ == before + launches.take(i),
        decreases units - start,
    {
        proof {
            lemma_run(units as int, chunk as int, i);
        }
        let left: usize = units - start;
        let len: usize = if chunk < left {
            chunk
        } else {
            left
        };
        proof {
            assert(len == run_units(units as int, chunk as int, i));
            lemma_part(start as int, units as int, row);
            lemma_part(len as int, units as int, row);
            lemma_part(start as int, units as int, per_unit as int);
            lemma_part(len as int, units as int, per_unit as int);
            lemma_part(start * per_unit, units * per_unit, s.n as int);
            lemma_part(len * per_unit, units * per_unit, s.n as int);
            assert(start * per_unit * s.n == start * (per_unit * s.n)) by (nonlinear_arith);
            assert(len * per_unit * s.n == len * (per_unit * s.n)) by (nonlinear_arith);
        }
        let task_start: usize = start * per_unit;
        let tasks: usize = len * per_unit;
        let step: Step = Step::Launch {
            kernel,
            cfg,
            args: KernelArgs::Moe {
                input: Span { start: start * dst_row_size_bytes, len: len * dst_row_size_bytes },
                ids: Span { start: task_start, len: tasks },
                out: Span { start: task_start * s.n, len: tasks * s.n },
                n: s.n as i32,
                k: s.k as i32,
                batch: len as i32,
                topk: per_unit as i32,
                k_padded: k_padded as i32,
                input_dim1: 1,
            },
        };
        proof {
            assert(step == launches[i]);
            assert(launches.take(i + 1) =~= launches.take(i).push(step));
        }
        steps.push(step);
        start = start + len;
        proof {
            i = i + 1;
            assert(steps@ =~= before + launches.take(i));
        }
    }
    proof {
        assert(i == count) by {
            if i < count {
                lemma_run(units as int, chunk as int, i);
            }
        }
        assert(launches.take(count) =~= launches);
        assert(steps@ =~= before + launches);
    }
}

/// The steps that quantize the input of a layer, where it is not quantized yet.
pub open spec fn moe_quantize_steps(s: MoeShape, input: MoeInput) -> Seq<Step> {
    match input {
        MoeInput::F32 { .. } => quantize_steps(
            Kernel::QuantizeQ8_1,
            s.k,
            s.total_rows() as usize,
        ),
        MoeInput::Bf16 { .. } => quantize_steps(
            Kernel::QuantizeQ8_1Bf16,
            s.k,
            s.total_rows() as usize,
        ),
        MoeInput::Q8_1 { .. } => Seq::empty(),
    }
}

/// The input is quantized already, and shorter than the layer needs.
pub open spec fn moe_input_short(s: MoeShape, input: MoeInput) -> bool {
    match input {
        MoeInput::Q8_1 { len } => len < s.input_bytes(),
        _ => false,
    }
}

/// The tensor-core tile does not take this layer.
pub open spec fn mma_misfit(tier: MoeTier, s: MoeShape) -> bool {
    tier is Mma && (s.k % 256 != 0 || s.n == 0)
}

/// The kernel of a layer, and whether each warp computes a row of its own.
pub open spec fn moe_layer_kernel(s: MoeShape, w_dtype: GgmlDType, env: MoeEnv) -> Option<
    (Kernel, bool),
> {
    moe_kernel_spec(
        moe_tier_spec(w_dtype, s.total_tasks(), env),
        w_dtype,
        s.k as int,
        geom_y64(setting_text(env.geom)),
    )
}

/// The steps that fold the operands into checksums and report them.
pub open spec fn moe_checksum_steps(
    tier: MoeTier,
    s: MoeShape,
    buf: MoeBuffers,
    env: MoeEnv,
) -> Seq<Step> {
    if tier is Mma && env.checksum@ != ""@ {
        seq![
            Step::Load { kernel: Kernel::MoeChecksum },
            Step::AllocChecksum,
            Step::Launch {
                kernel: Kernel::MoeChecksum,
                cfg: LaunchConfig {
                    grid_dim: (256, 1, 1),
                    block_dim: (256, 1, 1),
                    shared_mem_bytes: 0,
                },
                args: KernelArgs::MoeChecksum {
                    weight_len: buf.weight_len as u32,
                    input: Span { start: 0, len: s.input_bytes() as usize },
                    input_len: (s.input_bytes() as usize) as u32,
                    ids_len: buf.ids_len as u32,
                },
            },
            Step::ReportChecksum,
        ]
    } else {
        Seq::empty()
    }
}

/// The steps of a layer. A layer that is refused has those that come before its refusal.
pub open spec fn moe_steps(
    s: MoeShape,
    w_dtype: GgmlDType,
    input: MoeInput,
    buf: MoeBuffers,
    env: MoeEnv,
) -> Seq<Step> {
    let tier = moe_tier_spec(w_dtype, s.total_tasks(), env);
    if moe_input_short(s, input) {
        Seq::empty()
    } else {
        moe_quantize_steps(s, input) + match moe_layer_kernel(s, w_dtype, env) {
            None => Seq::empty(),
            Some((kernel, warp_rows)) => seq![Step::Load { kernel }] + if mma_misfit(tier, s) {
                Seq::empty()
            } else {
                moe_checksum_steps(tier, s, buf, env) + moe_launches(
                    kernel,
                    moe_config_spec(tier, w_dtype, warp_rows, s.grid(), env),
                    s,
                    moe_split_spec(tier, s),
                    input,
                    buf,
                )
            },
        }
    }
}

/// Why a layer is refused before its output is shaped, if it is.
pub open spec fn moe_refusal(
    s: MoeShape,
    w_dtype: GgmlDType,
    input: MoeInput,
    env: MoeEnv,
) -> Option<ErrorOf<Seq<usize>>> {
    let tier = moe_tier_spec(w_dtype, s.total_tasks(), env);
    if moe_input_short(s, input) {
        Some(
            ErrorOf::MoeInputBytes { have: input->Q8_1_len, need: s.input_bytes() as usize },
        )
    } else if moe_layer_kernel(s, w_dtype, env) is None {
        Some(ErrorOf::UnsupportedMoe { dtype: w_dtype })
    } else if tier is Mma && s.k % 256 != 0 {
        Some(ErrorOf::MmaInner { k: s.k })
    } else if tier is Mma && s.n == 0 {
        Some(ErrorOf::MmaRows)
    } else if moe_split_spec(tier, s) is Refused {
        Some(
            ErrorOf::MoeUnchunkable {
                total_tasks: s.total_tasks() as usize,
                input_dim1: s.input_dim1,
                topk: s.topk,
            },
        )
    } else {
        None
    }
}

/// The output dimensions of a layer: those of its input, with `n` columns and `topk` rows for each
/// token.
pub open spec fn moe_out_dims(in_dims: Seq<usize>, s: MoeShape) -> Seq<usize> {
    with_last(in_dims, s.n).update(1, s.topk)
}

/// What a layer ends in: its output dimensions, or its refusal.
pub open spec fn moe_outcome(
    s: MoeShape,
    w_dtype: GgmlDType,
    input: MoeInput,
    in_dims: Seq<usize>,
    env: MoeEnv,
) -> Result<Seq<usize>, ErrorOf<Seq<usize>>> {
    match moe_refusal(s, w_dtype, input, env) {
        Some(e) => Err(e),
        None => if dims_product(moe_out_dims(in_dims, s)) == s.out_elems() {
            Ok(moe_out_dims(in_dims, s))
        } else {
            Err(
                ErrorOf::Reshape {
                    elems: s.out_elems() as usize,
                    shape: moe_out_dims(in_dims, s),
                },
            )
        },
    }
}

/// Appends the launch that takes a layer whole.
fn push_whole(
    steps: &mut Vec<Step>,
    kernel: Kernel,
    cfg: LaunchConfig,
    s: &MoeShape,
    input: MoeInput,
    input_bytes: usize,
    k_padded: usize,
    buf: MoeBuffers,
)
    requires
        input_bytes == s.input_bytes(),
        k_padded == padded_row(s.k as int),
    ensures
        final(steps)@ == old(steps)@.push(moe_whole_launch(kernel, cfg, *s, input, buf)),
{
    let input_len: usize = match input {
        MoeInput::Q8_1 { len } => len,
        _ => input_bytes,
    };
    steps.push(
        Step::Launch {
            kernel,
            cfg,
            args: KernelArgs::Moe {
                input: Span { start: 0, len: input_len },
                ids: Span { start: 0, len: buf.ids_len },
                out: Span { start: 0, len: buf.out_capacity },
                n: s.n as i32,
                k: s.k as i32,
                batch: s.batch as i32,
                topk: s.topk as i32,
                k_padded: k_padded as i32,
                input_dim1: s.input_dim1 as i32,
            },
        },
    );
}

/// Appends the steps that fold the operands into checksums and report them, where asked for.
fn push_checksum(
    steps: &mut Vec<Step>,
    tier: MoeTier,
    Ghost(s): Ghost<MoeShape>,
    input_bytes: usize,
    buf: MoeBuffers,
    env: &MoeEnv,
)
    requires
        input_bytes == s.input_bytes(),
    ensures
        final(steps)@ == old(steps)@ + moe_checksum_steps(tier, s, buf, *env),
{
    let ghost before = steps@;
    if matches!(tier, MoeTier::Mma) && !str_eq(env.checksum, "") {
        steps.push(Step::Load { kernel: Kernel::MoeChecksum });
        steps.push(Step::AllocChecksum);
        steps.push(
            Step::Launch {
                kernel: Kernel::MoeChecksum,
                cfg: LaunchConfig {
                    grid_dim: (256, 1, 1),
                    block_dim: (256, 1, 1),
                    shared_mem_bytes: 0,
                },
                args: KernelArgs::MoeChecksum {
                    weight_len: buf.weight_len as u32,
                    input: Span { start: 0, len: input_bytes },
                    input_len: input_bytes as u32,
                    ids_len: buf.ids_len as u32,
                },
            },
        );
        steps.push(Step::ReportChecksum);
    }
    assert(steps@ =~= before + moe_checksum_steps(tier, s, buf, *env));
}

/// Tells whether the number of elements that the output dimensions of a layer stand for fits the
/// machine.
pub fn moe_out_dims_fit(s: &MoeShape, in_dims: &[usize]) -> (r: bool)
    ensures
        r == (in_dims@.len() >= 2 && dims_fit(moe_out_dims(in_dims@, *s))),
{
    if in_dims.len() < 2 {
        return false;
    }
    let mut out_shape: Vec<usize> = replace_last(in_dims, s.n);
    out_shape.set(1, s.topk);
    elem_count_fits(out_shape.as_slice())
}

/// The output dimensions of a layer whose launches have succeeded.
fn moe_output(s: &MoeShape, in_dims: &[usize]) -> (r: Result<Vec<usize>, Error>)
    requires
        s.fits(),
        in_dims@.len() >= 2,
        dims_fit(moe_out_dims(in_dims@, *s)),
    ensures
        result_dims(r) == if dims_product(moe_out_dims(in_dims@, *s)) == s.out_elems() {
            Ok::<Seq<usize>, ErrorOf<Seq<usize>>>(moe_out_dims(in_dims@, *s))
        } else {
            Err(
                ErrorOf::Reshape {
                    elems: s.out_elems() as usize,
                    shape: moe_out_dims(in_dims@, *s),
                },
            )
        },
{
    let outsize: usize = s.batch * s.topk * s.n;
    let mut out_shape: Vec<usize> = replace_last(in_dims, s.n);
    out_shape.set(1, s.topk);
    if elem_count(out_shape.as_slice()) == outsize {
        Ok(out_shape)
    } else {
        Err(ErrorOf::Reshape { elems: outsize, shape: out_shape })
    }
}

/// Plans an expert layer: quantizes its input where needed, chooses tier, kernel and geometry, and
/// spreads the tasks over launches that never take more than the kernel's task list holds.
#[verifier::rlimit(40)]
pub fn indexed_moe_forward_fused_q8_1_input(
    s: &MoeShape,
    w_dtype: GgmlDType,
    input: MoeInput,
    in_dims: &[usize],
    buf: MoeBuffers,
    env: &MoeEnv,
) -> (r: Program<Vec<usize>>)
    requires
        s.fits(),
        in_dims@.len() >= 2,
        moe_refusal(*s, w_dtype, input, *env) is None ==> dims_fit(moe_out_dims(in_dims@, *s)),
    ensures
        r.steps@ == moe_steps(*s, w_dtype, input, buf, *env),
        result_dims(r.outcome) == moe_outcome(*s, w_dtype, input, in_dims@, *env),
{
    let q8_1: GgmlDType = GgmlDType::Q8_1;
    proof {
        lemma_ceil_quot(s.k as int, 512);
        lemma_row_bytes(s.k as int);
        lemma_layer_fits(*s);
    }
    let total_rows: usize = s.batch * s.input_dim1;
    let total_tasks: usize = s.batch * s.topk;
    let k_padded: usize = pad(s.k, MATRIX_ROW_PADDING);
    let dst_row_size_bytes: usize = k_padded / q8_1.block_size() * q8_1.type_size();
    let y_size_in_bytes: usize = total_rows * dst_row_size_bytes;
    let mut steps: Vec<Step> = Vec::new();
    match input {
        MoeInput::Q8_1 { len } => {
            if len < y_size_in_bytes {
                return Program {
                    steps,
                    outcome: Err(ErrorOf::MoeInputBytes { have: len, need: y_size_in_bytes }),
                };
            }
        },
        MoeInput::F32 { .. } => {
            quantize_q8_1(&mut steps, s.k, total_rows);
        },
        MoeInput::Bf16 { .. } => {
            quantize_q8_1_from_bf16(&mut steps, s.k, total_rows);
        },
    }
    let ghost quantized = moe_quantize_steps(*s, input);
    assert(steps@ =~= quantized);
    let tier: MoeTier = moe_tier(w_dtype, total_tasks, env);
    let (kernel, warp_rows): (Kernel, bool) = match moe_kernel(
        tier,
        w_dtype,
        s.k,
        moe_geom_y64(env.geom),
    ) {
        Some(chosen) => chosen,
        None => {
            assert(steps@ =~= moe_steps(*s, w_dtype, input, buf, *env));
            return Program { steps, outcome: Err(ErrorOf::UnsupportedMoe { dtype: w_dtype }) };
        },
    };
    steps.push(Step::Load { kernel });
    if matches!(tier, MoeTier::Mma) {
        if s.k % 256 != 0 {
            assert(steps@ =~= moe_steps(*s, w_dtype, input, buf, *env));
            return Program { steps, outcome: Err(ErrorOf::MmaInner { k: s.k }) };
        }
        if s.n == 0 {
            assert(steps@ =~= moe_steps(*s, w_dtype, input, buf, *env));
            return Program { steps, outcome: Err(ErrorOf::MmaRows) };
        }
    }
    let grid: MoeGrid = MoeGrid {
        n: s.n,
        num_experts: s.num_experts,
        batch: s.batch,
        topk: s.topk,
    };
    let cfg: LaunchConfig = moe_config(tier, w_dtype, warp_rows, grid, env);
    push_checksum(&mut steps, tier, Ghost(*s), y_size_in_bytes, buf, env);
    match moe_split(tier, s) {
        MoeSplit::Whole => {
            push_whole(&mut steps, kernel, cfg, s, input, y_size_in_bytes, k_padded, buf);
        },
        MoeSplit::Chunked { units, per_unit, chunk } => {
            proof {
                lemma_split_fits(tier, *s);
            }
            push_runs(&mut steps, kernel, cfg, s, units, per_unit, chunk);
        },
        MoeSplit::Refused => {
            assert(steps@ =~= moe_steps(*s, w_dtype, input, buf, *env));
            return Program {
                steps,
                outcome: Err(
                    ErrorOf::MoeUnchunkable { total_tasks, input_dim1: s.input_dim1, topk: s.topk },
                ),
            };
        },
    }
    assert(steps@ =~= moe_steps(*s, w_dtype, input, buf, *env));
    Program { steps, outcome: moe_output(s, in_dims) }
}

/// The launches of a split layer cut the quantized input, the expert indices and the output into
/// consecutive parts: each byte, index and element belongs to exactly one launch.
pub proof fn law_moe_runs_tile(tier: MoeTier, s: MoeShape)
    requires
        s.fits(),
        moe_split_spec(tier, s) is Chunked,
    ensures
        ({
            let split = moe_split_spec(tier, s);
            let (units, per_unit, chunk) = (
                split->units as int,
                split->per_unit as int,
                split->chunk as int,
            );
            &&& runs_tile(units, chunk, s.row_bytes(), s.input_bytes())
            &&& runs_tile(units, chunk, per_unit, s.total_tasks())
            &&& runs_tile(units, chunk, per_unit * s.n, s.out_elems())
        }),
{
    let split = moe_split_spec(tier, s);
    let (units, per_unit, chunk) = (
        split->units as int,
        split->per_unit as int,
        split->chunk as int,
    );
    lemma_split_fits(tier, s);
    lemma_row_bytes(s.k as int);
    assert(units > 0) by (nonlinear_arith)
        requires
            units * per_unit > 0,
            units >= 0,
    ;
    assert(per_unit * s.n >= 0) by (nonlinear_arith)
        requires
            per_unit >= 0,
    ;
    assert(units * per_unit * s.n == units * (per_unit * s.n)) by (nonlinear_arith);
    lemma_runs_tile(units, chunk, s.row_bytes());
    lemma_runs_tile(units, chunk, per_unit);
    lemma_runs_tile(units, chunk, per_unit * s.n);
}

/// Tasks that a launch hands to its kernel.
pub open spec fn launch_tasks(step: Step) -> int {
    match step {
        Step::Launch { args, .. } => match args {
            KernelArgs::Moe { batch, topk, .. } => batch * topk,
            _ => 0,
        },
        _ => 0,
    }
}

/// No launch of a tier that lists its tasks in shared memory takes more tasks than the list holds.
pub proof fn law_moe_launch_within_list(
    kernel: Kernel,
    cfg: LaunchConfig,
    tier: MoeTier,
    s: MoeShape,
    input: MoeInput,
    buf: MoeBuffers,
    i: int,
)
    requires
        s.fits(),
        tier is Mma || tier is Tiled,
        0 <= i < moe_launches(kernel, cfg, s, moe_split_spec(tier, s), input, buf).len(),
    ensures
        launch_tasks(moe_launches(kernel, cfg, s, moe_split_spec(tier, s), input, buf)[i])
            <= MOE_MAX_TASKS,
{
    let split = moe_split_spec(tier, s);
    match split {
        MoeSplit::Whole => {
            if s.batch == 0 || s.topk == 0 {
                assert(s.batch as i32 * s.topk as i32 == 0) by (nonlinear_arith)
                    requires
                        s.batch as i32 == 0 || s.topk as i32 == 0,
                ;
            } else {
                assert(s.batch <= MOE_MAX_TASKS && s.topk <= MOE_MAX_TASKS) by (nonlinear_arith)
                    requires
                        s.batch >= 1,
                        s.topk >= 1,
                        s.batch * s.topk <= MOE_MAX_TASKS,
                ;
            }
        },
        MoeSplit::Chunked { units, per_unit, chunk } => {
            lemma_split_fits(tier, s);
            lemma_run(units as int, chunk as int, i);
            let len = run_units(units as int, chunk as int, i);
            if s.input_dim1 == 1 {
                assert(per_unit > 0) by (nonlinear_arith)
                    requires
                        units * per_unit > 0,
                ;
                let whole = 1024int / per_unit as int;
                assert(whole * per_unit <= MOE_MAX_TASKS && whole >= 1) by (nonlinear_arith)
                    requires
                        whole == 1024int / per_unit as int,
                        0 < per_unit <= MOE_MAX_TASKS,
                ;
                assert(whole <= MOE_MAX_TASKS) by (nonlinear_arith)
                    requires
                        whole * per_unit <= MOE_MAX_TASKS,
                        per_unit >= 1,
                        whole >= 1,
                ;
                assert(chunk == whole);
                assert(len * per_unit <= whole * per_unit) by (nonlinear_arith)
                    requires
                        len <= whole,
                        per_unit >= 0,
                ;
            }
        },
        MoeSplit::Refused => {},
    }
}

/// The part lies within a buffer of `len` elements.
pub open spec fn span_within(span: Span, len: int) -> bool {
    span.start + span.len <= len
}

/// Every launch stays within the buffers of its layer, as long as the output buffer has room for
/// the output and there is an index for each task: the parts of the output and of the indices that
/// it is given lie within them. So does its part of the quantized input, where an input that was
/// quantized before is long enough.
pub proof fn law_moe_launch_within_buffers(
    kernel: Kernel,
    cfg: LaunchConfig,
    tier: MoeTier,
    s: MoeShape,
    input: MoeInput,
    buf: MoeBuffers,
    i: int,
)
    requires
        s.fits(),
        s.out_elems() <= buf.out_capacity,
        s.total_tasks() <= buf.ids_len,
        0 <= i < moe_launches(kernel, cfg, s, moe_split_spec(tier, s), input, buf).len(),
    ensures
        match moe_launches(kernel, cfg, s, moe_split_spec(tier, s), input, buf)[i] {
            Step::Launch { args: KernelArgs::Moe { input: rows, ids, out, .. }, .. } => {
                &&& span_within(out, buf.out_capacity as int)
                &&& span_within(ids, buf.ids_len as int)
                &&& match input {
                    MoeInput::Q8_1 { len } => s.input_bytes() <= len ==> span_within(
                        rows,
                        len as int,
                    ),
                    _ => span_within(rows, s.input_bytes()),
                }
            },
            _ => false,
        },
{
    lemma_row_bytes(s.k as int);
    match moe_split_spec(tier, s) {
        MoeSplit::Chunked { units, per_unit, chunk } => {
            lemma_split_fits(tier, s);
            let (u, p, c) = (units as int, per_unit as int, chunk as int);
            assert(u * p * s.n == u * (p * s.n)) by (nonlinear_arith);
            assert(p * s.n >= 0) by (nonlinear_arith)
                requires
                    p >= 0,
            ;
            lemma_run_span(u, c, s.row_bytes(), i);
            lemma_run_span(u, c, p, i);
            lemma_run_span(u, c, p * s.n, i);
        },
        _ => {},
    }
}

/// The launches of a layer with one input row per token begin and end between tokens.
pub proof fn law_moe_runs_hold_whole_tokens(tier: MoeTier, s: MoeShape, i: int)
    requires
        s.fits(),
        s.input_dim1 == 1,
        moe_split_spec(tier, s) is Chunked,
        0 <= i < ceil_quot(s.batch as int, chunk_tokens(s.topk as int)),
    ensures
        ({
            let chunk = chunk_tokens(s.topk as int);
            let tokens = run_units(s.batch as int, chunk, i);
            let ids = run_span(s.batch as int, chunk, s.topk as int, i);
            &&& moe_split_spec(tier, s) == (MoeSplit::Chunked {
                units: s.batch,
                per_unit: s.topk,
                chunk: chunk as usize,
            })
            &&& ids.start == i * chunk * s.topk
            &&& ids.len == tokens * s.topk
            &&& 0 < tokens <= chunk
            &&& ids.len <= MOE_MAX_TASKS
        }),
{
    lemma_split_fits(tier, s);
    let topk = s.topk as int;
    let chunk = chunk_tokens(topk);
    lemma_run(s.batch as int, chunk, i);
    lemma_run_span(s.batch as int, chunk, topk, i);
    let tokens = run_units(s.batch as int, chunk, i);
    assert(topk > 0) by (nonlinear_arith)
        requires
            s.batch * topk > 0,
            topk >= 0,
    ;
    assert(tokens * topk <= 1024) by (nonlinear_arith)
        requires
            tokens <= chunk,
            chunk == 1024int / topk,
            topk > 0,
    ;
}

/// The input row that a kernel reads for its task `t`.
pub open spec fn task_row(t: int, topk: int, input_dim1: int) -> int {
    if input_dim1 == 1 {
        t / topk
    } else {
        t
    }
}

/// Splitting a layer changes nothing of what its tasks compute: task `t` falls to one run, as the
/// run's task `l`, where it reads the expert index, reads the input row and writes the output row
/// that it has in the layer as a whole.
pub proof fn law_moe_split_keeps_tasks(tier: MoeTier, s: MoeShape, t: int)
    requires
        s.fits(),
        moe_split_spec(tier, s) is Chunked,
        0 <= t < s.total_tasks(),
    ensures
        ({
            let split = moe_split_spec(tier, s);
            let (units, per_unit, chunk) = (
                split->units as int,
                split->per_unit as int,
                split->chunk as int,
            );
            exists|i: int, l: int|
                0 <= i < ceil_quot(units, chunk) && 0 <= l < (#[trigger] run_span(
                    units,
                    chunk,
                    per_unit,
                    i,
                )).len && run_span(units, chunk, per_unit, i).start + l == t && i * chunk
                    + #[trigger] task_row(l, per_unit, 1) == task_row(
                    t,
                    s.topk as int,
                    s.input_dim1 as int,
                ) && run_span(units, chunk, per_unit * s.n, i).start + l * s.n == t * s.n
        }),
{
    let split = moe_split_spec(tier, s);
    let (units, per_unit, chunk) = (
        split->units as int,
        split->per_unit as int,
        split->chunk as int,
    );
    lemma_split_fits(tier, s);
    assert(per_unit > 0) by (nonlinear_arith)
        requires
            units * per_unit > 0,
            per_unit >= 0,
    ;
    let u = t / per_unit;
    let i = u / chunk;
    let l = t - i * chunk * per_unit;
    lemma_fundamental_div_mod(t, per_unit);
    lemma_fundamental_div_mod(u, chunk);
    assert(u * per_unit == per_unit * u) by (nonlinear_arith);
    assert(i * chunk == chunk * i) by (nonlinear_arith);
    assert(0 <= u < units) by (nonlinear_arith)
        requires
            u * per_unit <= t < u * per_unit + per_unit,
            0 <= t < units * per_unit,
            per_unit > 0,
    ;
    assert(i >= 0) by (nonlinear_arith)
        requires
            i * chunk <= u < i * chunk + chunk,
            u >= 0,
            chunk > 0,
    ;
    lemma_ceil_quot(units, chunk);
    let count = ceil_quot(units, chunk);
    assert(i < count) by (nonlinear_arith)
        requires
            i * chunk <= u < units <= count * chunk,
            chunk > 0,
    ;
    lemma_run(units, chunk, i);
    lemma_run_span(units, chunk, per_unit, i);
    let len = run_units(units, chunk, i);
    assert(u < i * chunk + len);
    assert(t < (i * chunk + len) * per_unit) by (nonlinear_arith)
        requires
            t < u * per_unit + per_unit,
            u + 1 <= i * chunk + len,
            per_unit > 0,
    ;
    assert(i * chunk * per_unit <= t) by (nonlinear_arith)
        requires
            u * per_unit <= t,
            i * chunk <= u,
            per_unit > 0,
    ;
    let v = u - i * chunk;
    assert(l == v * per_unit + t % per_unit) by (nonlinear_arith)
        requires
            l == t - i * chunk * per_unit,
            t == per_unit * u + t % per_unit,
            v == u - i * chunk,
    ;
    assert(v * per_unit == per_unit * v) by (nonlinear_arith);
    lemma_fundamental_div_mod_converse(l, per_unit, v, t % per_unit);
    assert(task_row(l, per_unit, 1) == v);
    if s.input_dim1 != 1 {
        assert(t / 1 == t);
    }
    assert(per_unit * s.n >= 0) by (nonlinear_arith)
        requires
            per_unit >= 0,
    ;
    assert(units * per_unit * s.n == units * (per_unit * s.n)) by (nonlinear_arith);
    lemma_run_span(units, chunk, per_unit * s.n, i);
    assert(i * chunk * (per_unit * s.n) + l * s.n == t * s.n) by (nonlinear_arith)
        requires
            l == t - i * chunk * per_unit,
    ;
}

/// A layer over an input of shape `[batch, topk or 1, k]` that is not refused has an output of
/// shape `[batch, topk, n]`.
pub proof fn law_moe_output_shape(
    s: MoeShape,
    w_dtype: GgmlDType,
    input: MoeInput,
    in_dims: Seq<usize>,
    env: MoeEnv,
)
    requires
        s.fits(),
        in_dims.len() == 3,
        in_dims[0] == s.batch,
        moe_refusal(s, w_dtype, input, env) is None,
    ensures
        dims_fit(moe_out_dims(in_dims, s)),
        moe_outcome(s, w_dtype, input, in_dims, env) == Ok::<Seq<usize>, ErrorOf<Seq<usize>>>(
            seq![s.batch, s.topk, s.n],
        ),
{
    let d = seq![s.batch, s.topk, s.n];
    assert(moe_out_dims(in_dims, s) =~= d);
    lemma_dims_product3(s.batch, s.topk, s.n);
    assert forall|i: int| 0 <= i <= d.len() implies dims_product(#[trigger] d.take(i))
        <= usize::MAX by {
        if i == 0 {
            assert(d.take(0) =~= Seq::<usize>::empty());
        } else if i == 1 {
            assert(d.take(1) =~= seq![s.batch]);
        } else if i == 2 {
            assert(d.take(2) =~= seq![s.batch, s.topk]);
        } else {
            assert(d.take(3) =~= d);
        }
    }
}

/// A layer whose input rows are quantized ahead runs the steps of the same layer over F32 rows
/// that follow the quantization.
pub proof fn law_moe_prequantized(
    s: MoeShape,
    w_dtype: GgmlDType,
    len: usize,
    buf: MoeBuffers,
    env: MoeEnv,
)
    requires
        s.fits(),
    ensures
        moe_steps(s, w_dtype, MoeInput::F32 { len }, buf, env) == quantize_steps(
            Kernel::QuantizeQ8_1,
            s.k,
            s.total_rows() as usize,
        ) + moe_steps(
            s,
            w_dtype,
            MoeInput::Q8_1 { len: s.input_bytes() as usize },
            buf,
            env,
        ),
        moe_refusal(s, w_dtype, MoeInput::F32 { len }, env) == moe_refusal(
            s,
            w_dtype,
            MoeInput::Q8_1 { len: s.input_bytes() as usize },
            env,
        ),
{
    lemma_row_bytes(s.k as int);
    assert(s.input_bytes() >= 0) by (nonlinear_arith)
        requires
            s.input_bytes() == s.batch * s.input_dim1 * s.row_bytes(),
            s.row_bytes() >= 0,
    ;
    let f32_in = MoeInput::F32 { len };
    let q8_in = MoeInput::Q8_1 { len: s.input_bytes() as usize };
    let tier = moe_tier_spec(w_dtype, s.total_tasks(), env);
    match moe_layer_kernel(s, w_dtype, env) {
        Some((kernel, warp_rows)) => {
            let cfg = moe_config_spec(tier, w_dtype, warp_rows, s.grid(), env);
            let split = moe_split_spec(tier, s);
            assert(moe_launches(kernel, cfg, s, split, f32_in, buf) =~= moe_launches(
                kernel,
                cfg,
                s,
                split,
                q8_in,
                buf,
            ));
        },
        None => {},
    }
    assert(moe_steps(s, w_dtype, f32_in, buf, env) =~= quantize_steps(
        Kernel::QuantizeQ8_1,
        s.k,
        s.total_rows() as usize,
    ) + moe_steps(s, w_dtype, q8_in, buf, env));
}

/// The sizes of a layer in terms of its dimensions: a task for each token and each of its experts,
/// `n` output elements for each task, and for each input row 36 bytes for 32 elements of the row
/// padded to a multiple of 512.
pub proof fn law_moe_sizes(s: MoeShape)
    ensures
        s.total_tasks() == s.batch * s.topk,
        s.total_rows() == s.batch * s.input_dim1,
        s.out_elems() == s.batch * s.topk * s.n,
        padded_row(s.k as int) % 512 == 0,
        s.k <= padded_row(s.k as int) < s.k + 512,
        s.input_bytes() * 32 == s.batch * s.input_dim1 * (padded_row(s.k as int) * 36),
{
    lemma_row_bytes(s.k as int);
    law_padding(s.k as int, 512);
    let rows = s.total_rows();
    let row = s.row_bytes();
    let p = padded_row(s.k as int);
    assert(rows * row * 32 == rows * (p * 36)) by (nonlinear_arith)
        requires
            row * 32 == p * 36,
    ;
}

/// A layer is taken whole unless its tier lists tasks in shared memory and has more than 1024 of
/// them. It is then split if there is a place to cut, between tokens whose tasks fit the list or
/// between tasks, and refused if not.
pub proof fn law_moe_split_by_tasks(tier: MoeTier, s: MoeShape)
    ensures
        ({
            let lists = tier is Mma || tier is Tiled;
            let over = lists && s.batch * s.topk > 1024;
            let cuttable = s.input_dim1 == 1 && s.topk <= 1024 || s.input_dim1 == s.topk;
            &&& moe_split_spec(tier, s) is Whole <==> !over
            &&& moe_split_spec(tier, s) is Chunked <==> over && cuttable
            &&& moe_split_spec(tier, s) is Refused <==> over && !cuttable
        }),
{
}

/// The arguments of an expert launch.
pub open spec fn moe_args(step: Step) -> KernelArgs {
    match step {
        Step::Launch { args, .. } => args,
        _ => arbitrary(),
    }
}

/// Every launch of a layer tells its kernel the sizes of the layer: `n` output columns, `k` inner
/// columns, and `k` rounded up to a multiple of 512. A layer that is taken whole is described by
/// its own tokens, tasks and input rows, and handed its buffers from their start. The launches of a
/// split layer differ from that in the tokens alone: each is handed an index for each of its tasks,
/// `n` output elements for each task and one quantized row for each of its tokens. Its output
/// begins `n` elements into the buffer for each task before it, and its input a row for each token
/// before it. The first launch begins with the first task, each further one where the one before it
/// ends, the last one ends with the last task, and none but the last could take a token more.
pub proof fn law_moe_launch_describes_layer(
    kernel: Kernel,
    cfg: LaunchConfig,
    tier: MoeTier,
    s: MoeShape,
    input: MoeInput,
    buf: MoeBuffers,
    i: int,
)
    requires
        s.fits(),
        s.n <= i32::MAX,
        s.k <= i32::MAX - 511,
        s.batch <= i32::MAX,
        s.topk <= i32::MAX,
        s.input_dim1 <= i32::MAX,
        0 <= i < moe_launches(kernel, cfg, s, moe_split_spec(tier, s), input, buf).len(),
    ensures
        ({
            let launches = moe_launches(kernel, cfg, s, moe_split_spec(tier, s), input, buf);
            &&& launches[i] is Launch
            &&& launches[i]->Launch_kernel == kernel
            &&& launches[i]->cfg == cfg
            &&& match moe_args(launches[i]) {
                KernelArgs::Moe {
                    input: rows,
                    ids,
                    out,
                    n,
                    k,
                    batch,
                    topk,
                    k_padded,
                    input_dim1,
                } => {
                    &&& n == s.n
                    &&& k == s.k
                    &&& k_padded % 512 == 0
                    &&& s.k <= k_padded < s.k + 512
                    &&& if moe_split_spec(tier, s) is Whole {
                        &&& launches.len() == 1
                        &&& batch == s.batch
                        &&& topk == s.topk
                        &&& input_dim1 == s.input_dim1
                        &&& ids == (Span { start: 0, len: buf.ids_len })
                        &&& out == (Span { start: 0, len: buf.out_capacity })
                        &&& rows.start == 0
                        &&& match input {
                            MoeInput::Q8_1 { len } => rows.len == len,
                            _ => rows.len * 32 == batch * input_dim1 * (k_padded * 36),
                        }
                    } else {
                        &&& input_dim1 == 1
                        &&& topk == if s.input_dim1 == 1 {
                            s.topk
                        } else {
                            1
                        }
                        &&& ids.len == batch * topk
                        &&& out.len == batch * topk * n
                        &&& rows.len * 32 == batch * input_dim1 * (k_padded * 36)
                        &&& out.start == ids.start * n
                        &&& rows.start * 32 * topk == ids.start * (k_padded * 36)
                        &&& 0 < batch
                        &&& batch * topk <= 1024
                        &&& i == 0 ==> ids.start == 0
                        &&& i + 1 == launches.len() ==> ids.start + ids.len == s.batch * s.topk
                        &&& i + 1 < launches.len() ==> {
                            &&& (batch + 1) * topk > 1024
                            &&& moe_args(launches[i + 1])->Moe_ids.start == ids.start + ids.len
                        }
                    }
                },
                _ => false,
            }
        }),
{
    let split = moe_split_spec(tier, s);
    let launches = moe_launches(kernel, cfg, s, split, input, buf);
    law_moe_sizes(s);
    lemma_row_bytes(s.k as int);
    let row = s.row_bytes();
    let p = padded_row(s.k as int);
    match split {
        MoeSplit::Chunked { units, per_unit, chunk } => {
            lemma_split_fits(tier, s);
            let (u, q, c) = (units as int, per_unit as int, chunk as int);
            lemma_run(u, c, i);
            assert(u * q * s.n == u * (q * s.n)) by (nonlinear_arith);
            assert(q > 0) by (nonlinear_arith)
                requires
                    u * q > 0,
                    q >= 0,
            ;
            assert(q * s.n >= 0) by (nonlinear_arith)
                requires
                    q >= 0,
            ;
            lemma_run_span(u, c, row, i);
            lemma_run_span(u, c, q, i);
            lemma_run_span(u, c, q * s.n, i);
            let len = run_units(u, c, i);
            let first = i * c;
            assert(c * q <= 1024 && (c + 1) * q > 1024 && c <= 1024) by {
                if s.input_dim1 == 1 {
                    lemma_fundamental_div_mod(1024, q);
                    assert(c * q == q * c) by (nonlinear_arith);
                    assert((c + 1) * q == q * c + q) by (nonlinear_arith);
                    assert(c <= 1024) by (nonlinear_arith)
                        requires
                            c * q <= 1024,
                            q >= 1,
                            c >= 0,
                    ;
                } else {
                    assert(c * 1 == c);
                }
            }
            assert(len * q <= c * q) by (nonlinear_arith)
                requires
                    len <= c,
                    q >= 0,
            ;
            assert(len * (q * s.n) == len * q * s.n) by (nonlinear_arith);
            assert(first * (q * s.n) == first * q * s.n) by (nonlinear_arith);
            assert(len * row * 32 == len * 1 * (p * 36)) by (nonlinear_arith)
                requires
                    row * 32 == p * 36,
            ;
            assert(first * row * 32 * q == first * q * (p * 36)) by (nonlinear_arith)
                requires
                    row * 32 == p * 36,
            ;
            assert(launches[i] == moe_run_launch(kernel, cfg, s, u, q, c, i));
            if i == 0 {
                assert(0 * c * q == 0);
            }
            if i + 1 < launches.len() {
                assert(launches[i + 1] == moe_run_launch(kernel, cfg, s, u, q, c, i + 1));
                lemma_run(u, c, i + 1);
                lemma_run_span(u, c, q, i + 1);
            }
        },
        _ => {},
    }
}

/// A launch of a split layer carries the sizes of the launch that would take the layer whole.
pub proof fn law_moe_split_keeps_sizes(
    kernel: Kernel,
    cfg: LaunchConfig,
    tier: MoeTier,
    s: MoeShape,
    input: MoeInput,
    buf: MoeBuffers,
    i: int,
)
    requires
        0 <= i < moe_launches(kernel, cfg, s, moe_split_spec(tier, s), input, buf).len(),
    ensures
        ({
            let whole = moe_launches(kernel, cfg, s, MoeSplit::Whole, input, buf);
            let split = moe_launches(kernel, cfg, s, moe_split_spec(tier, s), input, buf);
            &&& whole.len() == 1
            &&& match (moe_args(whole[0]), moe_args(split[i])) {
                (
                    KernelArgs::Moe { n, k, k_padded, .. },
                    KernelArgs::Moe { n: n_i, k: k_i, k_padded: k_padded_i, .. },
                ) => n_i == n && k_i == k && k_padded_i == k_padded,
                _ => false,
            }
            &&& split[i]->Launch_kernel == whole[0]->Launch_kernel
            &&& split[i]->cfg == whole[0]->cfg
        }),
{
}

/// What a layer asks of the device, in order: the quantization of its rows from the type that they
/// have, unless they are quantized already, then the kernel, the checksums where they are asked
/// for, and the launches.
pub proof fn law_moe_steps_in_order(
    s: MoeShape,
    w_dtype: GgmlDType,
    input: MoeInput,
    buf: MoeBuffers,
    env: MoeEnv,
)
    requires
        s.fits(),
        moe_refusal(s, w_dtype, input, env) is None,
    ensures
        ({
            let tier = moe_tier_spec(w_dtype, s.batch * s.topk, env);
            let (kernel, warp_rows) = moe_layer_kernel(s, w_dtype, env)->0;
            let rows = (s.batch * s.input_dim1) as usize;
            let quantized = match input {
                MoeInput::F32 { .. } => quantize_steps(Kernel::QuantizeQ8_1, s.k, rows),
                MoeInput::Bf16 { .. } => quantize_steps(Kernel::QuantizeQ8_1Bf16, s.k, rows),
                MoeInput::Q8_1 { .. } => Seq::empty(),
            };
            let grid = MoeGrid {
                n: s.n,
                num_experts: s.num_experts,
                batch: s.batch,
                topk: s.topk,
            };
            let launches = moe_launches(
                kernel,
                moe_config_spec(tier, w_dtype, warp_rows, grid, env),
                s,
                moe_split_spec(tier, s),
                input,
                buf,
            );
            &&& launches.len() > 0
            &&& moe_steps(s, w_dtype, input, buf, env) == quantized + seq![Step::Load { kernel }]
                + moe_checksum_steps(tier, s, buf, env) + launches
        }),
{
    let tier = moe_tier_spec(w_dtype, s.batch * s.topk, env);
    let (kernel, warp_rows) = moe_layer_kernel(s, w_dtype, env)->0;
    let launches = moe_launches(
        kernel,
        moe_config_spec(tier, w_dtype, warp_rows, s.grid(), env),
        s,
        moe_split_spec(tier, s),
        input,
        buf,
    );
    if moe_split_spec(tier, s) is Chunked {
        lemma_split_fits(tier, s);
        law_moe_runs_tile(tier, s);
    }
    assert(moe_steps(s, w_dtype, input, buf, env) =~= moe_quantize_steps(s, input) + seq![
        Step::Load { kernel },
    ] + moe_checksum_steps(tier, s, buf, env) + launches);
}

/// A layer is refused exactly where its quantized input is too short, its format has no kernel, the
/// tensor-core tile does not fit it, or its tasks overflow the list with no place to cut. The
/// refusals are looked at in this order.
pub proof fn law_moe_refusals(s: MoeShape, w_dtype: GgmlDType, input: MoeInput, env: MoeEnv)
    ensures
        ({
            let tier = moe_tier_spec(w_dtype, s.batch * s.topk, env);
            let short = match input {
                MoeInput::Q8_1 { len } => len < s.input_bytes(),
                _ => false,
            };
            let kernels = w_dtype is Q8_0 || w_dtype is Q2K || w_dtype is Q3K || w_dtype is Q4K
                || w_dtype is Q5K || w_dtype is Q6K;
            let refusal = moe_refusal(s, w_dtype, input, env);
            &&& short <==> refusal is Some && refusal->0 is MoeInputBytes
            &&& !short && !kernels <==> refusal is Some && refusal->0 is UnsupportedMoe
            &&& !short && tier is Mma && s.k % 256 != 0 <==> refusal is Some
                && refusal->0 is MmaInner
            &&& !short && tier is Mma && s.k % 256 == 0 && s.n == 0 <==> refusal is Some
                && refusal->0 is MmaRows
            &&& refusal is Some ==> match refusal->0 {
                ErrorOf::MoeInputBytes { have, need } => match input {
                    MoeInput::Q8_1 { len } => have == len && need == s.input_bytes() as usize,
                    _ => false,
                },
                ErrorOf::UnsupportedMoe { dtype } => dtype == w_dtype,
                ErrorOf::MmaInner { k } => k == s.k,
                ErrorOf::MmaRows => true,
                ErrorOf::MoeUnchunkable { total_tasks, input_dim1, topk } => {
                    &&& total_tasks == (s.batch * s.topk) as usize
                    &&& input_dim1 == s.input_dim1
                    &&& topk == s.topk
                },
                _ => false,
            }
            &&& refusal is None <==> {
                &&& !short
                &&& kernels
                &&& tier is Mma ==> s.k % 256 == 0 && s.n > 0
                &&& (tier is Mma || tier is Tiled) && s.batch * s.topk > 1024 ==> s.input_dim1
                    == s.topk || s.input_dim1 == 1 && s.topk <= 1024
            }
        }),
{
    law_moe_tier_conditions(w_dtype, s.batch * s.topk, env);
}

/// The kernel of a layer is one for the format of its weights, and each warp of the task-major
/// kernels computes a row of its own where a row is short: up to eight blocks of 256 columns, or
/// four in the larger formats.
pub proof fn law_moe_kernel_serves_format(s: MoeShape, w_dtype: GgmlDType, env: MoeEnv)
    ensures
        ({
            let tier = moe_tier_spec(w_dtype, s.batch * s.topk, env);
            let tall = setting_text(env.geom) == Some("y64"@);
            match moe_layer_kernel(s, w_dtype, env) {
                Some((kernel, warp_rows)) => match kernel {
                    Kernel::MoeMma => tier is Mma && w_dtype is Q4K && !warp_rows,
                    Kernel::MoeTiled { dtype, y64 } => {
                        &&& tier is Tiled
                        &&& dtype == w_dtype
                        &&& !warp_rows
                        &&& y64 <==> tall && !(w_dtype is Q6K)
                    },
                    Kernel::MoeGrouped => tier is Grouped && w_dtype is Q8_0 && warp_rows,
                    Kernel::MoeTask { dtype, warp_rows: rows } => {
                        &&& tier is TaskMajor
                        &&& dtype == w_dtype
                        &&& rows == warp_rows
                        &&& warp_rows <==> w_dtype is Q4K && s.k < 2304 || (w_dtype is Q5K
                            || w_dtype is Q6K) && s.k < 1280
                    },
                    _ => false,
                },
                None => !(w_dtype is Q8_0 || w_dtype is Q2K || w_dtype is Q3K || w_dtype is Q4K
                    || w_dtype is Q5K || w_dtype is Q6K),
            }
        }),
{
    law_moe_tier_conditions(w_dtype, s.batch * s.topk, env);
}

/// The checksums are taken over all of the weights, the quantized input and the indices, ahead of a
/// tensor-core launch and only where they are asked for.
pub proof fn law_moe_checksum_describes_operands(
    tier: MoeTier,
    s: MoeShape,
    buf: MoeBuffers,
    env: MoeEnv,
)
    requires
        s.fits(),
        s.input_bytes() <= u32::MAX,
        buf.weight_len <= u32::MAX,
        buf.ids_len <= u32::MAX,
    ensures
        ({
            let steps = moe_checksum_steps(tier, s, buf, env);
            &&& steps.len() > 0 <==> tier is Mma && env.checksum@.len() > 0
            &&& steps.len() > 0 ==> {
                &&& steps.len() == 4
                &&& steps[0] == (Step::Load { kernel: Kernel::MoeChecksum })
                &&& steps[1] is AllocChecksum
                &&& steps[2]->Launch_kernel is MoeChecksum
                &&& steps[2]->cfg.grid_dim == (256u32, 1u32, 1u32)
                &&& steps[2]->cfg.block_dim == (256u32, 1u32, 1u32)
                &&& match moe_args(steps[2]) {
                    KernelArgs::MoeChecksum { weight_len, input, input_len, ids_len } => {
                        &&& weight_len == buf.weight_len
                        &&& input.start == 0
                        &&& input.len == s.input_bytes()
                        &&& input_len == s.input_bytes()
                        &&& ids_len == buf.ids_len
                    },
                    _ => false,
                }
                &&& steps[3] is ReportChecksum
            }
        }),
{
    reveal_strlit("");
    if env.checksum@.len() == 0 {
        assert(env.checksum@ =~= ""@);
    }
    lemma_row_bytes(s.k as int);
    assert(s.input_bytes() >= 0) by (nonlinear_arith)
        requires
            s.input_bytes() == s.batch * s.input_dim1 * s.row_bytes(),
            s.row_bytes() >= 0,
    ;
}

/// Layers of ordinary size fit: where the quantized input, with room for padding, and the output stay
/// within what the machine addresses, so do all sizes of the layer.
pub proof fn law_ordinary_layer_fits(s: MoeShape)
    requires
        (s.batch * s.input_dim1 + 1) * (s.k + 512) * 36 <= usize::MAX,
        s.batch * s.topk <= usize::MAX,
        s.batch * s.topk * s.n <= usize::MAX,
    ensures
        s.fits(),
{
    let rows = s.batch * s.input_dim1;
    assert(rows >= 0) by (nonlinear_arith)
        requires
            rows == s.batch * s.input_dim1,
    ;
    law_ordinary_rows_fit(s.k as int, rows);
    assert(rows <= (rows + 1) * (s.k + 512) * 36) by (nonlinear_arith)
        requires
            rows >= 0,
            s.k >= 0,
    ;
}

/// The output has the dimensions of the input but for two: the tasks of a token in place of its
/// rows, and `n` columns. Where these stand for another number of elements than the layer puts out,
/// it fails with both.
pub proof fn law_moe_out_dims(
    s: MoeShape,
    w_dtype: GgmlDType,
    input: MoeInput,
    in_dims: Seq<usize>,
    env: MoeEnv,
    i: int,
)
    requires
        s.fits(),
        in_dims.len() >= 3,
    ensures
        ({
            let out = moe_out_dims(in_dims, s);
            let outcome = moe_outcome(s, w_dtype, input, in_dims, env);
            &&& out.len() == in_dims.len()
            &&& out[1] == s.topk
            &&& out.last() == s.n
            &&& 0 <= i < in_dims.len() - 1 && i != 1 ==> out[i] == in_dims[i]
            &&& moe_refusal(s, w_dtype, input, env) is Some ==> outcome == Err::<
                Seq<usize>,
                ErrorOf<Seq<usize>>,
            >(moe_refusal(s, w_dtype, input, env)->0)
            &&& moe_refusal(s, w_dtype, input, env) is None ==> match outcome {
                Ok(dims) => dims == out && dims_product(out) == s.batch * s.topk * s.n,
                Err(e) => dims_product(out) != s.batch * s.topk * s.n && e == (ErrorOf::<
                    Seq<usize>,
                >::Reshape { elems: (s.batch * s.topk * s.n) as usize, shape: out }),
            }
        }),
{
}

/// The workspace that a layer asks for is what its launches need: with buffers of that size, and an
/// index for each task, no launch reaches past them, and the launches of a split layer use them up
/// to the last element and byte.
pub proof fn law_moe_demand_suffices(
    kernel: Kernel,
    cfg: LaunchConfig,
    tier: MoeTier,
    s: MoeShape,
    input: MoeInput,
    buf: MoeBuffers,
    i: int,
)
    requires
        s.fits(),
        !(input is Q8_1),
        buf.ids_len == s.batch * s.topk,
        ({
            let (out_elems, _) = workspace_demand(s);
            buf.out_capacity == out_elems
        }),
        0 <= i < moe_launches(kernel, cfg, s, moe_split_spec(tier, s), input, buf).len(),
    ensures
        ({
            let (out_elems, input_bytes) = workspace_demand(s);
            let launches = moe_launches(kernel, cfg, s, moe_split_spec(tier, s), input, buf);
            &&& out_elems == s.batch * s.topk * s.n
            &&& input_bytes * 32 == s.batch * s.input_dim1 * (padded_row(s.k as int) * 36)
            &&& match moe_args(launches[i]) {
                KernelArgs::Moe { input: rows, out, .. } => {
                    &&& span_within(out, out_elems)
                    &&& span_within(rows, input_bytes)
                    &&& i + 1 == launches.len() ==> out.start + out.len == out_elems && rows.start
                        + rows.len == input_bytes
                },
                _ => false,
            }
        }),
{
    law_moe_sizes(s);
    law_moe_launch_within_buffers(kernel, cfg, tier, s, input, buf, i);
    lemma_row_bytes(s.k as int);
    match moe_split_spec(tier, s) {
        MoeSplit::Chunked { units, per_unit, chunk } => {
            lemma_split_fits(tier, s);
            let (u, p, c) = (units as int, per_unit as int, chunk as int);
            let launches = moe_launches(kernel, cfg, s, moe_split_spec(tier, s), input, buf);
            assert(launches[i] == moe_run_launch(kernel, cfg, s, u, p, c, i));
            assert(u * p * s.n == u * (p * s.n)) by (nonlinear_arith);
            assert(p * s.n >= 0) by (nonlinear_arith)
                requires
                    p >= 0,
            ;
            lemma_run(u, c, i);
            lemma_run_span(u, c, s.row_bytes(), i);
            lemma_run_span(u, c, p * s.n, i);
        },
        _ => {
            assert(s.input_bytes() >= 0) by (nonlinear_arith)
                requires
                    s.input_bytes() == s.batch * s.input_dim1 * s.row_bytes(),
                    s.row_bytes() >= 0,
            ;
        },
    }
}

} // verus!
