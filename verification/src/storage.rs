//! Quantized weights on a device, and the operations on them.

use crate::arith::ceil_div;
use crate::arith::ceil_quot;
use crate::arith::lemma_ceil_quot;
use crate::dequantize::dequantize_f16;
use crate::dequantize::dequantize_f32;
use crate::dequantize::dequantize_outcome;
use crate::dequantize::dequantize_steps;
use crate::device_id::DeviceId;
use crate::dtype::blocks_for_elems;
use crate::dtype::blocks_of_elems;
use crate::dtype::bytes_of_blocks;
use crate::dtype::lemma_block_counts;
use crate::dtype::DType;
use crate::dtype::GgmlDType;
use crate::error::result_dims;
use crate::error::result_unit;
use crate::error::Error;
use crate::error::ErrorOf;
use crate::error::Op;
use crate::launch::Kernel;
use crate::launch::KernelArgs;
use crate::launch::Program;
use crate::launch::Span;
use crate::launch::Step;
use crate::launch::MATRIX_ROW_PADDING;
use crate::matmul::checked_data_elems;
use crate::matmul::data_elems_spec;
use crate::matmul::dequantize_mul_mat_vec;
use crate::matmul::dmmv_refusal;
use crate::matmul::dmmv_steps;
use crate::matmul::law_dmmv_describes_operands;
use crate::matmul::law_mm_describes_operands;
use crate::matmul::law_mmv_describes_operands;
use crate::matmul::law_ordinary_rows_fit;
use crate::matmul::matmul_takes;
use crate::matmul::matmul_takes_spec;
use crate::matmul::mm_refusal;
use crate::matmul::mm_steps;
use crate::matmul::mmv_refusal;
use crate::matmul::mmv_steps;
use crate::matmul::mul_mat_vec_via_q8_1;
use crate::matmul::mul_mat_via_q8_1;
use crate::matmul::q8_1_outcome;
use crate::matmul::refused_or_done;
use crate::matmul::scratch_fits;
use crate::matmul::scratch_sizes_fit;
use crate::moe::moe_shape;
use crate::moe::MoeInput;
use crate::moe::MoeShape;
use crate::shape::copy_dims;
use crate::shape::dims2;
use crate::shape::dims_product;
use crate::shape::lemma_dims_product3;
use crate::shape::rank_error;
use crate::shape::replace_last;
use crate::shape::with_last;
use vstd::arithmetic::div_mod::lemma_fundamental_div_mod_converse;
use vstd::prelude::*;

verus! {

/// Whether products go through kernels that unpack the weights instead of quantizing the input.
#[derive(Clone, Copy, Debug, PartialEq, Eq, Structural)]
pub struct DmmvMode {
    pub force: bool,
}

impl DmmvMode {
    /// The mode before any choice: the input is quantized.
    pub fn new() -> (r: DmmvMode)
        ensures
            !r.force,
    {
        DmmvMode { force: false }
    }
}

/// The mode after the choice `f`.
pub open spec fn mode_after(mode: DmmvMode, f: bool) -> DmmvMode {
    DmmvMode { force: f, ..mode }
}

/// Chooses whether products go through kernels that unpack the weights.
pub fn set_force_dmmv(mode: &mut DmmvMode, f: bool)
    ensures
        *final(mode) == mode_after(*old(mode), f),
{
    mode.force = f;
}

/// A device buffer of `inner_len` bytes whose first `len` bytes are data and whose rest is padding
/// that kernels may read.
#[derive(Clone, Copy, Debug, PartialEq, Eq, Structural)]
pub struct PaddedCudaSlice {
    pub inner_len: usize,
    pub len: usize,
}

/// Quantized weights on a device.
#[derive(Clone, Copy, Debug, PartialEq, Eq, Structural)]
pub struct QCudaStorage {
    pub data: PaddedCudaSlice,
    pub dtype: GgmlDType,
    pub device: DeviceId,
}

/// Bytes of padding behind quantized data: one padded row's worth.
pub open spec fn padding_bytes(dtype: GgmlDType) -> int {
    bytes_of_blocks(blocks_of_elems(512, dtype), dtype)
}

/// Bytes that `el_count` elements take.
pub open spec fn elems_bytes(el_count: int, dtype: GgmlDType) -> int {
    bytes_of_blocks(blocks_for_elems(el_count, dtype), dtype)
}

/// Weights whose buffer is still to be made.
#[derive(Clone, Copy, Debug, PartialEq, Eq, Structural)]
pub struct NewWeights {
    /// The weights once the buffer is there.
    pub weights: QCudaStorage,
    /// Bytes of the buffer to allocate.
    pub bytes: usize,
    /// The buffer has to be allocated with zeros.
    pub zeroed: bool,
    /// The part of the buffer that host bytes are copied to afterwards.
    pub copied: Span,
}

/// Weights of `el_count` elements, all bits zero, in a buffer with room for one more padded row.
pub open spec fn zeros_plan(device: DeviceId, el_count: usize, dtype: GgmlDType) -> NewWeights {
    let len = elems_bytes(el_count as int, dtype) as usize;
    let inner_len = elems_bytes(el_count + MATRIX_ROW_PADDING, dtype) as usize;
    NewWeights {
        weights: QCudaStorage { data: PaddedCudaSlice { inner_len, len }, dtype, device },
        bytes: inner_len,
        zeroed: true,
        copied: Span { start: 0, len: 0 },
    }
}

/// Weights of `data_len` bytes that the host has, in a buffer with padding.
pub open spec fn load_plan(device: DeviceId, dtype: GgmlDType, data_len: usize) -> NewWeights {
    let inner_len = (data_len + padding_bytes(dtype)) as usize;
    NewWeights {
        weights: QCudaStorage { data: PaddedCudaSlice { inner_len, len: data_len }, dtype, device },
        bytes: inner_len,
        zeroed: true,
        copied: Span { start: 0, len: data_len },
    }
}

/// What the buffer of new weights holds once `data` has been copied, where it was made of zeros.
pub open spec fn filled(plan: NewWeights, data: Seq<u8>) -> Seq<u8> {
    Seq::new(
        plan.bytes as nat,
        |i: int|
            if plan.copied.start <= i < plan.copied.start + plan.copied.len {
                data[i - plan.copied.start]
            } else {
                0u8
            },
    )
}

/// The weights of `el_count` elements, and the padded row behind them, fit the machine.
pub open spec fn zeros_fits(el_count: int, dtype: GgmlDType) -> bool {
    el_count + MATRIX_ROW_PADDING <= usize::MAX && elems_bytes(
        el_count + MATRIX_ROW_PADDING,
        dtype,
    ) <= usize::MAX
}

/// How elements become blocks.
#[derive(Clone, Copy, Debug, PartialEq, Eq, Structural)]
pub enum Encoding {
    /// All elements count alike.
    Plain,
    /// Each column of a row of `n_per_row` elements has its own importance.
    Importance { n_per_row: usize },
}

/// What is quantized, and how.
#[derive(Clone, Copy, Debug, PartialEq, Eq, Structural)]
pub struct QuantizeJob {
    /// The elements are on the device; otherwise the host has them.
    pub on_device: bool,
    pub encoding: Encoding,
}

/// What happened last while weights are quantized.
#[derive(Clone, Copy, Debug, PartialEq, Eq, Structural)]
pub enum QuantizeEvent {
    /// A tensor of `elems` elements of type `src` is to be quantized.
    Start { src: DType, elems: usize },
    /// The `elems` elements have been read back to the host, or could not be.
    Fetched { elems: usize, ok: bool },
    /// The elements have become blocks of this many bytes, or could not.
    Encoded { made: Option<usize> },
    /// The buffer for `bytes` bytes of blocks has been allocated, or could not be.
    Allocated { bytes: usize, ok: bool },
    /// The `bytes` bytes of blocks have been copied to the new buffer, or could not be.
    Copied { bytes: usize, ok: bool },
}

/// What has to happen next while weights are quantized.
#[derive(Clone, Copy, Debug, PartialEq, Eq, Structural)]
pub enum QuantizeAction {
    /// Read the elements back to the host.
    Fetch { elems: usize },
    /// Turn the elements into blocks on the host.
    Encode { dtype: GgmlDType, elems: usize, encoding: Encoding },
    /// Allocate a new buffer.
    AllocBuffer { bytes: usize, zeroed: bool },
    /// Copy the blocks to this part of the new buffer.
    Copy { dst: Span },
    /// The new buffer takes the place of the former one.
    Done,
    /// The step that failed ends the operation, and the former buffer stays.
    Fail,
}

/// Only F32 is quantized: what another type is refused with depends on where the tensor is.
pub open spec fn quantize_refusal(src: DType, on_device: bool) -> Option<ErrorOf<Seq<usize>>> {
    if src is F32 {
        None
    } else if on_device {
        Some(ErrorOf::OnlyF32)
    } else {
        Some(ErrorOf::UnexpectedDType { expected: DType::F32, got: src })
    }
}

/// The blocks that have been made fit the machine with their padding.
pub open spec fn quantize_takes(dtype: GgmlDType, event: QuantizeEvent) -> bool {
    match event {
        QuantizeEvent::Encoded { made: Some(bytes) } => bytes + padding_bytes(dtype) <= usize::MAX,
        QuantizeEvent::Copied { bytes, ok: true } => bytes + padding_bytes(dtype) <= usize::MAX,
        _ => true,
    }
}

/// The weights with `bytes` bytes of blocks in a new padded buffer.
pub open spec fn installed(s: QCudaStorage, bytes: usize) -> QCudaStorage {
    QCudaStorage {
        data: PaddedCudaSlice {
            inner_len: (bytes + padding_bytes(s.dtype)) as usize,
            len: bytes,
        },
        ..s
    }
}

/// The weights after an event. The last step alone changes them.
pub open spec fn quantize_after(s: QCudaStorage, event: QuantizeEvent) -> QCudaStorage {
    match event {
        QuantizeEvent::Copied { bytes, ok: true } => installed(s, bytes),
        _ => s,
    }
}

/// What has to happen after an event.
pub open spec fn quantize_action(
    dtype: GgmlDType,
    job: QuantizeJob,
    event: QuantizeEvent,
) -> Result<QuantizeAction, ErrorOf<Seq<usize>>> {
    match event {
        QuantizeEvent::Start { src, elems } => match quantize_refusal(src, job.on_device) {
            Some(e) => Err(e),
            None => if job.on_device {
                Ok(QuantizeAction::Fetch { elems })
            } else {
                Ok(QuantizeAction::Encode { dtype, elems, encoding: job.encoding })
            },
        },
        QuantizeEvent::Fetched { elems, ok } => if ok {
            Ok(QuantizeAction::Encode { dtype, elems, encoding: job.encoding })
        } else {
            Ok(QuantizeAction::Fail)
        },
        QuantizeEvent::Encoded { made } => match made {
            Some(bytes) => Ok(
                QuantizeAction::AllocBuffer {
                    bytes: (bytes + padding_bytes(dtype)) as usize,
                    zeroed: false,
                },
            ),
            None => Ok(QuantizeAction::Fail),
        },
        QuantizeEvent::Allocated { bytes, ok } => if ok {
            Ok(QuantizeAction::Copy { dst: Span { start: 0, len: bytes } })
        } else {
            Ok(QuantizeAction::Fail)
        },
        QuantizeEvent::Copied { ok, .. } => if ok {
            Ok(QuantizeAction::Done)
        } else {
            Ok(QuantizeAction::Fail)
        },
    }
}

/// A failed or succeeded step of quantizing, as a mathematical value.
pub open spec fn result_quantize(r: Result<QuantizeAction, Error>) -> Result<
    QuantizeAction,
    ErrorOf<Seq<usize>>,
> {
    match r {
        Ok(a) => Ok(a),
        Err(e) => Err(e@),
    }
}

/// The weights after several events, in order.
pub open spec fn quantize_after_all(s: QCudaStorage, events: Seq<QuantizeEvent>) -> QCudaStorage
    decreases events.len(),
{
    if events.len() == 0 {
        s
    } else {
        quantize_after(quantize_after_all(s, events.drop_last()), events.last())
    }
}

/// How quantized weights become F32.
#[derive(Debug)]
pub enum DequantizePlan {
    /// By a kernel.
    Kernel { program: Program<()> },
    /// On the host: read the first `bytes` bytes back, decode `blocks` blocks, and upload the
    /// outcome, which is `elems` elements of F32.
    Host { bytes: usize, blocks: usize, elems: usize },
}

/// The formats that a kernel turns into F32.
pub open spec fn fast_kernel(dtype: GgmlDType) -> bool {
    dequantize_outcome(dtype) is Ok
}

/// The shape of an input, and the part of its buffer that holds it where that part has no gaps.
#[derive(Debug)]
pub struct Layout {
    pub dims: Vec<usize>,
    pub contiguous: Option<(usize, usize)>,
}

/// A product of dense matrices: `b` times `m` by `k` with `k` by `n`, the right operand read with
/// the given dimensions and strides.
#[derive(Debug)]
pub struct DenseMatmul {
    pub bmnk: (usize, usize, usize, usize),
    pub rhs_dims: [usize; 3],
    pub rhs_stride: [usize; 3],
}

/// How a product with quantized weights is computed.
#[derive(Debug)]
pub enum FwdPlan {
    /// By kernels over the part `rhs` of the input.
    Quantized { rhs: Span, program: Program<Vec<usize>> },
    /// By turning the weights into F32 first, then multiplying dense matrices.
    Dense { weights: DequantizePlan, matmul: DenseMatmul, out_dims: Vec<usize> },
    /// Not at all.
    Refused { error: Error },
}

/// An expert layer that is ready for its workspace.
#[derive(Clone, Copy, Debug, PartialEq, Eq, Structural)]
pub struct MoeCall {
    pub shape: MoeShape,
    pub input: MoeInput,
    pub weight_len: usize,
}

/// What an operation ends in that returns `dims` once it is done.
pub open spec fn done_with(r: Result<(), ErrorOf<Seq<usize>>>, dims: Seq<usize>) -> Result<
    Seq<usize>,
    ErrorOf<Seq<usize>>,
> {
    match r {
        Ok(_) => Ok(dims),
        Err(e) => Err(e),
    }
}

fn attach(program: Program<()>, dims: Vec<usize>) -> (r: Program<Vec<usize>>)
    ensures
        r.steps@ == program.steps@,
        result_dims(r.outcome) == done_with(result_unit(program.outcome), dims@),
{
    Program {
        steps: program.steps,
        outcome: match program.outcome {
            Ok(_) => Ok(dims),
            Err(e) => Err(e),
        },
    }
}

/// An input of rank two or three.
pub open spec fn rank_fits(dims: Seq<usize>) -> bool {
    dims.len() == 2 || dims.len() == 3
}

/// The number of vectors in an input of rank two or three.
pub open spec fn vec_count(dims: Seq<usize>) -> int {
    if dims.len() == 3 {
        dims[0] * dims[1]
    } else {
        dims[0] as int
    }
}

/// Why a product is refused by the vector route ahead of the kernels, if it is.
pub open spec fn vec_front_refusal(
    self_dims: Seq<usize>,
    rhs_dtype: DType,
    dims: Seq<usize>,
    contiguous: Option<(usize, usize)>,
) -> Option<ErrorOf<Seq<usize>>> {
    if self_dims.len() != 2 {
        Some(rank_error(2, self_dims))
    } else if !(rhs_dtype is F32) {
        Some(ErrorOf::UnexpectedDType { expected: DType::F32, got: rhs_dtype })
    } else if contiguous is None {
        Some(ErrorOf::RequiresContiguous { op: Op::Dmmv })
    } else if !rank_fits(dims) {
        Some(ErrorOf::VecShape { shape: dims })
    } else if self_dims[1] != dims.last() {
        Some(ErrorOf::MatmulDim { lhs: self_dims, rhs: dims })
    } else {
        None
    }
}

/// The number of matrices in an input of rank two or three, and the rows of each.
pub open spec fn mat_batch(dims: Seq<usize>) -> (usize, usize) {
    if dims.len() == 3 {
        (dims[0], dims[1])
    } else {
        (1, dims[0])
    }
}

/// Why a product is refused by the matrix route ahead of any work, if it is.
pub open spec fn mat_front_refusal(self_dims: Seq<usize>, dims: Seq<usize>) -> Option<
    ErrorOf<Seq<usize>>,
> {
    if self_dims.len() != 2 {
        Some(rank_error(2, self_dims))
    } else if !rank_fits(dims) {
        Some(ErrorOf::MatShape { shape: dims })
    } else if dims.last() != self_dims[1] {
        Some(ErrorOf::MatmulDim { lhs: self_dims, rhs: dims })
    } else {
        None
    }
}

/// Why a product is refused by the matrix kernels for what its input is, if it is.
pub open spec fn mat_input_refusal(rhs_dtype: DType, contiguous: Option<(usize, usize)>) -> Option<
    ErrorOf<Seq<usize>>,
> {
    if !(rhs_dtype is F32) {
        Some(ErrorOf::UnexpectedDType { expected: DType::F32, got: rhs_dtype })
    } else if contiguous is None {
        Some(ErrorOf::RequiresContiguous { op: Op::QuantizedMatmul })
    } else {
        None
    }
}

/// Small inputs go to the vector kernels: up to eight vectors, or one where the weights are
/// unpacked.
pub open spec fn takes_vec_route(force: bool, dims: Seq<usize>) -> bool {
    rank_fits(dims) && vec_count(dims) <= if force {
        1int
    } else {
        8int
    }
}

impl QCudaStorage {
    /// The data lies within its buffer.
    pub open spec fn wf(self) -> bool {
        self.data.len <= self.data.inner_len
    }

    /// Plans weights of `el_count` elements, all bits zero.
    pub fn zeros(device: DeviceId, el_count: usize, dtype: GgmlDType) -> (r: NewWeights)
        requires
            zeros_fits(el_count as int, dtype),
        ensures
            r.weights.wf(),
            r == zeros_plan(device, el_count, dtype),
            r.weights.data.len == elems_bytes(el_count as int, dtype),
            r.weights.data.inner_len == elems_bytes(el_count + MATRIX_ROW_PADDING, dtype),
    {
        proof {
            law_zeros_padding(el_count as int, dtype);
            lemma_ceil_quot(el_count as int, dtype.block_size() as int);
            let blocks = ceil_quot(el_count as int, dtype.block_size() as int);
            assert(0 <= blocks * dtype.type_size()) by (nonlinear_arith)
                requires
                    blocks >= 0,
            ;
        }
        let size_in_bytes: usize = ceil_div(el_count, dtype.block_size()) * dtype.type_size();
        let padded_size_in_bytes: usize = ceil_div(
            el_count + MATRIX_ROW_PADDING,
            dtype.block_size(),
        ) * dtype.type_size();
        NewWeights {
            weights: QCudaStorage {
                data: PaddedCudaSlice { inner_len: padded_size_in_bytes, len: size_in_bytes },
                dtype,
                device,
            },
            bytes: padded_size_in_bytes,
            zeroed: true,
            copied: Span { start: 0, len: 0 },
        }
    }

    /// Tells whether weights of `el_count` elements fit the machine.
    pub fn zeros_size_fits(el_count: usize, dtype: GgmlDType) -> (r: bool)
        ensures
            r == zeros_fits(el_count as int, dtype),
    {
        match el_count.checked_add(MATRIX_ROW_PADDING) {
            Some(padded) => {
                ceil_div(padded, dtype.block_size()).checked_mul(dtype.type_size()).is_some()
            },
            None => false,
        }
    }

    /// The block format of the weights.
    pub fn dtype(&self) -> (r: GgmlDType)
        ensures
            r == self.dtype,
    {
        self.dtype
    }

    /// The device that holds the weights.
    pub fn device(&self) -> (r: DeviceId)
        ensures
            r == self.device,
    {
        self.device
    }

    /// Bytes of the weights, without padding.
    pub fn storage_size_in_bytes(&self) -> (r: usize)
        ensures
            r == self.data.len,
    {
        self.data.len
    }

    /// The bytes that reading the weights back copies.
    pub fn data(&self) -> (r: Span)
        ensures
            r == (Span { start: 0, len: self.data.len }),
    {
        Span { start: 0, len: self.data.len }
    }

    /// Plans the conversion of the first `elem_count` elements to F32.
    pub fn dequantize(&self, elem_count: usize) -> (r: DequantizePlan)
        requires
            !fast_kernel(self.dtype) ==> bytes_of_blocks(
                blocks_of_elems(elem_count as int, self.dtype),
                self.dtype,
            ) <= self.data.len,
        ensures
            self.is_dequantize_plan(elem_count, r),
    {
        match self.dtype {
            GgmlDType::F32 | GgmlDType::F16 | GgmlDType::BF16 | GgmlDType::Q8_1 => {
                DequantizePlan::Host {
                    bytes: self.data.len,
                    blocks: elem_count / self.dtype.block_size(),
                    elems: elem_count,
                }
            },
            _ => DequantizePlan::Kernel { program: dequantize_f32(self.dtype, elem_count) },
        }
    }

    /// Plans the conversion of the first `elem_count` elements to F16.
    pub fn dequantize_f16(&self, elem_count: usize) -> (r: Program<()>)
        ensures
            r.steps@ == dequantize_steps(
                Kernel::DequantizeF16 { dtype: self.dtype },
                DType::F16,
                self.dtype,
                elem_count,
            ),
            result_unit(r.outcome) == dequantize_outcome(self.dtype),
    {
        dequantize_f16(self.dtype, elem_count)
    }

    /// Replaces the weights by `data_len` bytes that have been copied to a new padded buffer.
    fn install(&mut self, data_len: usize)
        requires
            data_len + padding_bytes(old(self).dtype) <= usize::MAX,
        ensures
            final(self).wf(),
            *final(self) == installed(*old(self), data_len),
    {
        let inner_len: usize = padded_len_of(self.dtype, data_len);
        self.data = PaddedCudaSlice { inner_len, len: data_len };
    }

    fn quantize_step(&mut self, job: QuantizeJob, event: QuantizeEvent) -> (r: Result<
        QuantizeAction,
        Error,
    >)
        requires
            quantize_takes(old(self).dtype, event),
        ensures
            *final(self) == quantize_after(*old(self), event),
            old(self).wf() ==> final(self).wf(),
            result_quantize(r) == quantize_action(old(self).dtype, job, event),
    {
        match event {
            QuantizeEvent::Start { src, elems } => {
                if !matches!(src, DType::F32) {
                    if job.on_device {
                        return Err(ErrorOf::OnlyF32);
                    }
                    return Err(ErrorOf::UnexpectedDType { expected: DType::F32, got: src });
                }
                if job.on_device {
                    Ok(QuantizeAction::Fetch { elems })
                } else {
                    Ok(
                        QuantizeAction::Encode {
                            dtype: self.dtype,
                            elems,
                            encoding: job.encoding,
                        },
                    )
                }
            },
            QuantizeEvent::Fetched { elems, ok } => {
                if !ok {
                    return Ok(QuantizeAction::Fail);
                }
                Ok(QuantizeAction::Encode { dtype: self.dtype, elems, encoding: job.encoding })
            },
            QuantizeEvent::Encoded { made } => match made {
                Some(bytes) => Ok(
                    QuantizeAction::AllocBuffer {
                        bytes: padded_len_of(self.dtype, bytes),
                        zeroed: false,
                    },
                ),
                None => Ok(QuantizeAction::Fail),
            },
            QuantizeEvent::Allocated { bytes, ok } => {
                if !ok {
                    return Ok(QuantizeAction::Fail);
                }
                Ok(QuantizeAction::Copy { dst: Span { start: 0, len: bytes } })
            },
            QuantizeEvent::Copied { bytes, ok } => {
                if !ok {
                    return Ok(QuantizeAction::Fail);
                }
                self.install(bytes);
                Ok(QuantizeAction::Done)
            },
        }
    }

    /// Quantizes a device tensor into these weights: takes what has happened, and says what has to
    /// happen next.
    pub fn quantize(&mut self, event: QuantizeEvent) -> (r: Result<QuantizeAction, Error>)
        requires
            quantize_takes(old(self).dtype, event),
        ensures
            *final(self) == quantize_after(*old(self), event),
            old(self).wf() ==> final(self).wf(),
            result_quantize(r) == quantize_action(
                old(self).dtype,
                (QuantizeJob { on_device: true, encoding: Encoding::Plain }),
                event,
            ),
    {
        self.quantize_step(QuantizeJob { on_device: true, encoding: Encoding::Plain }, event)
    }

    /// Quantizes a device tensor of rows of `n_per_row` elements into these weights by importance:
    /// takes what has happened, and says what has to happen next.
    pub fn quantize_imatrix(&mut self, n_per_row: usize, event: QuantizeEvent) -> (r: Result<
        QuantizeAction,
        Error,
    >)
        requires
            quantize_takes(old(self).dtype, event),
        ensures
            *final(self) == quantize_after(*old(self), event),
            old(self).wf() ==> final(self).wf(),
            result_quantize(r) == quantize_action(
                old(self).dtype,
                (QuantizeJob { on_device: true, encoding: Encoding::Importance { n_per_row } }),
                event,
            ),
    {
        let encoding: Encoding = Encoding::Importance { n_per_row };
        self.quantize_step(QuantizeJob { on_device: true, encoding }, event)
    }

    /// Quantizes a host tensor into these weights: takes what has happened, and says what has to
    /// happen next.
    pub fn quantize_onto(&mut self, event: QuantizeEvent) -> (r: Result<QuantizeAction, Error>)
        requires
            quantize_takes(old(self).dtype, event),
        ensures
            *final(self) == quantize_after(*old(self), event),
            old(self).wf() ==> final(self).wf(),
            result_quantize(r) == quantize_action(
                old(self).dtype,
                (QuantizeJob { on_device: false, encoding: Encoding::Plain }),
                event,
            ),
    {
        self.quantize_step(QuantizeJob { on_device: false, encoding: Encoding::Plain }, event)
    }

    /// Quantizes a host tensor of rows of `n_per_row` elements into these weights by importance:
    /// takes what has happened, and says what has to happen next.
    pub fn quantize_imatrix_onto(&mut self, n_per_row: usize, event: QuantizeEvent) -> (r: Result<
        QuantizeAction,
        Error,
    >)
        requires
            quantize_takes(old(self).dtype, event),
        ensures
            *final(self) == quantize_after(*old(self), event),
            old(self).wf() ==> final(self).wf(),
            result_quantize(r) == quantize_action(
                old(self).dtype,
                (QuantizeJob { on_device: false, encoding: Encoding::Importance { n_per_row } }),
                event,
            ),
    {
        let encoding: Encoding = Encoding::Importance { n_per_row };
        self.quantize_step(QuantizeJob { on_device: false, encoding }, event)
    }

    /// Plans the product of the weights, of shape `self_dims`, with a few vectors.
    fn dequantize_matmul_vec(
        &self,
        mode: &DmmvMode,
        self_dims: &[usize],
        rhs_dtype: DType,
        rhs_l: &Layout,
    ) -> (r: FwdPlan)
        requires
            self.vec_fits(mode.force, self_dims@, rhs_dtype, rhs_l.dims@, rhs_l.contiguous),
        ensures
            self.is_vec_plan(mode.force, self_dims@, rhs_dtype, rhs_l.dims@, rhs_l.contiguous, r),
    {
        let (nrows, ncols): (usize, usize) = match dims2(self_dims) {
            Ok(d) => d,
            Err(e) => return FwdPlan::Refused { error: e },
        };
        if !matches!(rhs_dtype, DType::F32) {
            return FwdPlan::Refused {
                error: ErrorOf::UnexpectedDType { expected: DType::F32, got: rhs_dtype },
            };
        }
        let (o1, o2): (usize, usize) = match rhs_l.contiguous {
            Some(o) => o,
            None => return FwdPlan::Refused {
                error: ErrorOf::RequiresContiguous { op: Op::Dmmv },
            },
        };
        let (b_size, k): (usize, usize) = if rhs_l.dims.len() == 3 {
            (rhs_l.dims[0] * rhs_l.dims[1], rhs_l.dims[2])
        } else if rhs_l.dims.len() == 2 {
            (rhs_l.dims[0], rhs_l.dims[1])
        } else {
            return FwdPlan::Refused {
                error: ErrorOf::VecShape { shape: copy_dims(rhs_l.dims.as_slice()) },
            };
        };
        if ncols != k {
            return FwdPlan::Refused {
                error: ErrorOf::MatmulDim {
                    lhs: copy_dims(self_dims),
                    rhs: copy_dims(rhs_l.dims.as_slice()),
                },
            };
        }
        let y_len: usize = o2 - o1;
        let program: Program<()> = if mode.force {
            dequantize_mul_mat_vec(self.data.len, y_len, self.dtype, ncols, nrows)
        } else {
            mul_mat_vec_via_q8_1(self.data.len, y_len, self.dtype, ncols, nrows, b_size)
        };
        let out_dims: Vec<usize> = replace_last(rhs_l.dims.as_slice(), nrows);
        FwdPlan::Quantized {
            rhs: Span { start: o1, len: y_len },
            program: attach(program, out_dims),
        }
    }

    /// The sizes that the vector route computes fit the machine.
    pub open spec fn vec_fits(
        self,
        force: bool,
        self_dims: Seq<usize>,
        rhs_dtype: DType,
        dims: Seq<usize>,
        contiguous: Option<(usize, usize)>,
    ) -> bool {
        let (nrows, ncols) = (self_dims[0], self_dims[1]);
        let b_size = vec_count(dims);
        let (o1, o2) = contiguous->0;
        let y_len = (o2 - o1) as usize;
        &&& dims.len() == 3 ==> dims[0] * dims[1] <= usize::MAX
        &&& contiguous is Some ==> o1 <= o2
        &&& vec_front_refusal(self_dims, rhs_dtype, dims, contiguous) is None ==> {
            &&& data_elems_spec(self.data.len, self.dtype) <= usize::MAX
            &&& ncols * nrows <= usize::MAX
            &&& !force ==> {
                &&& data_elems_spec(self.data.len, self.dtype) >= ncols * nrows ==> ncols * b_size
                    <= usize::MAX
                &&& mmv_refusal(
                    self.data.len,
                    y_len,
                    self.dtype,
                    ncols,
                    nrows,
                    b_size as usize,
                ) is None ==> scratch_fits(b_size, ncols as int) && (matmul_takes_spec(self.dtype)
                    ==> nrows * b_size <= usize::MAX)
            }
        }
    }

    /// The plan is what the vector route makes of the weights and the input.
    pub open spec fn is_vec_plan(
        self,
        force: bool,
        self_dims: Seq<usize>,
        rhs_dtype: DType,
        dims: Seq<usize>,
        contiguous: Option<(usize, usize)>,
        plan: FwdPlan,
    ) -> bool {
        match vec_front_refusal(self_dims, rhs_dtype, dims, contiguous) {
            Some(e) => plan is Refused && plan->error@ == e,
            None => {
                let (nrows, ncols) = (self_dims[0], self_dims[1]);
                let b_size = vec_count(dims) as usize;
                let (o1, o2) = contiguous->0;
                let y_len = (o2 - o1) as usize;
                &&& plan is Quantized
                &&& plan->rhs == (Span { start: o1, len: y_len })
                &&& plan->Quantized_program.steps@ == if force {
                    match dmmv_refusal(self.data.len, y_len, self.dtype, ncols, nrows) {
                        Some(_) => Seq::<Step>::empty(),
                        None => dmmv_steps(self.dtype, ncols, nrows),
                    }
                } else {
                    match mmv_refusal(self.data.len, y_len, self.dtype, ncols, nrows, b_size) {
                        Some(_) => Seq::<Step>::empty(),
                        None => mmv_steps(self.dtype, ncols, nrows, b_size),
                    }
                }
                &&& result_dims(plan->Quantized_program.outcome) == done_with(
                    if force {
                        refused_or_done(
                            dmmv_refusal(self.data.len, y_len, self.dtype, ncols, nrows),
                        )
                    } else {
                        q8_1_outcome(
                            mmv_refusal(
                                self.data.len,
                                y_len,
                                self.dtype,
                                ncols,
                                nrows,
                                b_size,
                            ),
                            self.dtype,
                        )
                    },
                    with_last(dims, nrows),
                )
            },
        }
    }

    /// The sizes that the matrix route computes fit the machine.
    pub open spec fn mat_fits(
        self,
        force: bool,
        self_dims: Seq<usize>,
        rhs_dtype: DType,
        dims: Seq<usize>,
        contiguous: Option<(usize, usize)>,
    ) -> bool {
        let (n, k) = (self_dims[0], self_dims[1]);
        let (b, m) = mat_batch(dims);
        let (o1, o2) = contiguous->0;
        let y_len = (o2 - o1) as usize;
        &&& contiguous is Some ==> o1 <= o2
        &&& mat_front_refusal(self_dims, dims) is None ==> {
            &&& force ==> n * k <= usize::MAX && (!fast_kernel(self.dtype) ==> bytes_of_blocks(
                blocks_of_elems(n * k, self.dtype),
                self.dtype,
            ) <= self.data.len)
            &&& !force && mat_input_refusal(rhs_dtype, contiguous) is None ==> {
                &&& b * m <= usize::MAX
                &&& data_elems_spec(self.data.len, self.dtype) <= usize::MAX
                &&& n * k <= usize::MAX
                &&& data_elems_spec(self.data.len, self.dtype) >= n * k ==> k * (b * m)
                    <= usize::MAX
                &&& mm_refusal(
                    self.data.len,
                    y_len,
                    self.dtype,
                    n,
                    k,
                    k,
                    (b * m) as usize,
                ) is None ==> scratch_fits(b * m, k as int) && (matmul_takes_spec(self.dtype) ==> n
                    * (b * m) <= usize::MAX)
            }
        }
    }

    /// The plan is what the matrix route makes of the weights and the input.
    pub open spec fn is_mat_plan(
        self,
        force: bool,
        self_dims: Seq<usize>,
        rhs_dtype: DType,
        dims: Seq<usize>,
        contiguous: Option<(usize, usize)>,
        plan: FwdPlan,
    ) -> bool {
        let (n, k) = (self_dims[0], self_dims[1]);
        let (b, m) = mat_batch(dims);
        match mat_front_refusal(self_dims, dims) {
            Some(e) => plan is Refused && plan->error@ == e,
            None => if force {
                &&& plan is Dense
                &&& self.is_dequantize_plan((n * k) as usize, plan->weights)
                &&& plan->matmul.bmnk == (b, m, n, k)
                &&& plan->matmul.rhs_dims@ == seq![b, k, n]
                &&& plan->matmul.rhs_stride@ == seq![0usize, 1usize, k]
                &&& plan->out_dims@ == with_last(dims, n)
            } else {
                match mat_input_refusal(rhs_dtype, contiguous) {
                    Some(e) => plan is Refused && plan->error@ == e,
                    None => {
                        let (o1, o2) = contiguous->0;
                        let y_len = (o2 - o1) as usize;
                        let y_cols = (b * m) as usize;
                        &&& plan is Quantized
                        &&& plan->rhs == (Span { start: o1, len: y_len })
                        &&& plan->Quantized_program.steps@ == match mm_refusal(
                            self.data.len,
                            y_len,
                            self.dtype,
                            n,
                            k,
                            k,
                            y_cols,
                        ) {
                            Some(_) => Seq::<Step>::empty(),
                            None => mm_steps(self.dtype, n, k, y_cols),
                        }
                        &&& result_dims(plan->Quantized_program.outcome) == done_with(
                            q8_1_outcome(
                                mm_refusal(self.data.len, y_len, self.dtype, n, k, k, y_cols),
                                self.dtype,
                            ),
                            with_last(dims, n),
                        )
                    },
                }
            },
        }
    }

    /// The plan turns the first `elem_count` elements into F32.
    pub open spec fn is_dequantize_plan(self, elem_count: usize, plan: DequantizePlan) -> bool {
        match plan {
            DequantizePlan::Kernel { program } => {
                &&& fast_kernel(self.dtype)
                &&& program.steps@ == dequantize_steps(
                    Kernel::DequantizeF32 { dtype: self.dtype },
                    DType::F32,
                    self.dtype,
                    elem_count,
                )
                &&& program.outcome is Ok
            },
            DequantizePlan::Host { bytes, blocks, elems } => {
                &&& !fast_kernel(self.dtype)
                &&& elems == elem_count
                &&& bytes == self.data.len
                &&& blocks == blocks_of_elems(elem_count as int, self.dtype)
            },
        }
    }

    /// Plans the product of the weights, of shape `self_dims`, with a matrix.
    fn dequantize_matmul(
        &self,
        mode: &DmmvMode,
        self_dims: &[usize],
        rhs_dtype: DType,
        layout: &Layout,
    ) -> (r: FwdPlan)
        requires
            self.mat_fits(mode.force, self_dims@, rhs_dtype, layout.dims@, layout.contiguous),
        ensures
            self.is_mat_plan(
                mode.force,
                self_dims@,
                rhs_dtype,
                layout.dims@,
                layout.contiguous,
                r,
            ),
    {
        let (n, k): (usize, usize) = match dims2(self_dims) {
            Ok(d) => d,
            Err(e) => return FwdPlan::Refused { error: e },
        };
        let (b, m, k2): (usize, usize, usize) = if layout.dims.len() == 3 {
            (layout.dims[0], layout.dims[1], layout.dims[2])
        } else if layout.dims.len() == 2 {
            (1, layout.dims[0], layout.dims[1])
        } else {
            return FwdPlan::Refused {
                error: ErrorOf::MatShape { shape: copy_dims(layout.dims.as_slice()) },
            };
        };
        if k2 != k {
            return FwdPlan::Refused {
                error: ErrorOf::MatmulDim {
                    lhs: copy_dims(self_dims),
                    rhs: copy_dims(layout.dims.as_slice()),
                },
            };
        }
        if mode.force {
            let weights: DequantizePlan = self.dequantize(n * k);
            let out_dims: Vec<usize> = replace_last(layout.dims.as_slice(), n);
            let rhs_dims: [usize; 3] = [b, k, n];
            let rhs_stride: [usize; 3] = [0, 1, k];
            assert(rhs_dims@ =~= seq![b, k, n]);
            assert(rhs_stride@ =~= seq![0usize, 1usize, k]);
            return FwdPlan::Dense {
                weights,
                matmul: DenseMatmul { bmnk: (b, m, n, k), rhs_dims, rhs_stride },
                out_dims,
            };
        }
        if !matches!(rhs_dtype, DType::F32) {
            return FwdPlan::Refused {
                error: ErrorOf::UnexpectedDType { expected: DType::F32, got: rhs_dtype },
            };
        }
        let (o1, o2): (usize, usize) = match layout.contiguous {
            Some(o) => o,
            None => return FwdPlan::Refused {
                error: ErrorOf::RequiresContiguous { op: Op::QuantizedMatmul },
            },
        };
        let y_len: usize = o2 - o1;
        let program: Program<()> = mul_mat_via_q8_1(
            self.data.len,
            y_len,
            self.dtype,
            n,
            k,
            k,
            b * m,
        );
        let out_dims: Vec<usize> = replace_last(layout.dims.as_slice(), n);
        FwdPlan::Quantized {
            rhs: Span { start: o1, len: y_len },
            program: attach(program, out_dims),
        }
    }

    /// Plans the product of the weights, of shape `self_dims`, with an input. A few vectors go to
    /// the vector kernels, more to the matrix kernels.
    pub fn fwd(
        &self,
        mode: &DmmvMode,
        self_dims: &[usize],
        rhs_dtype: DType,
        layout: &Layout,
    ) -> (r: FwdPlan)
        requires
            self.fwd_fits(mode.force, self_dims@, rhs_dtype, layout.dims@, layout.contiguous),
        ensures
            takes_vec_route(mode.force, layout.dims@) ==> self.is_vec_plan(
                mode.force,
                self_dims@,
                rhs_dtype,
                layout.dims@,
                layout.contiguous,
                r,
            ),
            !takes_vec_route(mode.force, layout.dims@) ==> self.is_mat_plan(
                mode.force,
                self_dims@,
                rhs_dtype,
                layout.dims@,
                layout.contiguous,
                r,
            ),
    {
        let max_bm: usize = if mode.force {
            1
        } else {
            8
        };
        let use_vec_kernel: bool = if layout.dims.len() == 3 {
            layout.dims[0] * layout.dims[1] <= max_bm
        } else if layout.dims.len() == 2 {
            layout.dims[0] <= max_bm
        } else {
            false
        };
        if use_vec_kernel {
            self.dequantize_matmul_vec(mode, self_dims, rhs_dtype, layout)
        } else {
            self.dequantize_matmul(mode, self_dims, rhs_dtype, layout)
        }
    }

    /// Tells whether the sizes that the product with an input computes fit the machine.
    pub fn fwd_sizes_fit(
        &self,
        mode: &DmmvMode,
        self_dims: &[usize],
        rhs_dtype: DType,
        layout: &Layout,
    ) -> (r: bool)
        ensures
            r == self.fwd_fits(
                mode.force,
                self_dims@,
                rhs_dtype,
                layout.dims@,
                layout.contiguous,
            ),
    {
        let (o1, o2): (usize, usize) = match layout.contiguous {
            Some(o) => o,
            None => (0, 0),
        };
        if o1 > o2 {
            return false;
        }
        let y_len: usize = o2 - o1;
        let f32_rhs: bool = matches!(rhs_dtype, DType::F32) && layout.contiguous.is_some();
        let rank: usize = layout.dims.len();
        let count: usize = if rank == 3 {
            match layout.dims[0].checked_mul(layout.dims[1]) {
                Some(v) => v,
                None => return false,
            }
        } else if rank == 2 {
            layout.dims[0]
        } else {
            0
        };
        if self_dims.len() != 2 || (rank != 2 && rank != 3) || self_dims[1]
            != layout.dims[rank - 1] {
            return true;
        }
        let (rows, cols): (usize, usize) = (self_dims[0], self_dims[1]);
        let product: Option<usize> = rows.checked_mul(cols);
        proof {
            assert(rows * cols == cols * rows) by (nonlinear_arith);
            assert(count * cols == cols * count) by (nonlinear_arith);
            if rank == 2 {
                assert(1 * count == count);
            }
        }
        let max_bm: usize = if mode.force {
            1
        } else {
            8
        };
        if count <= max_bm {
            if !f32_rhs {
                return true;
            }
            let elems: usize = match checked_data_elems(self.data.len, self.dtype) {
                Some(v) => v,
                None => return false,
            };
            let need: usize = match product {
                Some(v) => v,
                None => return false,
            };
            if mode.force || elems < need {
                return true;
            }
            let y_need: usize = match count.checked_mul(cols) {
                Some(v) => v,
                None => return false,
            };
            if y_len != y_need || count == 0 {
                return true;
            }
            return scratch_sizes_fit(count, cols) && (!matmul_takes(self.dtype)
                || rows.checked_mul(count).is_some());
        }
        if mode.force {
            return match product {
                Some(elems) => self.host_route_fits(elems),
                None => false,
            };
        }
        if !f32_rhs {
            return true;
        }
        let elems: usize = match checked_data_elems(self.data.len, self.dtype) {
            Some(v) => v,
            None => return false,
        };
        let need: usize = match product {
            Some(v) => v,
            None => return false,
        };
        if elems < need {
            return true;
        }
        let y_need: usize = match count.checked_mul(cols) {
            Some(v) => v,
            None => return false,
        };
        if y_len != y_need {
            return true;
        }
        scratch_sizes_fit(count, cols) && (!matmul_takes(self.dtype) || rows.checked_mul(
            count,
        ).is_some())
    }

    /// Tells whether the weights hold what turning `elem_count` elements into F32 reads on the
    /// host.
    pub fn host_route_fits(&self, elem_count: usize) -> (r: bool)
        ensures
            r == (!fast_kernel(self.dtype) ==> bytes_of_blocks(
                blocks_of_elems(elem_count as int, self.dtype),
                self.dtype,
            ) <= self.data.len),
    {
        match self.dtype {
            GgmlDType::F32 | GgmlDType::F16 | GgmlDType::BF16 | GgmlDType::Q8_1 => {
                match (elem_count / self.dtype.block_size()).checked_mul(self.dtype.type_size()) {
                    Some(bytes) => bytes <= self.data.len,
                    None => false,
                }
            },
            _ => true,
        }
    }

    /// The sizes that the product with an input computes fit the machine.
    pub open spec fn fwd_fits(
        self,
        force: bool,
        self_dims: Seq<usize>,
        rhs_dtype: DType,
        dims: Seq<usize>,
        contiguous: Option<(usize, usize)>,
    ) -> bool {
        &&& dims.len() == 3 ==> dims[0] * dims[1] <= usize::MAX
        &&& if takes_vec_route(force, dims) {
            self.vec_fits(force, self_dims, rhs_dtype, dims, contiguous)
        } else {
            self.mat_fits(force, self_dims, rhs_dtype, dims, contiguous)
        }
    }

    /// The block formats that an expert layer takes.
    pub open spec fn moe_takes(self) -> bool {
        match self.dtype {
            GgmlDType::Q8_0 | GgmlDType::Q2K | GgmlDType::Q3K | GgmlDType::Q4K | GgmlDType::Q5K
            | GgmlDType::Q6K => true,
            _ => false,
        }
    }

    /// Tells whether an expert layer takes the weights' block format.
    pub fn takes_experts(&self) -> (r: bool)
        ensures
            r == self.moe_takes(),
    {
        match self.dtype {
            GgmlDType::Q8_0 | GgmlDType::Q2K | GgmlDType::Q3K | GgmlDType::Q4K | GgmlDType::Q5K
            | GgmlDType::Q6K => true,
            _ => false,
        }
    }

    /// What makes an expert layer over the weights ready, or why it is refused.
    pub open spec fn moe_call(
        self,
        self_dims: Seq<usize>,
        input_dtype: DType,
        input_len: usize,
        input_start: usize,
        in_dims: Seq<usize>,
        ids_dtype: DType,
        idx_dims: Seq<usize>,
    ) -> Result<MoeCall, ErrorOf<Seq<usize>>> {
        let len = (input_len - input_start) as usize;
        if !self.moe_takes() {
            Err(ErrorOf::MoeWeights { dtype: self.dtype })
        } else if !(input_dtype is F32 || input_dtype is BF16 || input_dtype is U8) {
            Err(ErrorOf::MoeInput { dtype: input_dtype })
        } else if !(ids_dtype is U32) {
            Err(ErrorOf::UnexpectedDType { expected: DType::U32, got: ids_dtype })
        } else if self_dims.len() != 3 {
            Err(rank_error(3, self_dims))
        } else {
            Ok(
                MoeCall {
                    shape: MoeShape {
                        num_experts: self_dims[0],
                        n: self_dims[1],
                        k: self_dims[2],
                        batch: in_dims[0],
                        input_dim1: in_dims[1],
                        topk: idx_dims[1],
                    },
                    input: if input_dtype is F32 {
                        MoeInput::F32 { len }
                    } else if input_dtype is BF16 {
                        MoeInput::Bf16 { len }
                    } else {
                        MoeInput::Q8_1 { len }
                    },
                    weight_len: self.data.inner_len,
                },
            )
        }
    }

    /// The input starts within its buffer where the layer looks at it, and the shapes of the input
    /// and the indices have a token's row and agree on the number of tokens where it goes on.
    pub open spec fn moe_call_fits(
        self,
        self_dims: Seq<usize>,
        input_dtype: DType,
        input_len: usize,
        input_start: usize,
        in_dims: Seq<usize>,
        ids_dtype: DType,
        idx_dims: Seq<usize>,
    ) -> bool {
        let rows = self.moe_takes() && (input_dtype is F32 || input_dtype is BF16
            || input_dtype is U8);
        &&& rows ==> input_start <= input_len
        &&& rows && ids_dtype is U32 && self_dims.len() == 3 ==> in_dims.len() >= 2
            && idx_dims.len() >= 2 && in_dims[0] == idx_dims[0]
    }

    /// Tells whether an expert layer over the weights can be made ready with these arguments.
    pub fn moe_shapes_fit(
        &self,
        self_dims: &[usize],
        input_dtype: DType,
        input_len: usize,
        input_start: usize,
        in_dims: &[usize],
        ids_dtype: DType,
        idx_dims: &[usize],
    ) -> (r: bool)
        ensures
            r == self.moe_call_fits(
                self_dims@,
                input_dtype,
                input_len,
                input_start,
                in_dims@,
                ids_dtype,
                idx_dims@,
            ),
    {
        let rows: bool = self.takes_experts() && matches!(
            input_dtype,
            DType::F32 | DType::BF16 | DType::U8
        );
        if !rows {
            return true;
        }
        if input_start > input_len {
            return false;
        }
        if !matches!(ids_dtype, DType::U32) || self_dims.len() != 3 {
            return true;
        }
        in_dims.len() >= 2 && idx_dims.len() >= 2 && in_dims[0] == idx_dims[0]
    }

    /// Makes an expert layer over the weights, of shape `self_dims`, ready for its workspace. An
    /// input of bytes holds rows that are quantized already. The input starts at `input_start` of
    /// its buffer.
    pub fn indexed_moe_forward(
        &self,
        self_dims: &[usize],
        input_dtype: DType,
        input_len: usize,
        input_start: usize,
        in_dims: &[usize],
        ids_dtype: DType,
        idx_dims: &[usize],
    ) -> (r: Result<MoeCall, Error>)
        requires
            self.moe_call_fits(
                self_dims@,
                input_dtype,
                input_len,
                input_start,
                in_dims@,
                ids_dtype,
                idx_dims@,
            ),
        ensures
            match r {
                Ok(c) => Ok::<MoeCall, ErrorOf<Seq<usize>>>(c),
                Err(e) => Err(e@),
            } == self.moe_call(
                self_dims@,
                input_dtype,
                input_len,
                input_start,
                in_dims@,
                ids_dtype,
                idx_dims@,
            ),
    {
        if !self.takes_experts() {
            return Err(ErrorOf::MoeWeights { dtype: self.dtype });
        }
        let input: MoeInput = match input_dtype {
            DType::F32 => MoeInput::F32 { len: input_len - input_start },
            DType::BF16 => MoeInput::Bf16 { len: input_len - input_start },
            DType::U8 => MoeInput::Q8_1 { len: input_len - input_start },
            _ => return Err(ErrorOf::MoeInput { dtype: input_dtype }),
        };
        if !matches!(ids_dtype, DType::U32) {
            return Err(ErrorOf::UnexpectedDType { expected: DType::U32, got: ids_dtype });
        }
        match moe_shape(self_dims, in_dims, idx_dims) {
            Ok(shape) => Ok(MoeCall { shape, input, weight_len: self.data.inner_len }),
            Err(e) => Err(e),
        }
    }
}

fn padded_len_of(dtype: GgmlDType, data_len: usize) -> (r: usize)
    requires
        data_len + padding_bytes(dtype) <= usize::MAX,
    ensures
        r == data_len + padding_bytes(dtype),
        padding_bytes(dtype) >= 0,
{
    proof {
        let bytes = MATRIX_ROW_PADDING * dtype.type_size();
        assert(bytes <= 512 * 292);
        assert(bytes / dtype.block_size() as int == padding_bytes(dtype)) by {
            assert(bytes / 1 == bytes);
        }
    }
    data_len + MATRIX_ROW_PADDING * dtype.type_size() / dtype.block_size()
}

/// Tells whether `data_len` bytes of blocks fit the machine with their padding.
pub fn padded_len_fits(dtype: GgmlDType, data_len: usize) -> (r: bool)
    ensures
        r == (data_len + padding_bytes(dtype) <= usize::MAX),
{
    let padding: usize = padded_len_of(dtype, 0);
    data_len.checked_add(padding).is_some()
}

/// Plans weights of `data_len` bytes of blocks that the host has.
pub fn load_quantized(device: DeviceId, dtype: GgmlDType, data_len: usize) -> (r: NewWeights)
    requires
        data_len + padding_bytes(dtype) <= usize::MAX,
    ensures
        r.weights.wf(),
        r == load_plan(device, dtype, data_len),
{
    let inner_len: usize = padded_len_of(dtype, data_len);
    NewWeights {
        weights: QCudaStorage { data: PaddedCudaSlice { inner_len, len: data_len }, dtype, device },
        bytes: inner_len,
        zeroed: true,
        copied: Span { start: 0, len: data_len },
    }
}

/// New weights of zeros hold nothing but zeros, padding and all.
pub proof fn law_zeros_hold_zeros(
    device: DeviceId,
    el_count: usize,
    dtype: GgmlDType,
    data: Seq<u8>,
)
    requires
        zeros_fits(el_count as int, dtype),
    ensures
        ({
            let plan = zeros_plan(device, el_count, dtype);
            let held = filled(plan, data);
            &&& plan.zeroed
            &&& plan.weights.dtype == dtype
            &&& plan.weights.device == device
            &&& held.len() == plan.weights.data.inner_len
            &&& forall|i: int| 0 <= i < held.len() ==> #[trigger] held[i] == 0
        }),
{
}

/// Loaded weights read back as the bytes they were loaded from, and their padding is zero.
pub proof fn law_loaded_weights_read_back(device: DeviceId, dtype: GgmlDType, data: Seq<u8>)
    requires
        data.len() + padding_bytes(dtype) <= usize::MAX,
    ensures
        ({
            let plan = load_plan(device, dtype, data.len() as usize);
            let held = filled(plan, data);
            &&& plan.zeroed
            &&& plan.weights.dtype == dtype
            &&& plan.weights.device == device
            &&& plan.weights.data.len == data.len()
            &&& held.len() == plan.weights.data.inner_len == data.len() + padding_bytes(dtype)
            &&& held.take(plan.weights.data.len as int) == data
            &&& forall|i: int| data.len() <= i < held.len() ==> #[trigger] held[i] == 0
        }),
{
    let plan = load_plan(device, dtype, data.len() as usize);
    assert(padding_bytes(dtype) >= 0);
    assert(filled(plan, data).take(data.len() as int) =~= data);
}

/// A step of quantizing that fails, or is refused, leaves the weights as they were.
pub proof fn law_failed_quantize_changes_nothing(
    s: QCudaStorage,
    job: QuantizeJob,
    event: QuantizeEvent,
)
    requires
        match quantize_action(s.dtype, job, event) {
            Ok(action) => action is Fail,
            Err(_) => true,
        },
    ensures
        quantize_after(s, event) == s,
{
}

/// Quantizing is all or nothing: until its last step is done the weights are what they were,
/// wherever it stops.
pub proof fn law_quantize_is_all_or_nothing(
    s: QCudaStorage,
    job: QuantizeJob,
    events: Seq<QuantizeEvent>,
)
    requires
        forall|i: int|
            0 <= i < events.len() ==> quantize_action(s.dtype, job, #[trigger] events[i]) != Ok::<
                QuantizeAction,
                ErrorOf<Seq<usize>>,
            >(QuantizeAction::Done),
    ensures
        quantize_after_all(s, events) == s,
    decreases events.len(),
{
    if events.len() > 0 {
        let first = events.drop_last();
        assert forall|i: int| 0 <= i < first.len() implies quantize_action(
            s.dtype,
            job,
            #[trigger] first[i],
        ) != Ok::<QuantizeAction, ErrorOf<Seq<usize>>>(QuantizeAction::Done) by {
            assert(first[i] == events[i]);
        }
        law_quantize_is_all_or_nothing(s, job, first);
        assert(events.last() == events[events.len() - 1]);
    }
}

/// Quantizing whose steps succeed reads a device tensor back, makes blocks of it on the host,
/// copies them to the start of a new buffer with padding, and only then puts that buffer in place.
pub proof fn law_quantize_in_order(s: QCudaStorage, job: QuantizeJob, elems: usize, bytes: usize)
    requires
        bytes + padding_bytes(s.dtype) <= usize::MAX,
    ensures
        ({
            let start = QuantizeEvent::Start { src: DType::F32, elems };
            let fetched = QuantizeEvent::Fetched { elems, ok: true };
            let encoded = QuantizeEvent::Encoded { made: Some(bytes) };
            let allocated = QuantizeEvent::Allocated { bytes, ok: true };
            let copied = QuantizeEvent::Copied { bytes, ok: true };
            let encode = QuantizeAction::Encode { dtype: s.dtype, elems, encoding: job.encoding };
            let done = quantize_after_all(s, seq![start, fetched, encoded, allocated, copied]);
            &&& quantize_action(s.dtype, job, start) == Ok::<QuantizeAction, ErrorOf<Seq<usize>>>(
                if job.on_device {
                    QuantizeAction::Fetch { elems }
                } else {
                    encode
                },
            )
            &&& quantize_action(s.dtype, job, fetched) == Ok::<
                QuantizeAction,
                ErrorOf<Seq<usize>>,
            >(encode)
            &&& quantize_action(s.dtype, job, encoded) == Ok::<
                QuantizeAction,
                ErrorOf<Seq<usize>>,
            >(
                QuantizeAction::AllocBuffer {
                    bytes: installed(s, bytes).data.inner_len,
                    zeroed: false,
                },
            )
            &&& quantize_action(s.dtype, job, allocated) == Ok::<
                QuantizeAction,
                ErrorOf<Seq<usize>>,
            >(QuantizeAction::Copy { dst: Span { start: 0, len: bytes } })
            &&& quantize_action(s.dtype, job, copied) == Ok::<
                QuantizeAction,
                ErrorOf<Seq<usize>>,
            >(QuantizeAction::Done)
            &&& done == installed(s, bytes)
            &&& done.wf()
            &&& done.dtype == s.dtype
            &&& done.device == s.device
            &&& done.data.len == bytes
            &&& done.data.inner_len == bytes + padding_bytes(s.dtype)
        }),
{
    let events = seq![
        QuantizeEvent::Start { src: DType::F32, elems },
        QuantizeEvent::Fetched { elems, ok: true },
        QuantizeEvent::Encoded { made: Some(bytes) },
        QuantizeEvent::Allocated { bytes, ok: true },
        QuantizeEvent::Copied { bytes, ok: true },
    ];
    assert(padding_bytes(s.dtype) >= 0);
    law_quantize_is_all_or_nothing(s, job, events.drop_last());
    assert(events.last() == (QuantizeEvent::Copied { bytes, ok: true }));
}

/// Weights made of zeros have the same padding as weights that are quantized or loaded: one padded
/// row's worth.
pub proof fn law_zeros_padding(el_count: int, dtype: GgmlDType)
    requires
        el_count >= 0,
    ensures
        elems_bytes(el_count + MATRIX_ROW_PADDING, dtype) == elems_bytes(el_count, dtype)
            + padding_bytes(dtype),
{
}

/// Every format becomes F32, with as many elements as were asked for.
pub proof fn law_dequantize_yields_all_elements(
    storage: QCudaStorage,
    elem_count: usize,
    plan: DequantizePlan,
)
    requires
        storage.is_dequantize_plan(elem_count, plan),
    ensures
        match plan {
            DequantizePlan::Kernel { program } => {
                &&& program.outcome is Ok
                &&& program.steps@.contains(Step::AllocOut { dtype: DType::F32, len: elem_count })
            },
            DequantizePlan::Host { elems, .. } => elems == elem_count,
        },
{
    if plan is Kernel {
        let steps = plan->Kernel_program.steps@;
        assert(steps[1] == (Step::AllocOut { dtype: DType::F32, len: elem_count }));
    }
}

/// F32 weights that were loaded from `elem_count` elements are read back whole, one block for each
/// element.
pub proof fn law_loaded_f32_reads_back_whole(
    device: DeviceId,
    inner_len: usize,
    len: usize,
    elem_count: usize,
    plan: DequantizePlan,
)
    requires
        len == elem_count * 4,
        (QCudaStorage {
            data: PaddedCudaSlice { inner_len, len },
            dtype: GgmlDType::F32,
            device,
        }).is_dequantize_plan(elem_count, plan),
    ensures
        plan == (DequantizePlan::Host { bytes: len, blocks: elem_count, elems: elem_count }),
{
}

/// The last choice decides the route, whatever was chosen before: an input of rank two or three
/// takes the vector route where it holds no more vectors than one, or than eight where the input is
/// quantized. Inputs of other ranks never do.
pub proof fn law_last_choice_decides_route(before: DmmvMode, f: bool, dims: Seq<usize>)
    ensures
        ({
            let limit: int = if f {
                1
            } else {
                8
            };
            let vec = takes_vec_route(mode_after(before, f).force, dims);
            &&& dims.len() == 3 ==> (vec <==> dims[0] * dims[1] <= limit)
            &&& dims.len() == 2 ==> (vec <==> dims[0] <= limit)
            &&& dims.len() != 2 && dims.len() != 3 ==> !vec
        }),
{
}

/// The vector route never hands its kernels a batch or a vector of a size that they refuse, as long
/// as there is a vector and the input fills the part of the buffer that holds it.
pub proof fn law_vec_route_sizes(
    storage: QCudaStorage,
    self_dims: Seq<usize>,
    dims: Seq<usize>,
    contiguous: Option<(usize, usize)>,
    start: usize,
    end: usize,
)
    requires
        vec_front_refusal(self_dims, DType::F32, dims, contiguous) is None,
        contiguous == Some((start, end)),
        start <= end,
        end - start == dims.last() * vec_count(dims),
        vec_count(dims) >= 1,
    ensures
        ({
            let y_len = (end - start) as usize;
            let b_size = vec_count(dims) as usize;
            &&& takes_vec_route(false, dims) ==> {
                let refusal = mmv_refusal(
                    storage.data.len,
                    y_len,
                    storage.dtype,
                    self_dims[1],
                    self_dims[0],
                    b_size,
                );
                refusal is None || refusal->0 is DataSize
            }
            &&& takes_vec_route(true, dims) ==> {
                let refusal = dmmv_refusal(
                    storage.data.len,
                    y_len,
                    storage.dtype,
                    self_dims[1],
                    self_dims[0],
                );
                refusal is None || refusal->0 is DataSize || refusal->0 is UnsupportedMatmul
            }
        }),
{
    let b = vec_count(dims);
    if takes_vec_route(true, dims) {
        assert(dims.last() * b == dims.last()) by (nonlinear_arith)
            requires
                b == 1,
        ;
    }
}

/// The bytes of weights are those of their blocks, the last one filled up: no block is left out and
/// none is too many. The padding is what 512 elements take.
pub proof fn law_weight_bytes(el_count: int, dtype: GgmlDType)
    requires
        el_count >= 0,
    ensures
        ({
            let blocks = elems_bytes(el_count, dtype) / dtype.type_size() as int;
            &&& elems_bytes(el_count, dtype) == blocks * dtype.type_size()
            &&& el_count <= blocks * dtype.block_size() < el_count + dtype.block_size()
            &&& padding_bytes(dtype) * dtype.block_size() == 512 * dtype.type_size()
        }),
{
    lemma_block_counts(el_count, dtype);
    let blocks = blocks_for_elems(el_count, dtype);
    lemma_block_counts(blocks, dtype);
    let ts = dtype.type_size() as int;
    lemma_ceil_quot(el_count, dtype.block_size() as int);
    assert(blocks * ts == ts * blocks + 0) by (nonlinear_arith);
    lemma_fundamental_div_mod_converse(blocks * ts, ts, blocks, 0);
    let bs = dtype.block_size() as int;
    let padding = padding_bytes(dtype);
    assert(padding * bs == 512 * ts) by (nonlinear_arith)
        requires
            bs == 1 && padding == 512 * ts || bs == 32 && padding == 16 * ts || bs == 256
                && padding == 2 * ts,
    ;
}

/// On the host as many whole blocks are decoded as the elements fill, out of all the bytes of the
/// weights. The formats without a kernel go this way, and no others.
pub proof fn law_host_decodes_whole_blocks(
    storage: QCudaStorage,
    elem_count: usize,
    plan: DequantizePlan,
)
    requires
        storage.is_dequantize_plan(elem_count, plan),
    ensures
        plan is Host <==> storage.dtype is F32 || storage.dtype is F16 || storage.dtype is BF16
            || storage.dtype is Q8_1,
        match plan {
            DequantizePlan::Host { bytes, blocks, elems } => {
                &&& bytes == storage.data.len
                &&& blocks * storage.dtype.block_size() <= elems < blocks
                    * storage.dtype.block_size() + storage.dtype.block_size()
            },
            DequantizePlan::Kernel { program } => {
                &&& program.steps@.len() == 3
                &&& program.steps@[0] == (Step::Load {
                    kernel: Kernel::DequantizeF32 { dtype: storage.dtype },
                })
                &&& program.steps@[1] == (Step::AllocOut { dtype: DType::F32, len: elem_count })
            },
        },
{
    lemma_block_counts(elem_count as int, storage.dtype);
}

/// Only F32 is quantized. A device tensor of another type and a host tensor of another type are
/// refused, each in its own words, and nothing is asked for.
pub proof fn law_only_f32_is_quantized(
    s: QCudaStorage,
    job: QuantizeJob,
    src: DType,
    elems: usize,
)
    ensures
        quantize_action(s.dtype, job, QuantizeEvent::Start { src, elems }) is Ok <==> src
            == DType::F32,
        src != DType::F32 ==> quantize_action(s.dtype, job, QuantizeEvent::Start { src, elems })
            == Err::<QuantizeAction, ErrorOf<Seq<usize>>>(
            if job.on_device {
                ErrorOf::OnlyF32
            } else {
                ErrorOf::UnexpectedDType { expected: DType::F32, got: src }
            },
        ),
{
}

/// The vector route takes F32 input without gaps, of rank two or three, against a matrix of weights
/// with as many columns as the input has. What does not fit is refused, for the first of these
/// reasons that holds.
pub proof fn law_vec_route_takes(
    self_dims: Seq<usize>,
    rhs_dtype: DType,
    dims: Seq<usize>,
    contiguous: Option<(usize, usize)>,
)
    ensures
        ({
            let refusal = vec_front_refusal(self_dims, rhs_dtype, dims, contiguous);
            &&& refusal is None <==> {
                &&& self_dims.len() == 2
                &&& rhs_dtype == DType::F32
                &&& contiguous is Some
                &&& dims.len() == 2 || dims.len() == 3
                &&& dims.last() == self_dims[1]
            }
            &&& refusal is Some ==> match refusal->0 {
                ErrorOf::UnexpectedRank { expected, got, shape } => self_dims.len() != 2
                    && expected == 2 && got == self_dims.len() as usize && shape == self_dims,
                ErrorOf::UnexpectedDType { expected, got } => self_dims.len() == 2 && rhs_dtype
                    != DType::F32 && expected is F32 && got == rhs_dtype,
                ErrorOf::RequiresContiguous { op } => rhs_dtype is F32 && contiguous is None
                    && op is Dmmv,
                ErrorOf::VecShape { shape } => contiguous is Some && dims.len() != 2 && dims.len()
                    != 3 && shape == dims,
                ErrorOf::MatmulDim { lhs, rhs } => contiguous is Some && dims.last()
                    != self_dims[1] && lhs == self_dims && rhs == dims,
                _ => false,
            }
        }),
{
}

/// The matrix route takes input of rank two or three against a matrix of weights with as many
/// columns as the input has; its kernels take F32 without gaps.
pub proof fn law_mat_route_takes(
    self_dims: Seq<usize>,
    rhs_dtype: DType,
    dims: Seq<usize>,
    contiguous: Option<(usize, usize)>,
)
    ensures
        ({
            let front = mat_front_refusal(self_dims, dims);
            let back = mat_input_refusal(rhs_dtype, contiguous);
            &&& front is None <==> {
                &&& self_dims.len() == 2
                &&& dims.len() == 2 || dims.len() == 3
                &&& dims.last() == self_dims[1]
            }
            &&& front is Some ==> match front->0 {
                ErrorOf::UnexpectedRank { expected, got, shape } => self_dims.len() != 2
                    && expected == 2 && got == self_dims.len() as usize && shape == self_dims,
                ErrorOf::MatShape { shape } => dims.len() != 2 && dims.len() != 3 && shape == dims,
                ErrorOf::MatmulDim { lhs, rhs } => dims.last() != self_dims[1] && lhs == self_dims
                    && rhs == dims,
                _ => false,
            }
            &&& back is None <==> rhs_dtype == DType::F32 && contiguous is Some
            &&& back is Some ==> match back->0 {
                ErrorOf::UnexpectedDType { expected, got } => rhs_dtype != DType::F32
                    && expected is F32 && got == rhs_dtype,
                ErrorOf::RequiresContiguous { op } => rhs_dtype is F32 && contiguous is None
                    && op is QuantizedMatmul,
                _ => false,
            }
        }),
{
}

proof fn lemma_out_elems(dims: Seq<usize>, n: usize)
    requires
        rank_fits(dims),
    ensures
        dims_product(with_last(dims, n)) == vec_count(dims) * n,
{
    if dims.len() == 3 {
        assert(with_last(dims, n) =~= seq![dims[0], dims[1], n]);
        lemma_dims_product3(dims[0], dims[1], n);
    } else {
        assert(with_last(dims, n) =~= seq![dims[0], n]);
        lemma_dims_product3(dims[0], n, 0);
    }
}

/// A product that succeeds on the vector route multiplies the weights with every vector of the
/// input. It reads the part of the buffer that holds the input, tells the kernel the rows and
/// columns of the weights, and puts out the shape of the input with a row's result for each vector:
/// as many elements as that shape stands for. Where the weights are unpacked one vector is
/// multiplied.
pub proof fn law_vec_plan_multiplies(
    storage: QCudaStorage,
    force: bool,
    self_dims: Seq<usize>,
    rhs_dtype: DType,
    dims: Seq<usize>,
    contiguous: Option<(usize, usize)>,
    plan: FwdPlan,
)
    requires
        storage.vec_fits(force, self_dims, rhs_dtype, dims, contiguous),
        storage.is_vec_plan(force, self_dims, rhs_dtype, dims, contiguous, plan),
        plan is Quantized,
        plan->Quantized_program.outcome is Ok,
        self_dims[0] <= i32::MAX,
        self_dims[1] <= i32::MAX - 511,
    ensures
        ({
            let (rows, cols) = (self_dims[0], self_dims[1]);
            let (start, end) = contiguous->0;
            let steps = plan->Quantized_program.steps@;
            let out = result_dims(plan->Quantized_program.outcome)->Ok_0;
            let n = steps.len() as int;
            &&& self_dims.len() == 2
            &&& plan->rhs.start == start
            &&& plan->rhs.start + plan->rhs.len == end
            &&& out.len() == dims.len()
            &&& out.last() == rows
            &&& forall|i: int| 0 <= i < dims.len() - 1 ==> #[trigger] out[i] == dims[i]
            &&& n >= 3
            &&& match (steps[n - 3], steps[n - 2], steps[n - 1]) {
                (
                    Step::Load { kernel },
                    Step::AllocOut { dtype, len },
                    Step::Launch { kernel: launched, args, .. },
                ) => {
                    &&& dtype is F32
                    &&& launched == kernel
                    &&& if force {
                        &&& kernel == (Kernel::DequantizeMulMatVec { dtype: storage.dtype })
                        &&& len == rows
                        &&& args == (KernelArgs::MatVec { ncols: cols as i32, nrows: rows as i32 })
                        &&& plan->rhs.len == cols
                    } else {
                        &&& kernel == (Kernel::MulMatVecQ8_1 {
                            dtype: storage.dtype,
                            b_size: vec_count(dims) as usize,
                        })
                        &&& len == dims_product(out)
                        &&& plan->rhs.len == vec_count(dims) * cols
                        &&& match args {
                            KernelArgs::MatVecQ8_1 { ncols_x, nrows_x, nrows_dst, .. } => ncols_x
                                == cols && nrows_x == rows && nrows_dst == rows,
                            _ => false,
                        }
                    }
                },
                _ => false,
            }
        }),
{
    let (rows, cols) = (self_dims[0], self_dims[1]);
    let count = vec_count(dims);
    lemma_out_elems(dims, rows);
    assert(count >= 0) by {
        if dims.len() == 3 {
            assert(dims[0] * dims[1] >= 0) by (nonlinear_arith);
        }
    }
    assert(cols * count == count * cols) by (nonlinear_arith);
    assert(rows * count == count * rows) by (nonlinear_arith);
    if force {
        law_dmmv_describes_operands(storage.dtype, cols, rows);
    } else {
        law_mmv_describes_operands(storage.dtype, cols, rows, count as usize);
    }
}

/// A product that succeeds on the matrix route multiplies the weights with every row of the input.
/// It reads the part of the buffer that holds the input, tells the kernel the rows and columns of
/// the weights and the number of input rows, and puts out the shape of the input with a row's
/// result for each: as many elements as that shape stands for.
pub proof fn law_mat_plan_multiplies(
    storage: QCudaStorage,
    self_dims: Seq<usize>,
    rhs_dtype: DType,
    dims: Seq<usize>,
    contiguous: Option<(usize, usize)>,
    plan: FwdPlan,
)
    requires
        storage.mat_fits(false, self_dims, rhs_dtype, dims, contiguous),
        storage.is_mat_plan(false, self_dims, rhs_dtype, dims, contiguous, plan),
        plan is Quantized,
        plan->Quantized_program.outcome is Ok,
        self_dims[0] <= i32::MAX,
        self_dims[1] <= i32::MAX - 511,
        vec_count(dims) <= i32::MAX,
    ensures
        ({
            let (rows, cols) = (self_dims[0], self_dims[1]);
            let (start, end) = contiguous->0;
            let steps = plan->Quantized_program.steps@;
            let out = result_dims(plan->Quantized_program.outcome)->Ok_0;
            let n = steps.len() as int;
            &&& self_dims.len() == 2
            &&& plan->rhs.start == start
            &&& plan->rhs.start + plan->rhs.len == end
            &&& plan->rhs.len == vec_count(dims) * cols
            &&& out.len() == dims.len()
            &&& out.last() == rows
            &&& forall|i: int| 0 <= i < dims.len() - 1 ==> #[trigger] out[i] == dims[i]
            &&& n >= 3
            &&& match (steps[n - 3], steps[n - 2], steps[n - 1]) {
                (
                    Step::Load { kernel },
                    Step::AllocOut { dtype, len },
                    Step::Launch { kernel: launched, args, .. },
                ) => {
                    &&& dtype is F32
                    &&& launched == kernel
                    &&& kernel == (Kernel::MulMatQ8_1 { dtype: storage.dtype })
                    &&& len == dims_product(out)
                    &&& match args {
                        KernelArgs::MatMatQ8_1 { ncols_x, nrows_x, ncols_y, nrows_dst, .. } => {
                            &&& ncols_x == cols
                            &&& nrows_x == rows
                            &&& ncols_y == vec_count(dims)
                            &&& nrows_dst == rows
                        },
                        _ => false,
                    }
                },
                _ => false,
            }
        }),
{
    let (rows, cols) = (self_dims[0], self_dims[1]);
    let (b, m) = mat_batch(dims);
    let count = vec_count(dims);
    lemma_out_elems(dims, rows);
    assert(b * m == count);
    assert(count >= 0) by {
        if dims.len() == 3 {
            assert(dims[0] * dims[1] >= 0) by (nonlinear_arith);
        }
    }
    assert(cols * count == count * cols) by (nonlinear_arith);
    assert(rows * count == count * rows) by (nonlinear_arith);
    law_mm_describes_operands(storage.dtype, rows, cols, count as usize);
}

/// Where the weights are turned into F32 first, all of them are, and they are multiplied transposed:
/// the right operand's element in row `inner` and column `col` is the weights' element in row `col`
/// and column `inner`, in every matrix of the batch. The product has the rows of the input and the
/// columns of the weights' rows, as many elements as the output shape stands for.
pub proof fn law_dense_plan_multiplies_transposed(
    storage: QCudaStorage,
    self_dims: Seq<usize>,
    rhs_dtype: DType,
    dims: Seq<usize>,
    contiguous: Option<(usize, usize)>,
    plan: FwdPlan,
    batch: int,
    inner: int,
    col: int,
)
    requires
        storage.mat_fits(true, self_dims, rhs_dtype, dims, contiguous),
        storage.is_mat_plan(true, self_dims, rhs_dtype, dims, contiguous, plan),
        !(plan is Refused),
        0 <= inner < self_dims[1],
        0 <= col < self_dims[0],
    ensures
        plan is Dense,
        storage.is_dequantize_plan((self_dims[0] * self_dims[1]) as usize, plan->weights),
        ({
            let (b, m, n, k) = plan->matmul.bmnk;
            let stride = plan->matmul.rhs_stride@;
            let size = plan->matmul.rhs_dims@;
            &&& b * m == vec_count(dims)
            &&& n == self_dims[0]
            &&& k == self_dims[1]
            &&& size == seq![b, k, n]
            &&& dims.len() == 2 ==> b == 1 && m == dims[0]
            &&& dims.len() == 3 ==> b == dims[0] && m == dims[1]
            &&& stride.len() == 3
            &&& batch * stride[0] + inner * stride[1] + col * stride[2] == col * self_dims[1]
                + inner
            &&& plan->out_dims@.len() == dims.len()
            &&& plan->out_dims@.last() == n
            &&& dims_product(plan->out_dims@) == b * m * n
            &&& forall|i: int| 0 <= i < dims.len() - 1 ==> #[trigger] plan->out_dims@[i] == dims[i]
        }),
{
    lemma_out_elems(dims, self_dims[0]);
    assert(batch * 0 == 0);
    assert(inner * 1 == inner);
}

/// An expert layer reads its sizes off the shapes: the experts, rows and columns of the weights, the
/// tokens and the rows for each of the input, and the experts for each token of the indices. Its
/// input is what its buffer holds from the start on, in the buffer's own type, and its weights are
/// the whole buffer, padding and all.
pub proof fn law_moe_call_reads_shapes(
    storage: QCudaStorage,
    self_dims: Seq<usize>,
    input_dtype: DType,
    input_len: usize,
    input_start: usize,
    in_dims: Seq<usize>,
    ids_dtype: DType,
    idx_dims: Seq<usize>,
)
    requires
        storage.moe_call_fits(
            self_dims,
            input_dtype,
            input_len,
            input_start,
            in_dims,
            ids_dtype,
            idx_dims,
        ),
    ensures
        match storage.moe_call(
            self_dims,
            input_dtype,
            input_len,
            input_start,
            in_dims,
            ids_dtype,
            idx_dims,
        ) {
            Ok(call) => {
                &&& self_dims.len() == 3 && ids_dtype == DType::U32
                &&& call.shape.num_experts == self_dims[0]
                &&& call.shape.n == self_dims[1]
                &&& call.shape.k == self_dims[2]
                &&& call.shape.batch == in_dims[0] == idx_dims[0]
                &&& call.shape.input_dim1 == in_dims[1]
                &&& call.shape.topk == idx_dims[1]
                &&& call.weight_len == storage.data.inner_len
                &&& match call.input {
                    MoeInput::F32 { len } => input_dtype is F32 && input_start + len == input_len,
                    MoeInput::Bf16 { len } => input_dtype is BF16 && input_start + len
                        == input_len,
                    MoeInput::Q8_1 { len } => input_dtype is U8 && input_start + len == input_len,
                }
            },
            Err(e) => match e {
                ErrorOf::MoeWeights { dtype } => dtype == storage.dtype && !(dtype is Q8_0
                    || dtype is Q2K || dtype is Q3K || dtype is Q4K || dtype is Q5K
                    || dtype is Q6K),
                ErrorOf::MoeInput { dtype } => dtype == input_dtype && !(dtype is F32
                    || dtype is BF16 || dtype is U8),
                ErrorOf::UnexpectedDType { expected, got } => expected is U32 && got == ids_dtype
                    && !(got is U32),
                ErrorOf::UnexpectedRank { expected, got, shape } => expected == 3
                    && self_dims.len() != 3 && shape == self_dims,
                _ => false,
            },
        },
{
}

/// Sizes of an ordinary product fit: where the elements of weights, input and output, with room for
/// padding, stay well below what the machine addresses, no product is turned away for its size.
pub proof fn law_ordinary_product_fits(
    storage: QCudaStorage,
    force: bool,
    self_dims: Seq<usize>,
    rhs_dtype: DType,
    dims: Seq<usize>,
    contiguous: Option<(usize, usize)>,
)
    requires
        contiguous is Some ==> ({
            let (start, end) = contiguous->0;
            start <= end
        }),
        storage.data.len * 4 <= usize::MAX,
        self_dims.len() == 2 ==> self_dims[0] * self_dims[1] <= usize::MAX,
        rank_fits(dims) ==> (vec_count(dims) + 1) * (dims.last() + 512) * 36 <= usize::MAX,
        rank_fits(dims) && self_dims.len() == 2 ==> self_dims[0] * vec_count(dims) <= usize::MAX,
        self_dims.len() == 2 && force ==> bytes_of_blocks(
            blocks_of_elems(self_dims[0] * self_dims[1], storage.dtype),
            storage.dtype,
        ) <= storage.data.len,
    ensures
        storage.fwd_fits(force, self_dims, rhs_dtype, dims, contiguous),
{
    if rank_fits(dims) {
        let count = vec_count(dims);
        assert(count >= 0) by {
            if dims.len() == 3 {
                assert(dims[0] * dims[1] >= 0) by (nonlinear_arith);
            }
        }
        let k = dims.last() as int;
        law_ordinary_rows_fit(k, count);
        assert(k * count <= (count + 1) * (k + 512) * 36) by (nonlinear_arith)
            requires
                k >= 0,
                count >= 0,
        ;
        assert(count <= (count + 1) * (k + 512) * 36) by (nonlinear_arith)
            requires
                k >= 0,
                count >= 0,
        ;
        let (b, m) = mat_batch(dims);
        assert(b * m == count) by (nonlinear_arith)
            requires
                b * m == count || b == 1 && m == count,
        ;
        if self_dims.len() == 2 {
            let (x, y) = (self_dims[0] as int, self_dims[1] as int);
            assert(x * y == y * x) by (nonlinear_arith);
            lemma_data_elems_small(storage.data.len, storage.dtype);
        }
    }
}

proof fn lemma_data_elems_small(data_len: usize, dtype: GgmlDType)
    ensures
        data_elems_spec(data_len, dtype) <= data_len * 4,
{
}

/// Weights of ordinary size fit: where four bytes for each element, and for some more, stay within
/// what the machine addresses, so do the bytes of the weights and of their padding.
pub proof fn law_ordinary_weights_fit(el_count: int, dtype: GgmlDType)
    requires
        el_count >= 0,
        (el_count + 768) * 4 <= usize::MAX,
    ensures
        zeros_fits(el_count, dtype),
        elems_bytes(el_count, dtype) + padding_bytes(dtype) <= usize::MAX,
        quantize_takes(
            dtype,
            QuantizeEvent::Encoded { made: Some(elems_bytes(el_count, dtype) as usize) },
        ),
        quantize_takes(
            dtype,
            QuantizeEvent::Copied { bytes: elems_bytes(el_count, dtype) as usize, ok: true },
        ),
{
    law_zeros_padding(el_count, dtype);
    lemma_ceil_quot(el_count, 32);
    lemma_ceil_quot(el_count, 256);
}

/// Steps of quantizing that failed, and those before there are blocks, are taken whatever their
/// sizes.
pub proof fn law_quantize_takes_failures(dtype: GgmlDType, src: DType, size: usize, ok: bool)
    ensures
        quantize_takes(dtype, QuantizeEvent::Start { src, elems: size }),
        quantize_takes(dtype, QuantizeEvent::Fetched { elems: size, ok }),
        quantize_takes(dtype, QuantizeEvent::Encoded { made: None }),
        quantize_takes(dtype, QuantizeEvent::Allocated { bytes: size, ok }),
        quantize_takes(dtype, QuantizeEvent::Copied { bytes: size, ok: false }),
{
}

/// An expert layer whose input starts within its buffer and whose shapes agree on the number of
/// tokens can be made ready.
pub proof fn law_matching_shapes_fit(
    storage: QCudaStorage,
    self_dims: Seq<usize>,
    input_dtype: DType,
    input_len: usize,
    input_start: usize,
    in_dims: Seq<usize>,
    ids_dtype: DType,
    idx_dims: Seq<usize>,
)
    requires
        input_start <= input_len,
        in_dims.len() >= 2,
        idx_dims.len() >= 2,
        in_dims[0] == idx_dims[0],
    ensures
        storage.moe_call_fits(
            self_dims,
            input_dtype,
            input_len,
            input_start,
            in_dims,
            ids_dtype,
            idx_dims,
        ),
        storage.moe_call(
            self_dims,
            input_dtype,
            input_len,
            input_start,
            in_dims,
            ids_dtype,
            idx_dims,
        ) is Ok <==> {
            &&& self_dims.len() == 3
            &&& ids_dtype == DType::U32
            &&& input_dtype is F32 || input_dtype is BF16 || input_dtype is U8
            &&& storage.dtype is Q8_0 || storage.dtype is Q2K || storage.dtype is Q3K
                || storage.dtype is Q4K || storage.dtype is Q5K || storage.dtype is Q6K
        },
{
}

} // verus!
