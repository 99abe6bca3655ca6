//! The failures that planning can end in.

use crate::dtype::DType;
use crate::dtype::GgmlDType;
use vstd::prelude::*;

verus! {

/// Operation that an error speaks of.
#[derive(Clone, Copy, Debug, PartialEq, Eq, Structural)]
pub enum Op {
    RandUniform,
    RandNormal,
    StorageFromSlice,
    StorageFromCpuStorage,
    StorageFromCpuStorageOwned,
    Dmmv,
    QuantizedMatmul,
}

/// A failure; `S` is the type that carries a tensor shape.
#[allow(inconsistent_fields)]
#[derive(Debug, PartialEq, Eq)]
pub enum ErrorOf<S> {
    /// A capture pass asked its arena for more than the arena holds.
    ArenaExhausted { offset: usize, bytes: usize, total_bytes: usize },
    /// A capture pass made more metadata uploads than the staging pool has entries.
    PinnedExhausted { idx: usize, pool_len: usize },
    /// A capture pass asked for another length than the staging pool entry has.
    PinnedLength { idx: usize, have: usize, need: usize },
    /// The device has no storage for the packed sub-byte and scale formats.
    DummyDType,
    /// The operation does not take this element type.
    UnsupportedDType { dtype: DType, op: Op },
    /// cuBLAS refused its workspace with this status.
    CublasWorkspace { status: u32 },
    UnsupportedDequantize { dtype: GgmlDType },
    UnsupportedMatmul { dtype: GgmlDType },
    /// The quantized matrix holds fewer elements than `ncols * nrows`.
    DataSize { data_elems: usize, ncols: usize, nrows: usize },
    /// The vector operand has the wrong number of elements.
    YSize { len: usize, ncols: usize, nrows: usize },
    /// The vector kernels take one to eight vectors.
    BatchSize { b_size: usize },
    /// The quantized matrix holds fewer elements than `x_rows * x_cols`.
    LhsSize { data_elems: usize, x_rows: usize, x_cols: usize },
    /// The matrix operand does not hold `y_rows * y_cols` elements.
    RhsSize { len: usize, y_rows: usize, y_cols: usize },
    /// The inner dimensions of the two matrices differ.
    InnerSize { x_rows: usize, x_cols: usize, y_rows: usize, y_cols: usize },
    /// No expert kernel takes this block format.
    UnsupportedMoe { dtype: GgmlDType },
    /// The weights of an expert layer have a block format that the layer does not take.
    MoeWeights { dtype: GgmlDType },
    /// The activations of an expert layer are neither F32 nor BF16 nor U8.
    MoeInput { dtype: DType },
    /// The quantized activations of an expert layer are too short.
    MoeInputBytes { have: usize, need: usize },
    /// The tensor-core tile needs a multiple of a whole block as inner dimension.
    MmaInner { k: usize },
    /// The tensor-core tile needs at least one output row.
    MmaRows,
    /// The tasks exceed the shared task list of the kernel and cannot be split.
    MoeUnchunkable { total_tasks: usize, input_dim1: usize, topk: usize },
    /// A shape has another rank than the operation takes.
    UnexpectedRank { expected: usize, got: usize, shape: S },
    /// The inner dimensions of a weight matrix and its input differ.
    MatmulDim { lhs: S, rhs: S },
    /// The vector kernels take inputs of rank two or three.
    VecShape { shape: S },
    /// The matrix kernels take inputs of rank two or three.
    MatShape { shape: S },
    /// A view has another number of elements than the shape it is given.
    Reshape { elems: usize, shape: S },
    /// The operation needs a contiguous input.
    RequiresContiguous { op: Op },
    /// The operation needs another element type.
    UnexpectedDType { expected: DType, got: DType },
    /// Only F32 tensors can be quantized.
    OnlyF32,
    /// The build has no device support.
    NotCompiledWithCudaSupport,
}

/// A failure as callers get it.
pub type Error = ErrorOf<Vec<usize>>;

impl View for ErrorOf<Vec<usize>> {
    type V = ErrorOf<Seq<usize>>;

    open spec fn view(&self) -> ErrorOf<Seq<usize>> {
        match *self {
            ErrorOf::ArenaExhausted { offset, bytes, total_bytes } => ErrorOf::ArenaExhausted {
                offset,
                bytes,
                total_bytes,
            },
            ErrorOf::PinnedExhausted { idx, pool_len } => ErrorOf::PinnedExhausted { idx, pool_len },
            ErrorOf::PinnedLength { idx, have, need } => ErrorOf::PinnedLength { idx, have, need },
            ErrorOf::DummyDType => ErrorOf::DummyDType,
            ErrorOf::UnsupportedDType { dtype, op } => ErrorOf::UnsupportedDType { dtype, op },
            ErrorOf::CublasWorkspace { status } => ErrorOf::CublasWorkspace { status },
            ErrorOf::UnsupportedDequantize { dtype } => ErrorOf::UnsupportedDequantize { dtype },
            ErrorOf::UnsupportedMatmul { dtype } => ErrorOf::UnsupportedMatmul { dtype },
            ErrorOf::DataSize { data_elems, ncols, nrows } => ErrorOf::DataSize {
                data_elems,
                ncols,
                nrows,
            },
            ErrorOf::YSize { len, ncols, nrows } => ErrorOf::YSize { len, ncols, nrows },
            ErrorOf::BatchSize { b_size } => ErrorOf::BatchSize { b_size },
            ErrorOf::LhsSize { data_elems, x_rows, x_cols } => ErrorOf::LhsSize {
                data_elems,
                x_rows,
                x_cols,
            },
            ErrorOf::RhsSize { len, y_rows, y_cols } => ErrorOf::RhsSize { len, y_rows, y_cols },
            ErrorOf::InnerSize { x_rows, x_cols, y_rows, y_cols } => ErrorOf::InnerSize {
                x_rows,
                x_cols,
                y_rows,
                y_cols,
            },
            ErrorOf::UnsupportedMoe { dtype } => ErrorOf::UnsupportedMoe { dtype },
            ErrorOf::MoeWeights { dtype } => ErrorOf::MoeWeights { dtype },
            ErrorOf::MoeInput { dtype } => ErrorOf::MoeInput { dtype },
            ErrorOf::MoeInputBytes { have, need } => ErrorOf::MoeInputBytes { have, need },
            ErrorOf::MmaInner { k } => ErrorOf::MmaInner { k },
            ErrorOf::MmaRows => ErrorOf::MmaRows,
            ErrorOf::MoeUnchunkable { total_tasks, input_dim1, topk } => ErrorOf::MoeUnchunkable {
                total_tasks,
                input_dim1,
                topk,
            },
            ErrorOf::UnexpectedRank { expected, got, shape } => ErrorOf::UnexpectedRank {
                expected,
                got,
                shape: shape@,
            },
            ErrorOf::MatmulDim { lhs, rhs } => ErrorOf::MatmulDim { lhs: lhs@, rhs: rhs@ },
            ErrorOf::VecShape { shape } => ErrorOf::VecShape { shape: shape@ },
            ErrorOf::MatShape { shape } => ErrorOf::MatShape { shape: shape@ },
            ErrorOf::Reshape { elems, shape } => ErrorOf::Reshape { elems, shape: shape@ },
            ErrorOf::RequiresContiguous { op } => ErrorOf::RequiresContiguous { op },
            ErrorOf::UnexpectedDType { expected, got } => ErrorOf::UnexpectedDType { expected, got },
            ErrorOf::OnlyF32 => ErrorOf::OnlyF32,
            ErrorOf::NotCompiledWithCudaSupport => ErrorOf::NotCompiledWithCudaSupport,
        }
    }
}

/// A failed or succeeded operation that returns nothing, as a mathematical value.
pub open spec fn result_unit(r: Result<(), Error>) -> Result<(), ErrorOf<Seq<usize>>> {
    match r {
        Ok(_) => Ok(()),
        Err(e) => Err(e@),
    }
}

/// A failed or succeeded operation that returns dimensions, as a mathematical value.
pub open spec fn result_dims(r: Result<Vec<usize>, Error>) -> Result<
    Seq<usize>,
    ErrorOf<Seq<usize>>,
> {
    match r {
        Ok(d) => Ok(d@),
        Err(e) => Err(e@),
    }
}

} // verus!
