//! The words that failures are reported in.

use crate::error::ErrorOf;
use crate::text::decimal;
use crate::text::push_decimal;
use vstd::prelude::*;
use vstd::string::StringExecFns;

verus! {

/// The dimensions `d`, separated by commas.
pub open spec fn dims_list(d: Seq<usize>) -> Seq<char>
    decreases d.len(),
{
    if d.len() == 0 {
        Seq::empty()
    } else if d.len() == 1 {
        decimal(d[0] as nat)
    } else {
        dims_list(d.drop_last()) + ", "@ + decimal(d.last() as nat)
    }
}

/// The dimensions `d` as they are shown.
pub open spec fn dims_text(d: Seq<usize>) -> Seq<char> {
    "["@ + dims_list(d) + "]"@
}

/// Appends the dimensions `dims` as they are shown.
pub fn push_dims(out: &mut String, dims: &[usize])
    ensures
        final(out)@ == old(out)@ + dims_text(dims@),
{
    let ghost before = out@;
    out.append("[");
    let mut i: usize = 0;
    assert(dims@.take(0) =~= Seq::<usize>::empty());
    assert(out@ =~= before + "["@ + dims_list(dims@.take(0)));
    while i < dims.len()
        invariant
            i <= dims@.len(),
            out@ == before + "["@ + dims_list(dims@.take(i as int)),
        decreases dims@.len() - i,
    {
        let ghost t = dims@.take(i + 1);
        assert(t.drop_last() =~= dims@.take(i as int));
        if i > 0 {
            out.append(", ");
        }
        push_decimal(out, dims[i]);
        assert(out@ =~= before + "["@ + dims_list(t));
        i = i + 1;
    }
    out.append("]");
    assert(dims@.take(i as int) =~= dims@);
    assert(out@ =~= before + dims_text(dims@));
}

/// A status of the matrix library as it is shown: by its name, or by its number where it has none.
pub open spec fn status_text(status: u32) -> Seq<char> {
    if status == 0 {
        "CUBLAS_STATUS_SUCCESS"@
    } else if status == 1 {
        "CUBLAS_STATUS_NOT_INITIALIZED"@
    } else if status == 3 {
        "CUBLAS_STATUS_ALLOC_FAILED"@
    } else if status == 7 {
        "CUBLAS_STATUS_INVALID_VALUE"@
    } else if status == 8 {
        "CUBLAS_STATUS_ARCH_MISMATCH"@
    } else if status == 11 {
        "CUBLAS_STATUS_MAPPING_ERROR"@
    } else if status == 13 {
        "CUBLAS_STATUS_EXECUTION_FAILED"@
    } else if status == 14 {
        "CUBLAS_STATUS_INTERNAL_ERROR"@
    } else if status == 15 {
        "CUBLAS_STATUS_NOT_SUPPORTED"@
    } else if status == 16 {
        "CUBLAS_STATUS_LICENSE_ERROR"@
    } else {
        decimal(status as nat)
    }
}

/// Appends a status of the matrix library as it is shown.
fn push_status(out: &mut String, status: u32)
    ensures
        final(out)@ == old(out)@ + status_text(status),
{
    if status == 0 {
        out.append("CUBLAS_STATUS_SUCCESS");
    } else if status == 1 {
        out.append("CUBLAS_STATUS_NOT_INITIALIZED");
    } else if status == 3 {
        out.append("CUBLAS_STATUS_ALLOC_FAILED");
    } else if status == 7 {
        out.append("CUBLAS_STATUS_INVALID_VALUE");
    } else if status == 8 {
        out.append("CUBLAS_STATUS_ARCH_MISMATCH");
    } else if status == 11 {
        out.append("CUBLAS_STATUS_MAPPING_ERROR");
    } else if status == 13 {
        out.append("CUBLAS_STATUS_EXECUTION_FAILED");
    } else if status == 14 {
        out.append("CUBLAS_STATUS_INTERNAL_ERROR");
    } else if status == 15 {
        out.append("CUBLAS_STATUS_NOT_SUPPORTED");
    } else if status == 16 {
        out.append("CUBLAS_STATUS_LICENSE_ERROR");
    } else {
        push_decimal(out, status as usize);
    }
}

/// The words that a failure is reported in.
pub open spec fn message_text(e: ErrorOf<Seq<usize>>) -> Seq<char> {
    match e {
        ErrorOf::ArenaExhausted { offset, bytes, total_bytes } => "CaptureArena exhausted: requested offset "@
            + decimal(offset as nat)
            + " + "@
            + decimal(bytes as nat)
            + " bytes exceeds arena size "@
            + decimal(total_bytes as nat)
            + " bytes -- the live capture pass allocated more than the dry run that sized this arena did, meaning the decode step's allocation sequence is NOT static as assumed (see CudaDevice::alloc_mode's doc comment)"@,
        ErrorOf::PinnedExhausted { idx, pool_len } => "CudaDevice::clone_htod_capture_safe: pinned scratch pool exhausted at index "@
            + decimal(idx as nat)
            + " (pool has "@
            + decimal(pool_len as nat)
            + " entries) -- the sizing plan and the real capture pass made a different number of clone_htod_capture_safe calls"@,
        ErrorOf::PinnedLength { idx, have, need } => "CudaDevice::clone_htod_capture_safe: pinned scratch pool entry "@
            + decimal(idx as nat)
            + " has length "@
            + decimal(have as nat)
            + " but this call needs "@
            + decimal(need as nat)
            + " -- the sizing plan and the real capture pass requested different sizes at the same call-order position"@,
        ErrorOf::DummyDType => "Dummy types not supported in CUDA backend"@,
        ErrorOf::UnsupportedDType { dtype, op } => "unsupported dtype "@
            + dtype.label_spec()
            + " for "@
            + op.label_spec(),
        ErrorOf::CublasWorkspace { status } => "cublasSetWorkspace_v2 failed: "@
            + status_text(status),
        ErrorOf::UnsupportedDequantize { dtype } => "unsupported dtype for dequantize "@
            + dtype.label_spec(),
        ErrorOf::UnsupportedMatmul { dtype } => "unsupported dtype for quantized matmul "@
            + dtype.label_spec(),
        ErrorOf::DataSize { data_elems, ncols, nrows } => "unexpected data size "@
            + decimal(data_elems as nat)
            + ", ncols "@
            + decimal(ncols as nat)
            + " "@
            + decimal(nrows as nat),
        ErrorOf::YSize { len, ncols, nrows } => "unexpected y size "@
            + decimal(len as nat)
            + ", ncols "@
            + decimal(ncols as nat)
            + " "@
            + decimal(nrows as nat),
        ErrorOf::BatchSize { b_size } => "only bsize between 1 and 8 are supported, got "@
            + decimal(b_size as nat),
        ErrorOf::LhsSize { data_elems, x_rows, x_cols } => "unexpected lhs size "@
            + decimal(data_elems as nat)
            + ", "@
            + decimal(x_rows as nat)
            + " "@
            + decimal(x_cols as nat),
        ErrorOf::RhsSize { len, y_rows, y_cols } => "unexpected y size "@
            + decimal(len as nat)
            + ", "@
            + decimal(y_rows as nat)
            + " "@
            + decimal(y_cols as nat),
        ErrorOf::InnerSize { x_rows, x_cols, y_rows, y_cols } => "unexpected x/y size "@
            + decimal(x_rows as nat)
            + " "@
            + decimal(x_cols as nat)
            + " "@
            + decimal(y_rows as nat)
            + " "@
            + decimal(y_cols as nat),
        ErrorOf::UnsupportedMoe { dtype } => "unsupported dtype for indexed_moe_forward "@
            + dtype.label_spec(),
        ErrorOf::MoeWeights { dtype } => "The given quantized dtype "@
            + dtype.label_spec()
            + " is not supported for indexed_moe_forward!"@,
        ErrorOf::MoeInput { dtype } => "indexed_moe_forward input must be F32, BF16, or U8 (pre-quantized Q8_1), got "@
            + dtype.label_spec(),
        ErrorOf::MoeInputBytes { have, need } => "indexed_moe_forward: pre-quantized input holds "@
            + decimal(have as nat)
            + " bytes, needs "@
            + decimal(need as nat),
        ErrorOf::MmaInner { k } => "indexed_mul_mat_q4_K_moe_mma: k="@
            + decimal(k as nat)
            + " must be a multiple of QK_K=256"@,
        ErrorOf::MmaRows => "indexed_mul_mat_q4_K_moe_mma: n=0 (no output rows)"@,
        ErrorOf::MoeUnchunkable { total_tasks, input_dim1: 1, topk } => "indexed_moe_forward: total_tasks="@
            + decimal(total_tasks as nat)
            + " exceeds the tiled MMQ kernel's 1024-task shared list and so do the topk="@
            + decimal(topk as nat)
            + " tasks of a single token -- refusing the unchunked launch, which would silently drop tasks in nondeterministic order"@,
        ErrorOf::MoeUnchunkable { total_tasks, input_dim1, topk } => "indexed_moe_forward: total_tasks="@
            + decimal(total_tasks as nat)
            + " exceeds the tiled MMQ kernel's 1024-task shared list and input_dim1="@
            + decimal(input_dim1 as nat)
            + " matches neither chunkable shape (1 or topk="@
            + decimal(topk as nat)
            + ") -- refusing the unchunked launch, which would silently drop tasks in nondeterministic order"@,
        ErrorOf::UnexpectedRank { expected, got, shape } => "unexpected rank, expected: "@
            + decimal(expected as nat)
            + ", got: "@
            + decimal(got as nat)
            + " ("@
            + dims_text(shape)
            + ")"@,
        ErrorOf::MatmulDim { lhs, rhs } => "mismatch on matmul dim "@
            + dims_text(lhs)
            + " "@
            + dims_text(rhs),
        ErrorOf::VecShape { shape } => "unexpected rhs shape in dmmv "@ + dims_text(shape),
        ErrorOf::MatShape { shape } => "unexpected shape for input "@ + dims_text(shape),
        ErrorOf::Reshape { elems, shape } => "shape mismatch in reshape, lhs: ["@
            + decimal(elems as nat)
            + "], rhs: "@
            + dims_text(shape),
        ErrorOf::RequiresContiguous { op } => op.label_spec()
            + " only supports contiguous tensors"@,
        ErrorOf::UnexpectedDType { expected, got } => "unexpected dtype, expected: "@
            + expected.label_spec()
            + ", got: "@
            + got.label_spec(),
        ErrorOf::OnlyF32 => "only f32 can be quantized"@,
        ErrorOf::NotCompiledWithCudaSupport => "the candle crate has not been built with cuda support"@,
    }
}

impl ErrorOf<Vec<usize>> {
    /// The words that the failure is reported in.
    pub fn message(&self) -> (r: String)
        ensures
            r@ == message_text(self@),
    {
        match self {
            ErrorOf::ArenaExhausted { offset, bytes, total_bytes } => {
                let mut out: String = "CaptureArena exhausted: requested offset ".to_owned();
                push_decimal(&mut out, *offset);
                out.append(" + ");
                push_decimal(&mut out, *bytes);
                out.append(" bytes exceeds arena size ");
                push_decimal(&mut out, *total_bytes);
                out.append(" bytes -- the live capture pass allocated more than the dry run that sized this arena did, meaning the decode step's allocation sequence is NOT static as assumed (see CudaDevice::alloc_mode's doc comment)");
                out
            },
            ErrorOf::PinnedExhausted { idx, pool_len } => {
                let mut out: String = "CudaDevice::clone_htod_capture_safe: pinned scratch pool exhausted at index ".to_owned();
                push_decimal(&mut out, *idx);
                out.append(" (pool has ");
                push_decimal(&mut out, *pool_len);
                out.append(" entries) -- the sizing plan and the real capture pass made a different number of clone_htod_capture_safe calls");
                out
            },
            ErrorOf::PinnedLength { idx, have, need } => {
                let mut out: String = "CudaDevice::clone_htod_capture_safe: pinned scratch pool entry ".to_owned();
                push_decimal(&mut out, *idx);
                out.append(" has length ");
                push_decimal(&mut out, *have);
                out.append(" but this call needs ");
                push_decimal(&mut out, *need);
                out.append(" -- the sizing plan and the real capture pass requested different sizes at the same call-order position");
                out
            },
            ErrorOf::DummyDType => "Dummy types not supported in CUDA backend".to_owned(),
            ErrorOf::UnsupportedDType { dtype, op } => {
                let mut out: String = "unsupported dtype ".to_owned();
                out.append(dtype.label());
                out.append(" for ");
                out.append(op.label());
                out
            },
            ErrorOf::CublasWorkspace { status } => {
                let mut out: String = "cublasSetWorkspace_v2 failed: ".to_owned();
                push_status(&mut out, *status);
                out
            },
            ErrorOf::UnsupportedDequantize { dtype } => {
                let mut out: String = "unsupported dtype for dequantize ".to_owned();
                out.append(dtype.label());
                out
            },
            ErrorOf::UnsupportedMatmul { dtype } => {
                let mut out: String = "unsupported dtype for quantized matmul ".to_owned();
                out.append(dtype.label());
                out
            },
            ErrorOf::DataSize { data_elems, ncols, nrows } => {
                let mut out: String = "unexpected data size ".to_owned();
                push_decimal(&mut out, *data_elems);
                out.append(", ncols ");
                push_decimal(&mut out, *ncols);
                out.append(" ");
                push_decimal(&mut out, *nrows);
                out
            },
            ErrorOf::YSize { len, ncols, nrows } => {
                let mut out: String = "unexpected y size ".to_owned();
                push_decimal(&mut out, *len);
                out.append(", ncols ");
                push_decimal(&mut out, *ncols);
                out.append(" ");
                push_decimal(&mut out, *nrows);
                out
            },
            ErrorOf::BatchSize { b_size } => {
                let mut out: String = "only bsize between 1 and 8 are supported, got ".to_owned();
                push_decimal(&mut out, *b_size);
                out
            },
            ErrorOf::LhsSize { data_elems, x_rows, x_cols } => {
                let mut out: String = "unexpected lhs size ".to_owned();
                push_decimal(&mut out, *data_elems);
                out.append(", ");
                push_decimal(&mut out, *x_rows);
                out.append(" ");
                push_decimal(&mut out, *x_cols);
                out
            },
            ErrorOf::RhsSize { len, y_rows, y_cols } => {
                let mut out: String = "unexpected y size ".to_owned();
                push_decimal(&mut out, *len);
                out.append(", ");
                push_decimal(&mut out, *y_rows);
                out.append(" ");
                push_decimal(&mut out, *y_cols);
                out
            },
            ErrorOf::InnerSize { x_rows, x_cols, y_rows, y_cols } => {
                let mut out: String = "unexpected x/y size ".to_owned();
                push_decimal(&mut out, *x_rows);
                out.append(" ");
                push_decimal(&mut out, *x_cols);
                out.append(" ");
                push_decimal(&mut out, *y_rows);
                out.append(" ");
                push_decimal(&mut out, *y_cols);
                out
            },
            ErrorOf::UnsupportedMoe { dtype } => {
                let mut out: String = "unsupported dtype for indexed_moe_forward ".to_owned();
                out.append(dtype.label());
                out
            },
            ErrorOf::MoeWeights { dtype } => {
                let mut out: String = "The given quantized dtype ".to_owned();
                out.append(dtype.label());
                out.append(" is not supported for indexed_moe_forward!");
                out
            },
            ErrorOf::MoeInput { dtype } => {
                let mut out: String = "indexed_moe_forward input must be F32, BF16, or U8 (pre-quantized Q8_1), got ".to_owned();
                out.append(dtype.label());
                out
            },
            ErrorOf::MoeInputBytes { have, need } => {
                let mut out: String = "indexed_moe_forward: pre-quantized input holds ".to_owned();
                push_decimal(&mut out, *have);
                out.append(" bytes, needs ");
                push_decimal(&mut out, *need);
                out
            },
            ErrorOf::MmaInner { k } => {
                let mut out: String = "indexed_mul_mat_q4_K_moe_mma: k=".to_owned();
                push_decimal(&mut out, *k);
                out.append(" must be a multiple of QK_K=256");
                out
            },
            ErrorOf::MmaRows => "indexed_mul_mat_q4_K_moe_mma: n=0 (no output rows)".to_owned(),
            ErrorOf::MoeUnchunkable { total_tasks, input_dim1, topk } => {
                let mut out: String = "indexed_moe_forward: total_tasks=".to_owned();
                push_decimal(&mut out, *total_tasks);
                if *input_dim1 == 1 {
                    out.append(" exceeds the tiled MMQ kernel's 1024-task shared list and so do the topk=");
                    push_decimal(&mut out, *topk);
                    out.append(" tasks of a single token -- refusing the unchunked launch, which would silently drop tasks in nondeterministic order");
                    return out;
                }
                out.append(" exceeds the tiled MMQ kernel's 1024-task shared list and input_dim1=");
                push_decimal(&mut out, *input_dim1);
                out.append(" matches neither chunkable shape (1 or topk=");
                push_decimal(&mut out, *topk);
                out.append(") -- refusing the unchunked launch, which would silently drop tasks in nondeterministic order");
                out
            },
            ErrorOf::UnexpectedRank { expected, got, shape } => {
                let mut out: String = "unexpected rank, expected: ".to_owned();
                push_decimal(&mut out, *expected);
                out.append(", got: ");
                push_decimal(&mut out, *got);
                out.append(" (");
                push_dims(&mut out, shape.as_slice());
                out.append(")");
                out
            },
            ErrorOf::MatmulDim { lhs, rhs } => {
                let mut out: String = "mismatch on matmul dim ".to_owned();
                push_dims(&mut out, lhs.as_slice());
                out.append(" ");
                push_dims(&mut out, rhs.as_slice());
                out
            },
            ErrorOf::VecShape { shape } => {
                let mut out: String = "unexpected rhs shape in dmmv ".to_owned();
                push_dims(&mut out, shape.as_slice());
                out
            },
            ErrorOf::MatShape { shape } => {
                let mut out: String = "unexpected shape for input ".to_owned();
                push_dims(&mut out, shape.as_slice());
                out
            },
            ErrorOf::Reshape { elems, shape } => {
                let mut out: String = "shape mismatch in reshape, lhs: [".to_owned();
                push_decimal(&mut out, *elems);
                out.append("], rhs: ");
                push_dims(&mut out, shape.as_slice());
                out
            },
            ErrorOf::RequiresContiguous { op } => {
                let mut out: String = op.label().to_owned();
                out.append(" only supports contiguous tensors");
                out
            },
            ErrorOf::UnexpectedDType { expected, got } => {
                let mut out: String = "unexpected dtype, expected: ".to_owned();
                out.append(expected.label());
                out.append(", got: ");
                out.append(got.label());
                out
            },
            ErrorOf::OnlyF32 => "only f32 can be quantized".to_owned(),
            ErrorOf::NotCompiledWithCudaSupport => "the candle crate has not been built with cuda support".to_owned(),
        }
    }
}

/// Dimensions are shown one after another between brackets: one more is added behind a comma.
pub proof fn law_dims_are_listed(d: Seq<usize>, n: usize)
    ensures
        dims_text(Seq::<usize>::empty()) == "[]"@,
        dims_text(seq![n]) == "["@ + decimal(n as nat) + "]"@,
        d.len() > 0 ==> dims_text(d.push(n)) == dims_text(d).drop_last() + ", "@ + decimal(
            n as nat,
        ) + "]"@,
{
    reveal_strlit("[]");
    reveal_strlit("[");
    reveal_strlit("]");
    assert(dims_text(Seq::<usize>::empty()) =~= "[]"@);
    assert(dims_list(seq![n]) == decimal(n as nat));
    if d.len() > 0 {
        assert(d.push(n).drop_last() =~= d);
        assert(dims_text(d).drop_last() =~= "["@ + dims_list(d));
        assert(dims_text(d.push(n)) =~= dims_text(d).drop_last() + ", "@ + decimal(n as nat)
            + "]"@);
    }
}

} // verus!
