//! The names of formats and kernels.

use crate::dtype::DType;
use crate::dtype::GgmlDType;
use crate::error::Op;
use crate::launch::Kernel;
use crate::text::decimal;
use crate::text::law_decimal_distinct;
use crate::text::push_decimal;
use vstd::prelude::*;
use vstd::string::StringExecFns;

verus! {

impl DType {
    /// The element type as it is shown.
    pub open spec fn label_spec(&self) -> Seq<char> {
        match self {
            DType::U8 => "U8"@,
            DType::U32 => "U32"@,
            DType::I16 => "I16"@,
            DType::I32 => "I32"@,
            DType::I64 => "I64"@,
            DType::BF16 => "BF16"@,
            DType::F16 => "F16"@,
            DType::F32 => "F32"@,
            DType::F64 => "F64"@,
            DType::F8E4M3 => "F8E4M3"@,
            DType::F6E2M3 => "F6E2M3"@,
            DType::F6E3M2 => "F6E3M2"@,
            DType::F4 => "F4"@,
            DType::F8E8M0 => "F8E8M0"@,
        }
    }

    /// The element type as it is shown.
    pub fn label(&self) -> (r: &'static str)
        ensures
            r@ == self.label_spec(),
    {
        match self {
            DType::U8 => "U8",
            DType::U32 => "U32",
            DType::I16 => "I16",
            DType::I32 => "I32",
            DType::I64 => "I64",
            DType::BF16 => "BF16",
            DType::F16 => "F16",
            DType::F32 => "F32",
            DType::F64 => "F64",
            DType::F8E4M3 => "F8E4M3",
            DType::F6E2M3 => "F6E2M3",
            DType::F6E3M2 => "F6E3M2",
            DType::F4 => "F4",
            DType::F8E8M0 => "F8E8M0",
        }
    }
}

impl GgmlDType {
    /// The block format as it is shown.
    pub open spec fn label_spec(&self) -> Seq<char> {
        match self {
            GgmlDType::F32 => "F32"@,
            GgmlDType::F16 => "F16"@,
            GgmlDType::BF16 => "BF16"@,
            GgmlDType::Q4_0 => "Q4_0"@,
            GgmlDType::Q4_1 => "Q4_1"@,
            GgmlDType::Q5_0 => "Q5_0"@,
            GgmlDType::Q5_1 => "Q5_1"@,
            GgmlDType::Q8_0 => "Q8_0"@,
            GgmlDType::Q8_1 => "Q8_1"@,
            GgmlDType::Q2K => "Q2K"@,
            GgmlDType::Q3K => "Q3K"@,
            GgmlDType::Q4K => "Q4K"@,
            GgmlDType::Q5K => "Q5K"@,
            GgmlDType::Q6K => "Q6K"@,
            GgmlDType::Q8K => "Q8K"@,
        }
    }

    /// The block format as it is shown.
    pub fn label(&self) -> (r: &'static str)
        ensures
            r@ == self.label_spec(),
    {
        match self {
            GgmlDType::F32 => "F32",
            GgmlDType::F16 => "F16",
            GgmlDType::BF16 => "BF16",
            GgmlDType::Q4_0 => "Q4_0",
            GgmlDType::Q4_1 => "Q4_1",
            GgmlDType::Q5_0 => "Q5_0",
            GgmlDType::Q5_1 => "Q5_1",
            GgmlDType::Q8_0 => "Q8_0",
            GgmlDType::Q8_1 => "Q8_1",
            GgmlDType::Q2K => "Q2K",
            GgmlDType::Q3K => "Q3K",
            GgmlDType::Q4K => "Q4K",
            GgmlDType::Q5K => "Q5K",
            GgmlDType::Q6K => "Q6K",
            GgmlDType::Q8K => "Q8K",
        }
    }

    /// The block format in the names of most kernels.
    pub open spec fn tag_spec(&self) -> Seq<char> {
        match self {
            GgmlDType::F32 => "f32"@,
            GgmlDType::F16 => "f16"@,
            GgmlDType::BF16 => "bf16"@,
            GgmlDType::Q4_0 => "q4_0"@,
            GgmlDType::Q4_1 => "q4_1"@,
            GgmlDType::Q5_0 => "q5_0"@,
            GgmlDType::Q5_1 => "q5_1"@,
            GgmlDType::Q8_0 => "q8_0"@,
            GgmlDType::Q8_1 => "q8_1"@,
            GgmlDType::Q2K => "q2_K"@,
            GgmlDType::Q3K => "q3_K"@,
            GgmlDType::Q4K => "q4_K"@,
            GgmlDType::Q5K => "q5_K"@,
            GgmlDType::Q6K => "q6_K"@,
            GgmlDType::Q8K => "q8_K"@,
        }
    }

    /// The block format in the names of most kernels.
    pub fn tag(&self) -> (r: &'static str)
        ensures
            r@ == self.tag_spec(),
    {
        match self {
            GgmlDType::F32 => "f32",
            GgmlDType::F16 => "f16",
            GgmlDType::BF16 => "bf16",
            GgmlDType::Q4_0 => "q4_0",
            GgmlDType::Q4_1 => "q4_1",
            GgmlDType::Q5_0 => "q5_0",
            GgmlDType::Q5_1 => "q5_1",
            GgmlDType::Q8_0 => "q8_0",
            GgmlDType::Q8_1 => "q8_1",
            GgmlDType::Q2K => "q2_K",
            GgmlDType::Q3K => "q3_K",
            GgmlDType::Q4K => "q4_K",
            GgmlDType::Q5K => "q5_K",
            GgmlDType::Q6K => "q6_K",
            GgmlDType::Q8K => "q8_K",
        }
    }

    /// The block format in the names of the kernels that unpack weights.
    pub open spec fn lower_tag_spec(&self) -> Seq<char> {
        match self {
            GgmlDType::F32 => "f32"@,
            GgmlDType::F16 => "f16"@,
            GgmlDType::BF16 => "bf16"@,
            GgmlDType::Q4_0 => "q4_0"@,
            GgmlDType::Q4_1 => "q4_1"@,
            GgmlDType::Q5_0 => "q5_0"@,
            GgmlDType::Q5_1 => "q5_1"@,
            GgmlDType::Q8_0 => "q8_0"@,
            GgmlDType::Q8_1 => "q8_1"@,
            GgmlDType::Q2K => "q2_k"@,
            GgmlDType::Q3K => "q3_k"@,
            GgmlDType::Q4K => "q4_k"@,
            GgmlDType::Q5K => "q5_k"@,
            GgmlDType::Q6K => "q6_k"@,
            GgmlDType::Q8K => "q8_k"@,
        }
    }

    /// The block format in the names of the kernels that unpack weights.
    pub fn lower_tag(&self) -> (r: &'static str)
        ensures
            r@ == self.lower_tag_spec(),
    {
        match self {
            GgmlDType::F32 => "f32",
            GgmlDType::F16 => "f16",
            GgmlDType::BF16 => "bf16",
            GgmlDType::Q4_0 => "q4_0",
            GgmlDType::Q4_1 => "q4_1",
            GgmlDType::Q5_0 => "q5_0",
            GgmlDType::Q5_1 => "q5_1",
            GgmlDType::Q8_0 => "q8_0",
            GgmlDType::Q8_1 => "q8_1",
            GgmlDType::Q2K => "q2_k",
            GgmlDType::Q3K => "q3_k",
            GgmlDType::Q4K => "q4_k",
            GgmlDType::Q5K => "q5_k",
            GgmlDType::Q6K => "q6_k",
            GgmlDType::Q8K => "q8_k",
        }
    }

    /// The block format in the names of the task-major expert kernels.
    pub open spec fn flat_tag_spec(&self) -> Seq<char> {
        match self {
            GgmlDType::F32 => "f32"@,
            GgmlDType::F16 => "f16"@,
            GgmlDType::BF16 => "bf16"@,
            GgmlDType::Q4_0 => "q4_0"@,
            GgmlDType::Q4_1 => "q4_1"@,
            GgmlDType::Q5_0 => "q5_0"@,
            GgmlDType::Q5_1 => "q5_1"@,
            GgmlDType::Q8_0 => "q8_0"@,
            GgmlDType::Q8_1 => "q8_1"@,
            GgmlDType::Q2K => "q2k"@,
            GgmlDType::Q3K => "q3k"@,
            GgmlDType::Q4K => "q4k"@,
            GgmlDType::Q5K => "q5k"@,
            GgmlDType::Q6K => "q6k"@,
            GgmlDType::Q8K => "q8k"@,
        }
    }

    /// The block format in the names of the task-major expert kernels.
    pub fn flat_tag(&self) -> (r: &'static str)
        ensures
            r@ == self.flat_tag_spec(),
    {
        match self {
            GgmlDType::F32 => "f32",
            GgmlDType::F16 => "f16",
            GgmlDType::BF16 => "bf16",
            GgmlDType::Q4_0 => "q4_0",
            GgmlDType::Q4_1 => "q4_1",
            GgmlDType::Q5_0 => "q5_0",
            GgmlDType::Q5_1 => "q5_1",
            GgmlDType::Q8_0 => "q8_0",
            GgmlDType::Q8_1 => "q8_1",
            GgmlDType::Q2K => "q2k",
            GgmlDType::Q3K => "q3k",
            GgmlDType::Q4K => "q4k",
            GgmlDType::Q5K => "q5k",
            GgmlDType::Q6K => "q6k",
            GgmlDType::Q8K => "q8k",
        }
    }

    /// The format holds its scales on two levels.
    pub open spec fn is_k_spec(&self) -> bool {
        self is Q2K || self is Q3K || self is Q4K || self is Q5K || self is Q6K || self is Q8K
    }

    /// Tells the formats that hold their scales on two levels.
    pub fn is_k(&self) -> (r: bool)
        ensures
            r == self.is_k_spec(),
    {
        matches!(
            self,
            GgmlDType::Q2K | GgmlDType::Q3K | GgmlDType::Q4K | GgmlDType::Q5K | GgmlDType::Q6K
            | GgmlDType::Q8K
        )
    }
}

impl Op {
    /// The operation as it is shown.
    pub open spec fn label_spec(&self) -> Seq<char> {
        match self {
            Op::RandUniform => "rand_uniform"@,
            Op::RandNormal => "rand_normal"@,
            Op::StorageFromSlice => "storage_from_slice"@,
            Op::StorageFromCpuStorage => "storage_from_cpu_storage"@,
            Op::StorageFromCpuStorageOwned => "storage_from_cpu_storage_owned"@,
            Op::Dmmv => "dmmv"@,
            Op::QuantizedMatmul => "quantized-matmul"@,
        }
    }

    /// The operation as it is shown.
    pub fn label(&self) -> (r: &'static str)
        ensures
            r@ == self.label_spec(),
    {
        match self {
            Op::RandUniform => "rand_uniform",
            Op::RandNormal => "rand_normal",
            Op::StorageFromSlice => "storage_from_slice",
            Op::StorageFromCpuStorage => "storage_from_cpu_storage",
            Op::StorageFromCpuStorageOwned => "storage_from_cpu_storage_owned",
            Op::Dmmv => "dmmv",
            Op::QuantizedMatmul => "quantized-matmul",
        }
    }
}

impl Kernel {
    /// The name by which the module knows the kernel.
    pub open spec fn name_spec(&self) -> Seq<char> {
        match *self {
            Kernel::QuantizeQ8_1 => "quantize_q8_1"@,
            Kernel::QuantizeQ8_1Bf16 => "quantize_q8_1_bf16"@,
            Kernel::DequantizeF32 { dtype } => "dequantize_block_"@ + dtype.tag_spec() + "_f32"@,
            Kernel::DequantizeF16 { dtype } => "dequantize_block_"@ + dtype.tag_spec() + "_f16"@,
            Kernel::DequantizeMulMatVec { dtype } => "dequantize_mul_mat_vec_"@
                + dtype.lower_tag_spec() + (if dtype.is_k_spec() {
                ""@
            } else {
                "_cuda"@
            }),
            Kernel::MulMatVecQ8_1 { dtype, b_size } => "mul_mat_vec_"@ + dtype.tag_spec()
                + "_q8_1_cuda"@ + decimal(b_size as nat),
            Kernel::MulMatQ8_1 { dtype } => "mul_mat_"@ + dtype.tag_spec(),
            Kernel::MoeMma => "indexed_mul_mat_q4_K_moe_mma8w"@,
            Kernel::MoeTiled { dtype, y64 } => "indexed_mul_mat_"@ + dtype.tag_spec() + "_moe"@
                + (if y64 {
                "_y64"@
            } else {
                ""@
            }),
            Kernel::MoeGrouped => "indexed_moe_forward_q8_0_q8_1_grp"@,
            Kernel::MoeTask { dtype, warp_rows } => "indexed_moe_forward_"@
                + dtype.flat_tag_spec() + "_q8_1"@ + (if warp_rows {
                "_wr"@
            } else {
                ""@
            }),
            Kernel::MoeChecksum => "cerebra_mmq_checksum"@,
        }
    }

    /// The name by which the module knows the kernel.
    pub fn name(&self) -> (r: String)
        ensures
            r@ == self.name_spec(),
    {
        match *self {
            Kernel::QuantizeQ8_1 => "quantize_q8_1".to_owned(),
            Kernel::QuantizeQ8_1Bf16 => "quantize_q8_1_bf16".to_owned(),
            Kernel::DequantizeF32 { dtype } => {
                let mut out: String = "dequantize_block_".to_owned();
                out.append(dtype.tag());
                out.append("_f32");
                out
            },
            Kernel::DequantizeF16 { dtype } => {
                let mut out: String = "dequantize_block_".to_owned();
                out.append(dtype.tag());
                out.append("_f16");
                out
            },
            Kernel::DequantizeMulMatVec { dtype } => {
                let mut out: String = "dequantize_mul_mat_vec_".to_owned();
                out.append(dtype.lower_tag());
                out.append(
                    if dtype.is_k() {
                        ""
                    } else {
                        "_cuda"
                    },
                );
                out
            },
            Kernel::MulMatVecQ8_1 { dtype, b_size } => {
                let mut out: String = "mul_mat_vec_".to_owned();
                out.append(dtype.tag());
                out.append("_q8_1_cuda");
                push_decimal(&mut out, b_size);
                out
            },
            Kernel::MulMatQ8_1 { dtype } => {
                let mut out: String = "mul_mat_".to_owned();
                out.append(dtype.tag());
                out
            },
            Kernel::MoeMma => "indexed_mul_mat_q4_K_moe_mma8w".to_owned(),
            Kernel::MoeTiled { dtype, y64 } => {
                let mut out: String = "indexed_mul_mat_".to_owned();
                out.append(dtype.tag());
                out.append("_moe");
                out.append(
                    if y64 {
                        "_y64"
                    } else {
                        ""
                    },
                );
                out
            },
            Kernel::MoeGrouped => "indexed_moe_forward_q8_0_q8_1_grp".to_owned(),
            Kernel::MoeTask { dtype, warp_rows } => {
                let mut out: String = "indexed_moe_forward_".to_owned();
                out.append(dtype.flat_tag());
                out.append("_q8_1");
                out.append(
                    if warp_rows {
                        "_wr"
                    } else {
                        ""
                    },
                );
                out
            },
            Kernel::MoeChecksum => "cerebra_mmq_checksum".to_owned(),
        }
    }
}

/// The kernels for different numbers of vectors have different names, and so have the two kernels of
/// a format that differ in their tile or in what a warp computes.
pub proof fn law_variants_have_own_names(dtype: GgmlDType, a: usize, b: usize)
    ensures
        (Kernel::MulMatVecQ8_1 { dtype, b_size: a }).name_spec() == (Kernel::MulMatVecQ8_1 {
            dtype,
            b_size: b,
        }).name_spec() ==> a == b,
        (Kernel::MoeTiled { dtype, y64: true }).name_spec() != (Kernel::MoeTiled {
            dtype,
            y64: false,
        }).name_spec(),
        (Kernel::MoeTask { dtype, warp_rows: true }).name_spec() != (Kernel::MoeTask {
            dtype,
            warp_rows: false,
        }).name_spec(),
        (Kernel::DequantizeF32 { dtype }).name_spec() != (Kernel::DequantizeF16 {
            dtype,
        }).name_spec(),
{
    reveal_strlit("");
    reveal_strlit("_y64");
    reveal_strlit("_wr");
    reveal_strlit("_f32");
    reveal_strlit("_f16");
    let name_a = (Kernel::MulMatVecQ8_1 { dtype, b_size: a }).name_spec();
    let name_b = (Kernel::MulMatVecQ8_1 { dtype, b_size: b }).name_spec();
    if name_a == name_b {
        let front = ("mul_mat_vec_"@ + dtype.tag_spec() + "_q8_1_cuda"@).len() as int;
        assert(name_a.skip(front) =~= decimal(a as nat));
        assert(name_b.skip(front) =~= decimal(b as nat));
        law_decimal_distinct(a as nat, b as nat);
    }
    let tiled = (Kernel::MoeTiled { dtype, y64: false }).name_spec();
    assert((Kernel::MoeTiled { dtype, y64: true }).name_spec().len() == tiled.len() + 4);
    let task = (Kernel::MoeTask { dtype, warp_rows: false }).name_spec();
    assert((Kernel::MoeTask { dtype, warp_rows: true }).name_spec().len() == task.len() + 3);
    let wide = (Kernel::DequantizeF32 { dtype }).name_spec();
    let half = (Kernel::DequantizeF16 { dtype }).name_spec();
    assert(wide.last() == '2' && half.last() == '6');
}

} // verus!
