//! Element types of device tensors and block formats of quantized weights.

use crate::arith::ceil_quot;
use crate::arith::lemma_ceil_quot;
use vstd::prelude::*;

verus! {

/// Element type of a device tensor.
#[derive(Clone, Copy, Debug, PartialEq, Eq, Structural)]
pub enum DType {
    U8,
    U32,
    I16,
    I32,
    I64,
    BF16,
    F16,
    F32,
    F64,
    F8E4M3,
    F6E2M3,
    F6E3M2,
    F4,
    F8E8M0,
}

impl DType {
    /// The packed sub-byte and scale formats, for which the device has no storage.
    pub open spec fn is_dummy_spec(&self) -> bool {
        self is F6E2M3 || self is F6E3M2 || self is F4 || self is F8E8M0
    }

    /// Tells the packed sub-byte and scale formats, for which the device has no storage.
    #[verifier::when_used_as_spec(is_dummy_spec)]
    pub fn is_dummy(&self) -> (r: bool)
        ensures
            r == self.is_dummy(),
    {
        match self {
            DType::F6E2M3 => true,
            DType::F6E3M2 => true,
            DType::F4 => true,
            DType::F8E8M0 => true,
            _ => false,
        }
    }

    /// Number of bytes that one element takes; none for the formats without storage.
    pub open spec fn size_in_bytes_spec(&self) -> usize {
        match self {
            DType::U8 | DType::F8E4M3 => 1,
            DType::I16 | DType::BF16 | DType::F16 => 2,
            DType::U32 | DType::I32 | DType::F32 => 4,
            DType::I64 | DType::F64 => 8,
            DType::F6E2M3 | DType::F6E3M2 | DType::F4 | DType::F8E8M0 => 0,
        }
    }

    /// Number of bytes that one element takes; none for the formats without storage.
    #[verifier::when_used_as_spec(size_in_bytes_spec)]
    pub fn size_in_bytes(&self) -> (r: usize)
        ensures
            r == self.size_in_bytes(),
    {
        match self {
            DType::U8 | DType::F8E4M3 => 1,
            DType::I16 | DType::BF16 | DType::F16 => 2,
            DType::U32 | DType::I32 | DType::F32 => 4,
            DType::I64 | DType::F64 => 8,
            DType::F6E2M3 | DType::F6E3M2 | DType::F4 | DType::F8E8M0 => 0,
        }
    }
}

/// Block format of a quantized weight buffer.
#[derive(Clone, Copy, Debug, PartialEq, Eq, Structural)]
pub enum GgmlDType {
    F32,
    F16,
    BF16,
    Q4_0,
    Q4_1,
    Q5_0,
    Q5_1,
    Q8_0,
    Q8_1,
    Q2K,
    Q3K,
    Q4K,
    Q5K,
    Q6K,
    Q8K,
}

impl GgmlDType {
    /// Number of elements that one block of this format holds.
    pub open spec fn block_size_spec(&self) -> usize {
        match self {
            GgmlDType::F32 | GgmlDType::F16 | GgmlDType::BF16 => 1,
            GgmlDType::Q4_0 | GgmlDType::Q4_1 | GgmlDType::Q5_0 | GgmlDType::Q5_1
            | GgmlDType::Q8_0 | GgmlDType::Q8_1 => 32,
            GgmlDType::Q2K | GgmlDType::Q3K | GgmlDType::Q4K | GgmlDType::Q5K | GgmlDType::Q6K
            | GgmlDType::Q8K => 256,
        }
    }

    /// Number of bytes that one block of this format takes.
    pub open spec fn type_size_spec(&self) -> usize {
        match self {
            GgmlDType::F32 => 4,
            GgmlDType::F16 | GgmlDType::BF16 => 2,
            GgmlDType::Q4_0 => 18,
            GgmlDType::Q4_1 => 20,
            GgmlDType::Q5_0 => 22,
            GgmlDType::Q5_1 => 24,
            GgmlDType::Q8_0 => 34,
            GgmlDType::Q8_1 => 36,
            GgmlDType::Q2K => 84,
            GgmlDType::Q3K => 110,
            GgmlDType::Q4K => 144,
            GgmlDType::Q5K => 176,
            GgmlDType::Q6K => 210,
            GgmlDType::Q8K => 292,
        }
    }

    /// Number of elements that one block of this format holds.
    #[verifier::when_used_as_spec(block_size_spec)]
    pub fn block_size(&self) -> (r: usize)
        ensures
            r == self.block_size(),
            r > 0,
    {
        match self {
            GgmlDType::F32 | GgmlDType::F16 | GgmlDType::BF16 => 1,
            GgmlDType::Q4_0 | GgmlDType::Q4_1 | GgmlDType::Q5_0 | GgmlDType::Q5_1
            | GgmlDType::Q8_0 | GgmlDType::Q8_1 => 32,
            GgmlDType::Q2K | GgmlDType::Q3K | GgmlDType::Q4K | GgmlDType::Q5K | GgmlDType::Q6K
            | GgmlDType::Q8K => 256,
        }
    }

    /// Number of bytes that one block of this format takes.
    #[verifier::when_used_as_spec(type_size_spec)]
    pub fn type_size(&self) -> (r: usize)
        ensures
            r == self.type_size(),
            r > 0,
    {
        match self {
            GgmlDType::F32 => 4,
            GgmlDType::F16 | GgmlDType::BF16 => 2,
            GgmlDType::Q4_0 => 18,
            GgmlDType::Q4_1 => 20,
            GgmlDType::Q5_0 => 22,
            GgmlDType::Q5_1 => 24,
            GgmlDType::Q8_0 => 34,
            GgmlDType::Q8_1 => 36,
            GgmlDType::Q2K => 84,
            GgmlDType::Q3K => 110,
            GgmlDType::Q4K => 144,
            GgmlDType::Q5K => 176,
            GgmlDType::Q6K => 210,
            GgmlDType::Q8K => 292,
        }
    }
}

/// Number of whole blocks in `bytes` bytes.
pub open spec fn blocks_of_bytes(bytes: int, dtype: GgmlDType) -> int {
    match dtype {
        GgmlDType::F32 => bytes / 4,
        GgmlDType::F16 | GgmlDType::BF16 => bytes / 2,
        GgmlDType::Q4_0 => bytes / 18,
        GgmlDType::Q4_1 => bytes / 20,
        GgmlDType::Q5_0 => bytes / 22,
        GgmlDType::Q5_1 => bytes / 24,
        GgmlDType::Q8_0 => bytes / 34,
        GgmlDType::Q8_1 => bytes / 36,
        GgmlDType::Q2K => bytes / 84,
        GgmlDType::Q3K => bytes / 110,
        GgmlDType::Q4K => bytes / 144,
        GgmlDType::Q5K => bytes / 176,
        GgmlDType::Q6K => bytes / 210,
        GgmlDType::Q8K => bytes / 292,
    }
}

/// Number of whole blocks in `elems` elements.
pub open spec fn blocks_of_elems(elems: int, dtype: GgmlDType) -> int {
    match dtype {
        GgmlDType::F32 | GgmlDType::F16 | GgmlDType::BF16 => elems,
        GgmlDType::Q4_0 | GgmlDType::Q4_1 | GgmlDType::Q5_0 | GgmlDType::Q5_1 | GgmlDType::Q8_0
        | GgmlDType::Q8_1 => elems / 32,
        GgmlDType::Q2K | GgmlDType::Q3K | GgmlDType::Q4K | GgmlDType::Q5K | GgmlDType::Q6K
        | GgmlDType::Q8K => elems / 256,
    }
}

/// Number of blocks that `elems` elements take, the last one filled up.
pub open spec fn blocks_for_elems(elems: int, dtype: GgmlDType) -> int {
    match dtype {
        GgmlDType::F32 | GgmlDType::F16 | GgmlDType::BF16 => elems,
        GgmlDType::Q4_0 | GgmlDType::Q4_1 | GgmlDType::Q5_0 | GgmlDType::Q5_1 | GgmlDType::Q8_0
        | GgmlDType::Q8_1 => ceil_quot(elems, 32),
        GgmlDType::Q2K | GgmlDType::Q3K | GgmlDType::Q4K | GgmlDType::Q5K | GgmlDType::Q6K
        | GgmlDType::Q8K => ceil_quot(elems, 256),
    }
}

/// Number of elements in `blocks` blocks.
pub open spec fn elems_of_blocks(blocks: int, dtype: GgmlDType) -> int {
    match dtype {
        GgmlDType::F32 | GgmlDType::F16 | GgmlDType::BF16 => blocks,
        GgmlDType::Q4_0 | GgmlDType::Q4_1 | GgmlDType::Q5_0 | GgmlDType::Q5_1 | GgmlDType::Q8_0
        | GgmlDType::Q8_1 => blocks * 32,
        GgmlDType::Q2K | GgmlDType::Q3K | GgmlDType::Q4K | GgmlDType::Q5K | GgmlDType::Q6K
        | GgmlDType::Q8K => blocks * 256,
    }
}

/// Number of bytes in `blocks` blocks.
pub open spec fn bytes_of_blocks(blocks: int, dtype: GgmlDType) -> int {
    match dtype {
        GgmlDType::F32 => blocks * 4,
        GgmlDType::F16 | GgmlDType::BF16 => blocks * 2,
        GgmlDType::Q4_0 => blocks * 18,
        GgmlDType::Q4_1 => blocks * 20,
        GgmlDType::Q5_0 => blocks * 22,
        GgmlDType::Q5_1 => blocks * 24,
        GgmlDType::Q8_0 => blocks * 34,
        GgmlDType::Q8_1 => blocks * 36,
        GgmlDType::Q2K => blocks * 84,
        GgmlDType::Q3K => blocks * 110,
        GgmlDType::Q4K => blocks * 144,
        GgmlDType::Q5K => blocks * 176,
        GgmlDType::Q6K => blocks * 210,
        GgmlDType::Q8K => blocks * 292,
    }
}

/// The counts follow the sizes of the format's blocks.
pub proof fn lemma_block_counts(n: int, dtype: GgmlDType)
    requires
        n >= 0,
    ensures
        blocks_of_bytes(n, dtype) == n / dtype.type_size() as int,
        blocks_of_elems(n, dtype) == n / dtype.block_size() as int,
        blocks_for_elems(n, dtype) == ceil_quot(n, dtype.block_size() as int),
        elems_of_blocks(n, dtype) == n * dtype.block_size(),
        bytes_of_blocks(n, dtype) == n * dtype.type_size(),
        0 <= blocks_of_bytes(n, dtype) <= n,
        0 <= blocks_of_elems(n, dtype) <= n,
        0 <= blocks_for_elems(n, dtype) <= n,
{
    let bs = dtype.block_size() as int;
    lemma_ceil_quot(n, bs);
    assert(n / 1 == n);
    assert(n * 1 == n);
}

/// A block is made of its elements' bits and of its scales: one or two F16 on a one-level format,
/// and on a two-level format the scales of the parts of a block besides. Blocks hold 32 elements on
/// one level and 256 on two; a plain float is a block by itself.
pub proof fn law_block_layouts(dtype: GgmlDType)
    ensures
        ({
            let (elems, bytes) = (dtype.block_size() as int, dtype.type_size() as int);
            match dtype {
                GgmlDType::F32 => elems == 1 && bytes == 4,
                GgmlDType::F16 | GgmlDType::BF16 => elems == 1 && bytes == 2,
                GgmlDType::Q4_0 => elems == 32 && bytes == 32 * 4 / 8 + 2,
                GgmlDType::Q4_1 => elems == 32 && bytes == 32 * 4 / 8 + 2 + 2,
                GgmlDType::Q5_0 => elems == 32 && bytes == 32 * 5 / 8 + 2,
                GgmlDType::Q5_1 => elems == 32 && bytes == 32 * 5 / 8 + 2 + 2,
                GgmlDType::Q8_0 => elems == 32 && bytes == 32 * 8 / 8 + 2,
                GgmlDType::Q8_1 => elems == 32 && bytes == 32 * 8 / 8 + 2 + 2,
                GgmlDType::Q2K => elems == 256 && bytes == 256 * 2 / 8 + 16 + 2 + 2,
                GgmlDType::Q3K => elems == 256 && bytes == 256 * 3 / 8 + 12 + 2,
                GgmlDType::Q4K => elems == 256 && bytes == 256 * 4 / 8 + 12 + 2 + 2,
                GgmlDType::Q5K => elems == 256 && bytes == 256 * 5 / 8 + 12 + 2 + 2,
                GgmlDType::Q6K => elems == 256 && bytes == 256 * 6 / 8 + 16 + 2,
                GgmlDType::Q8K => elems == 256 && bytes == 256 * 8 / 8 + 4 + 32,
            }
        }),
{
}

/// Bytes, blocks and elements convert into each other without loss where they are whole: as many
/// blocks come out of the bytes and of the elements of blocks as went in, and rounding up adds no
/// block to these.
pub proof fn law_blocks_convert(blocks: int, dtype: GgmlDType)
    requires
        blocks >= 0,
    ensures
        blocks_of_bytes(bytes_of_blocks(blocks, dtype), dtype) == blocks,
        blocks_of_elems(elems_of_blocks(blocks, dtype), dtype) == blocks,
        blocks_for_elems(elems_of_blocks(blocks, dtype), dtype) == blocks,
        bytes_of_blocks(blocks, dtype) == blocks * dtype.type_size(),
        elems_of_blocks(blocks, dtype) == blocks * dtype.block_size(),
{
    lemma_block_counts(blocks, dtype);
    lemma_ceil_quot(blocks * 32, 32);
    lemma_ceil_quot(blocks * 256, 256);
}

/// The packed formats take no storage; all others take the bytes of their bits.
pub proof fn law_element_sizes(dtype: DType)
    ensures
        dtype.is_dummy() <==> dtype.size_in_bytes() == 0,
        dtype.is_dummy() <==> dtype is F4 || dtype is F6E2M3 || dtype is F6E3M2 || dtype is F8E8M0,
        dtype is U8 || dtype is F8E4M3 ==> dtype.size_in_bytes() * 8 == 8,
        dtype is I16 || dtype is BF16 || dtype is F16 ==> dtype.size_in_bytes() * 8 == 16,
        dtype is U32 || dtype is I32 || dtype is F32 ==> dtype.size_in_bytes() * 8 == 32,
        dtype is I64 || dtype is F64 ==> dtype.size_in_bytes() * 8 == 64,
{
}

} // verus!
