//! Quantized weights in a build without device support: every operation on them is refused.

use crate::device_id::DeviceId;
use crate::dtype::DType;
use crate::dtype::GgmlDType;
use crate::error::Error;
use crate::error::ErrorOf;
use crate::launch::Span;
use crate::storage::FwdPlan;
use crate::storage::Layout;
use crate::storage::MoeCall;
use vstd::prelude::*;

verus! {

/// Quantized weights that no device holds.
#[derive(Clone, Copy, Debug, PartialEq, Eq, Structural)]
pub struct QCudaStorage {
    pub dtype: GgmlDType,
    pub device: DeviceId,
}

impl QCudaStorage {
    /// Making weights is refused.
    pub fn zeros(_device: DeviceId, _el_count: usize, _dtype: GgmlDType) -> (r: Result<
        QCudaStorage,
        Error,
    >)
        ensures
            r == Err::<QCudaStorage, Error>(ErrorOf::NotCompiledWithCudaSupport),
    {
        Err(ErrorOf::NotCompiledWithCudaSupport)
    }

    /// The block format of the weights.
    pub fn dtype(&self) -> (r: GgmlDType)
        ensures
            r == self.dtype,
    {
        self.dtype
    }

    /// The device that the weights belong to.
    pub fn device(&self) -> (r: DeviceId)
        ensures
            r == self.device,
    {
        self.device
    }

    /// The weights take no room.
    pub fn storage_size_in_bytes(&self) -> (r: usize)
        ensures
            r == 0,
    {
        0
    }

    /// Converting weights to F32 is refused.
    pub fn dequantize(&self, _elem_count: usize) -> (r: Result<(), Error>)
        ensures
            r == Err::<(), Error>(ErrorOf::NotCompiledWithCudaSupport),
    {
        Err(ErrorOf::NotCompiledWithCudaSupport)
    }

    /// Converting weights to F16 is refused.
    pub fn dequantize_f16(&self, _elem_count: usize) -> (r: Result<(), Error>)
        ensures
            r == Err::<(), Error>(ErrorOf::NotCompiledWithCudaSupport),
    {
        Err(ErrorOf::NotCompiledWithCudaSupport)
    }

    /// Quantizing a device tensor is refused.
    pub fn quantize(&self, _src: DType) -> (r: Result<(), Error>)
        ensures
            r == Err::<(), Error>(ErrorOf::NotCompiledWithCudaSupport),
    {
        Err(ErrorOf::NotCompiledWithCudaSupport)
    }

    /// Quantizing a device tensor by importance is refused.
    pub fn quantize_imatrix(&self, _src: DType) -> (r: Result<(), Error>)
        ensures
            r == Err::<(), Error>(ErrorOf::NotCompiledWithCudaSupport),
    {
        Err(ErrorOf::NotCompiledWithCudaSupport)
    }

    /// Quantizing a host tensor by importance is refused.
    pub fn quantize_imatrix_onto(&self, _src: DType) -> (r: Result<(), Error>)
        ensures
            r == Err::<(), Error>(ErrorOf::NotCompiledWithCudaSupport),
    {
        Err(ErrorOf::NotCompiledWithCudaSupport)
    }

    /// Quantizing a host tensor is refused.
    pub fn quantize_onto(&self, _src: DType) -> (r: Result<(), Error>)
        ensures
            r == Err::<(), Error>(ErrorOf::NotCompiledWithCudaSupport),
    {
        Err(ErrorOf::NotCompiledWithCudaSupport)
    }

    /// Taking the device address is refused.
    pub fn device_ptr(&self) -> (r: Result<u64, Error>)
        ensures
            r == Err::<u64, Error>(ErrorOf::NotCompiledWithCudaSupport),
    {
        Err(ErrorOf::NotCompiledWithCudaSupport)
    }

    /// Multiplying by the weights is refused.
    pub fn fwd(&self, _self_dims: &[usize], _rhs_dtype: DType, _layout: &Layout) -> (r: Result<
        FwdPlan,
        Error,
    >)
        ensures
            r == Err::<FwdPlan, Error>(ErrorOf::NotCompiledWithCudaSupport),
    {
        Err(ErrorOf::NotCompiledWithCudaSupport)
    }

    /// Reading the weights back is refused.
    pub fn data(&self) -> (r: Result<Span, Error>)
        ensures
            r == Err::<Span, Error>(ErrorOf::NotCompiledWithCudaSupport),
    {
        Err(ErrorOf::NotCompiledWithCudaSupport)
    }

    /// An expert layer over the weights is refused.
    pub fn indexed_moe_forward(
        &self,
        _self_dims: &[usize],
        _in_dims: &[usize],
        _idx_dims: &[usize],
    ) -> (r: Result<MoeCall, Error>)
        ensures
            r == Err::<MoeCall, Error>(ErrorOf::NotCompiledWithCudaSupport),
    {
        Err(ErrorOf::NotCompiledWithCudaSupport)
    }
}

/// Loading weights is refused.
pub fn load_quantized(_device: DeviceId, _dtype: GgmlDType, _data_len: usize) -> (r: Result<
    QCudaStorage,
    Error,
>)
    ensures
        r == Err::<QCudaStorage, Error>(ErrorOf::NotCompiledWithCudaSupport),
{
    Err(ErrorOf::NotCompiledWithCudaSupport)
}

} // verus!
