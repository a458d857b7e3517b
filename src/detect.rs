//! The decision of automatic detection: which of the tried queries answers.
use vstd::prelude::*;
use crate::error::{GpuError, GpuResult};
use crate::info::GpuInfo;

verus! {

/// The answer of automatic detection, given the Mali query's result (if a
/// Mali device was tried) and the Adreno query's result (if an Adreno device
/// was tried): the first success in that order, else `DeviceNotFound`.
pub fn query_gpu_auto_result(
    mali: Option<GpuResult<GpuInfo>>,
    adreno: Option<GpuResult<GpuInfo>>,
) -> (r: GpuResult<GpuInfo>)
    ensures
        match (mali, adreno) {
            (Some(Ok(info)), _) => r == Ok::<GpuInfo, GpuError>(info),
            (_, Some(Ok(info))) => r == Ok::<GpuInfo, GpuError>(info),
            _ => r == Err::<GpuInfo, GpuError>(GpuError::DeviceNotFound),
        },
{
    if let Some(Ok(info)) = mali {
        return Ok(info);
    }
    if let Some(Ok(info)) = adreno {
        return Ok(info);
    }
    Err(GpuError::DeviceNotFound)
}

} // verus!
