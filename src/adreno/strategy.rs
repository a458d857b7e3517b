//! The two query strategies for Adreno devices: tolerant Parity and strict
//! Extended. Each takes the raw device-info bytes the driver returned.
use vstd::prelude::*;
use vstd::string::StringExecFns;
use crate::adreno::database::{adreno_resolution, find_adreno_specs, SpecConfidence};
use crate::adreno::parser::{
    decoded_device_info,
    device_info_error_ok,
    device_info_outcome,
    parse_device_info_lenient,
    parse_device_info_strict,
    ParserConfig,
    DEVICE_INFO_MIN_LEN,
    ParsedDeviceInfo,
};
use crate::adreno::query::{adreno_descriptor, is_adreno_descriptor, is_unsupported_chip};
use crate::error::{GpuError, GpuResult};
use crate::info::GpuInfo;

verus! {

/// Architecture major and minor bytes of a chip id.
pub open spec fn chip_architecture(chip_id: u32) -> (u8, u8) {
    (((chip_id >> 24) & 0xFF) as u8, ((chip_id >> 16) & 0xFF) as u8)
}

fn split_architecture(chip_id: u32) -> (r: (u8, u8))
    ensures
        r == chip_architecture(chip_id),
{
    (((chip_id >> 24) & 0xFF) as u8, ((chip_id >> 16) & 0xFF) as u8)
}

/// What the tolerant decoder makes of a device-info buffer.
pub open spec fn lenient_record(b: Seq<u8>) -> ParsedDeviceInfo {
    if b.len() < DEVICE_INFO_MIN_LEN {
        ParsedDeviceInfo::spec_empty()
    } else {
        decoded_device_info(b)
    }
}

/// Whether `r` is the outcome of resolving the decoded record `p` and
/// assembling its descriptor, with resolution failure as an error.
pub open spec fn resolved_descriptor(p: ParsedDeviceInfo, r: GpuResult<GpuInfo>) -> bool {
    match adreno_resolution(p.chip_id) {
        None => r matches Err(e) && is_unsupported_chip(e, p.chip_id),
        Some(specs) => r matches Ok(info) && is_adreno_descriptor(
            info,
            p.chip_id,
            p.gpu_model,
            p.mmu_enabled,
            p.gmem_sizebytes,
            specs,
        ),
    }
}

/// Best-effort strategy: tolerant decoding, no validation.
#[derive(Debug, Clone, Copy)]
pub struct ParityStrategy;

impl ParityStrategy {
    pub fn parser_config(&self) -> (r: ParserConfig)
        ensures
            r == ParserConfig::spec_parity(),
    {
        ParserConfig::parity()
    }

    pub fn should_validate(&self) -> (r: bool)
        ensures
            !r,
    {
        false
    }

    pub fn use_extended_database(&self) -> (r: bool)
        ensures
            r,
    {
        true
    }

    pub fn extract_architecture(&self, chip_id: u32) -> (r: (u8, u8))
        ensures
            r == chip_architecture(chip_id),
    {
        split_architecture(chip_id)
    }

    /// Decodes the device-info bytes tolerantly, resolves the chip id and
    /// assembles the descriptor; only a failed resolution is an error.
    pub fn query_bytes(&self, info_bytes: &[u8]) -> (r: GpuResult<GpuInfo>)
        ensures
            resolved_descriptor(lenient_record(info_bytes@), r),
    {
        let parsed = parse_device_info_lenient(info_bytes);
        let specs = match find_adreno_specs(parsed.chip_id) {
            Some(s) => s,
            None => return Err(GpuError::UnsupportedGpu { id: parsed.chip_id, cores: 0 }),
        };
        Ok(
            adreno_descriptor(
                parsed.chip_id,
                parsed.gpu_model,
                parsed.mmu_enabled,
                parsed.gmem_sizebytes,
                &specs,
            ),
        )
    }
}

/// Strict strategy: strict decoding, and estimated specifications refused.
#[derive(Debug, Clone, Copy)]
pub struct ExtendedStrategy;

impl ExtendedStrategy {
    pub fn parser_config(&self) -> (r: ParserConfig)
        ensures
            r == ParserConfig::spec_extended(),
    {
        ParserConfig::extended()
    }

    pub fn should_validate(&self) -> (r: bool)
        ensures
            r,
    {
        true
    }

    pub fn use_extended_database(&self) -> (r: bool)
        ensures
            r,
    {
        true
    }

    pub fn extract_architecture(&self, chip_id: u32) -> (r: (u8, u8))
        ensures
            r == chip_architecture(chip_id),
    {
        split_architecture(chip_id)
    }

    /// Decodes the device-info bytes strictly, resolves the chip id, refuses
    /// a heuristic specification with `InsufficientData`, and assembles the
    /// descriptor.
    pub fn query_bytes(&self, info_bytes: &[u8]) -> (r: GpuResult<GpuInfo>)
        ensures
            match device_info_outcome(info_bytes@, ParserConfig::spec_extended()) {
                None => r matches Err(e) && device_info_error_ok(
                    info_bytes@,
                    ParserConfig::spec_extended(),
                    e,
                ),
                Some(p) => match adreno_resolution(p.chip_id) {
                    Some(specs) if specs.confidence == SpecConfidence::Heuristic => r matches Err(
                        GpuError::InsufficientData { chip_id, .. },
                    ) && chip_id == p.chip_id,
                    _ => resolved_descriptor(p, r),
                },
            },
    {
        let parsed = match parse_device_info_strict(info_bytes) {
            Ok(p) => p,
            Err(e) => return Err(e),
        };
        let specs = match find_adreno_specs(parsed.chip_id) {
            Some(s) => s,
            None => return Err(GpuError::UnsupportedGpu { id: parsed.chip_id, cores: 0 }),
        };
        if self.should_validate() && matches!(specs.confidence, SpecConfidence::Heuristic) {
            return Err(
                GpuError::InsufficientData {
                    chip_id: parsed.chip_id,
                    details: String::from_str("Only estimated specs available"),
                },
            );
        }
        Ok(
            adreno_descriptor(
                parsed.chip_id,
                parsed.gpu_model,
                parsed.mmu_enabled,
                parsed.gmem_sizebytes,
                &specs,
            ),
        )
    }
}

} // verus!
