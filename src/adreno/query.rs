//! Assembly of Adreno descriptors from the driver's device info and the
//! resolved specification, under either mode.
use vstd::prelude::*;
use vstd::string::StringExecFns;
use crate::adreno::database::{adreno_resolution, find_adreno_specs, AdrenoSpecs, SpecConfidence};
use crate::adreno::ioctl::KgslDeviceInfo;
use crate::adreno::parser::is_invalid_data;
use crate::adreno::Mode;
use crate::error::{GpuError, GpuResult};
use crate::info::{owned_strings, same_strings, AdrenoData, GpuInfo, GpuVendor};

verus! {

/// Whether `info` is the Adreno descriptor of a chip with the given driver
/// fields and specification.
pub open spec fn is_adreno_descriptor(
    info: GpuInfo,
    chip_id: u32,
    gpu_model: u32,
    mmu_enabled: bool,
    gmem_sizebytes: u32,
    specs: AdrenoSpecs,
) -> bool {
    &&& info.vendor == GpuVendor::Adreno
    &&& info.gpu_name@ == specs.name@
    &&& info.architecture@ == specs.architecture.spec_name()@
    &&& info.architecture_major == ((chip_id >> 24) & 0xFF) as u8
    &&& info.architecture_minor == ((chip_id >> 16) & 0xFF) as u8
    &&& info.num_shader_cores == specs.shader_cores
    &&& info.num_l2_bytes == specs.gmem_size_kb * 1024
    &&& info.num_bus_bits == specs.bus_width_bits
    &&& info.mali_data is None
    &&& info.adreno_data matches Some(a) && {
        &&& a.chip_id == chip_id
        &&& a.gpu_model_code == gpu_model
        &&& a.mmu_enabled == mmu_enabled
        &&& a.gmem_size_bytes == gmem_sizebytes
        &&& a.spec_confidence@ == specs.confidence.spec_name()@
        &&& a.stream_processors == specs.stream_processors
        &&& a.max_freq_mhz == specs.max_freq_mhz
        &&& a.process_nm == specs.process_nm
        &&& a.release_year == specs.year
        &&& same_strings(a.snapdragon_models@, specs.snapdragon_models@)
    }
}

/// The descriptor of a chip with the given driver fields and specification.
pub fn adreno_descriptor(
    chip_id: u32,
    gpu_model: u32,
    mmu_enabled: bool,
    gmem_sizebytes: u32,
    specs: &AdrenoSpecs,
) -> (r: GpuInfo)
    ensures
        is_adreno_descriptor(r, chip_id, gpu_model, mmu_enabled, gmem_sizebytes, *specs),
{
    let major = ((chip_id >> 24) & 0xFF) as u8;
    let minor = ((chip_id >> 16) & 0xFF) as u8;
    let adreno_data = AdrenoData {
        chip_id,
        gpu_model_code: gpu_model,
        mmu_enabled,
        gmem_size_bytes: gmem_sizebytes,
        spec_confidence: String::from_str(specs.confidence.name()),
        stream_processors: specs.stream_processors,
        max_freq_mhz: specs.max_freq_mhz,
        process_nm: specs.process_nm,
        release_year: specs.year,
        snapdragon_models: owned_strings(specs.snapdragon_models),
    };
    GpuInfo {
        vendor: GpuVendor::Adreno,
        gpu_name: String::from_str(specs.name),
        architecture: String::from_str(specs.architecture.name()),
        architecture_major: major,
        architecture_minor: minor,
        num_shader_cores: specs.shader_cores,
        num_l2_bytes: specs.gmem_size_kb as u64 * 1024,
        num_bus_bits: specs.bus_width_bits as u64,
        mali_data: None,
        adreno_data: Some(adreno_data),
    }
}

/// The descriptor of a device whose driver reported `device_info` and whose
/// chip resolved to `specs`.
pub fn create_gpu_info_from_specs(device_info: &KgslDeviceInfo, specs: &AdrenoSpecs) -> (r: GpuInfo)
    ensures
        is_adreno_descriptor(
            r,
            device_info.chip_id,
            device_info.gpu_model,
            device_info.mmu_enabled != 0,
            device_info.gmem_sizebytes,
            *specs,
        ),
{
    adreno_descriptor(
        device_info.chip_id,
        device_info.gpu_model,
        device_info.mmu_enabled != 0,
        device_info.gmem_sizebytes,
        specs,
    )
}

/// Whether a descriptor passes the Extended sanity pass: cores and cache are
/// non-zero and the architecture major is 4 to 9.
pub open spec fn extended_info_valid(info: GpuInfo) -> bool {
    info.num_shader_cores != 0 && info.num_l2_bytes != 0 && 4 <= info.architecture_major <= 9
}

/// The final sanity pass of Extended mode.
pub fn validate_extended_info(info: &GpuInfo) -> (r: GpuResult<()>)
    ensures
        r is Ok <==> extended_info_valid(*info),
        r matches Err(e) ==> e is InvalidData,
{
    if info.num_shader_cores == 0 {
        return Err(GpuError::InvalidData(String::from_str("Shader core count is zero")));
    }
    if info.num_l2_bytes == 0 {
        return Err(GpuError::InvalidData(String::from_str("L2 cache size is zero")));
    }
    if info.architecture_major < 4 || info.architecture_major > 9 {
        let mut reason = String::from_str("Invalid architecture major version: ");
        crate::text::push_decimal(&mut reason, info.architecture_major as u64);
        return Err(GpuError::InvalidData(reason));
    }
    Ok(())
}

/// The error resolution reports for a chip id without any specification.
pub open spec fn is_unsupported_chip(e: GpuError, chip_id: u32) -> bool {
    e == GpuError::UnsupportedGpu { id: chip_id, cores: 0 }
}

/// Assembles the descriptor of the device whose driver reported
/// `device_info`. Both modes propagate a failed resolution; Extended mode
/// also requires a non-zero chip id and GMEM size, and runs the final
/// sanity pass.
pub fn query_adreno_info(device_info: &KgslDeviceInfo, mode: Mode) -> (r: GpuResult<GpuInfo>)
    ensures
        mode == Mode::Extended && device_info.chip_id == 0 ==> (r matches Err(e)
            && is_invalid_data(e, "Chip ID is zero"@)),
        mode == Mode::Extended && device_info.chip_id != 0 && device_info.gmem_sizebytes == 0
            ==> (r matches Err(e) && is_invalid_data(e, "GPU memory size is zero"@)),
        mode == Mode::Parity || (device_info.chip_id != 0 && device_info.gmem_sizebytes != 0)
            ==> match adreno_resolution(device_info.chip_id) {
            None => r matches Err(e) && is_unsupported_chip(e, device_info.chip_id),
            Some(specs) => if mode == Mode::Extended && !extended_specs_valid(
                device_info.chip_id,
                specs,
            ) {
                r matches Err(e) && e is InvalidData
            } else {
                r matches Ok(info) && is_adreno_descriptor(
                    info,
                    device_info.chip_id,
                    device_info.gpu_model,
                    device_info.mmu_enabled != 0,
                    device_info.gmem_sizebytes,
                    specs,
                )
            },
        },
{
    if matches!(mode, Mode::Extended) && device_info.chip_id == 0 {
        return Err(GpuError::InvalidData(String::from_str("Chip ID is zero")));
    }
    if matches!(mode, Mode::Extended) && device_info.gmem_sizebytes == 0 {
        return Err(GpuError::InvalidData(String::from_str("GPU memory size is zero")));
    }
    let specs = match find_adreno_specs(device_info.chip_id) {
        Some(s) => s,
        None => return Err(GpuError::UnsupportedGpu { id: device_info.chip_id, cores: 0 }),
    };
    let info = create_gpu_info_from_specs(device_info, &specs);
    let chip_id = device_info.chip_id;
    assert((chip_id >> 24) & 0xFF < 256) by (bit_vector);
    if matches!(mode, Mode::Extended) {
        if let Err(e) = validate_extended_info(&info) {
            return Err(e);
        }
    }
    Ok(info)
}

/// Whether the descriptor of `chip_id` under `specs` passes the Extended
/// sanity pass.
pub open spec fn extended_specs_valid(chip_id: u32, specs: AdrenoSpecs) -> bool {
    specs.shader_cores != 0 && specs.gmem_size_kb != 0 && 4 <= ((chip_id >> 24) & 0xFF) <= 9
}

/// Whether an Extended-mode query should warn: the device id is zero, or the
/// chip resolved to a specification that is only an estimate.
pub fn needs_warning(device_info: &KgslDeviceInfo, specs: Option<&AdrenoSpecs>) -> (r: bool)
    ensures
        r == (device_info.device_id == 0 || (specs matches Some(s) && s.confidence
            == SpecConfidence::Heuristic)),
{
    if device_info.device_id == 0 {
        return true;
    }
    match specs {
        Some(s) => matches!(s.confidence, SpecConfidence::Heuristic),
        None => false,
    }
}

} // verus!
