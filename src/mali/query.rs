//! Assembly of Mali descriptors from the driver's property buffer, and the
//! decisions on the driver's answers to the surrounding control calls.
use vstd::prelude::*;
use vstd::string::StringExecFns;
use crate::error::{Errno, GpuError, GpuResult, IoFailure};
use crate::info::{GpuInfo, GpuVendor, MaliData};
use crate::mali::database::{
    extract_architecture,
    get_gpu_id,
    lookup_product,
    masked_product_id_from,
    product_table,
    raw_architecture,
    selected_row,
    validate_gpu_info,
    ProductEntry,
};
use crate::mali::parser::{
    parse_properties,
    parse_properties_lenient,
    properties_outcome,
    ParsedProperties,
    ParserConfig,
};
use crate::Mode;

verus! {

/// Control request number of the optional version check.
pub const VERSION_CHECK_CSF: u64 = 0x34;

/// Control request number of the optional flag setting.
pub const SET_FLAGS: u64 = 0x01;

/// Control request number of the property query.
pub const GET_PROPS: u64 = 0x03;

/// L2 size in bytes for `2^log2` bytes per slice and `slices` slices, when
/// that fits in 64 bits.
pub open spec fn l2_size(log2: u64, slices: u64) -> Option<u64> {
    if log2 < 64 && (1u64 << log2) * slices <= u64::MAX {
        Some(((1u64 << log2) * slices) as u64)
    } else {
        None
    }
}

/// Bus width in bits, `2^k` for `k` in bits 24..32 of the L2 features, when
/// that fits in 64 bits.
pub open spec fn bus_bits(raw_l2_features: u64) -> Option<u64> {
    let k = (raw_l2_features >> 24) & 0xFF;
    if k < 64 {
        Some(1u64 << k)
    } else {
        None
    }
}

fn compute_l2_size(log2: u64, slices: u64) -> (r: Option<u64>)
    ensures
        r == l2_size(log2, slices),
{
    if log2 < 64 {
        let per_slice: u64 = 1u64 << log2;
        per_slice.checked_mul(slices)
    } else {
        None
    }
}

fn compute_bus_bits(raw_l2_features: u64) -> (r: Option<u64>)
    ensures
        r == bus_bits(raw_l2_features),
{
    let k = (raw_l2_features >> 24) & 0xFF;
    if k < 64 {
        Some(1u64 << k)
    } else {
        None
    }
}

/// The product row the decoded properties resolve to.
pub open spec fn resolved_product(p: ParsedProperties) -> Option<ProductEntry> {
    selected_row(
        product_table(),
        masked_product_id_from(product_table(), p.gpu_id, 0),
        p.num_shader_cores,
    )
}

/// The L2 size Parity mode reports: zero when either factor is missing or
/// the product does not fit.
pub open spec fn parity_l2_size(p: ParsedProperties) -> u64 {
    if p.l2_log2_cache_size > 0 && p.num_l2_slices > 0 {
        match l2_size(p.l2_log2_cache_size, p.num_l2_slices) {
            Some(v) => v,
            None => 0,
        }
    } else {
        0
    }
}

/// Whether `info` is the Parity descriptor of the decoded properties `p`.
pub open spec fn is_parity_descriptor(info: GpuInfo, p: ParsedProperties) -> bool {
    &&& info.vendor == GpuVendor::Mali
    &&& info.num_shader_cores == p.num_shader_cores
    &&& info.num_l2_bytes == parity_l2_size(p)
    &&& info.num_bus_bits == 0
    &&& info.adreno_data is None
    &&& info.mali_data == Some(
        (MaliData {
            gpu_id: p.gpu_id,
            raw_gpu_id: p.raw_gpu_id,
            shader_core_mask: p.shader_core_mask,
            num_l2_slices: p.num_l2_slices,
            num_exec_engines: 0,
            num_fp32_fmas_per_core: 0,
            num_fp16_fmas_per_core: 0,
            num_texels_per_core: 0,
            num_pixels_per_core: 0,
        }),
    )
    &&& match resolved_product(p) {
        Some(e) => {
            &&& info.gpu_name@ == e.name@
            &&& info.architecture@ == e.architecture@
            &&& (info.architecture_major, info.architecture_minor) == raw_architecture(
                p.raw_gpu_id,
            )
        },
        None => {
            &&& info.gpu_name@.len() == 0
            &&& info.architecture@.len() == 0
            &&& info.architecture_major == 0
            &&& info.architecture_minor == 0
        },
    }
}

/// Whether `info` is the Extended descriptor of the decoded properties `p`
/// resolved to row `e`, with L2 size `l2` and bus width `bus`.
pub open spec fn is_extended_descriptor(
    info: GpuInfo,
    p: ParsedProperties,
    e: ProductEntry,
    l2: u64,
    bus: u64,
) -> bool {
    let cores = p.num_shader_cores;
    let cf = p.raw_core_features;
    let tf = p.raw_thread_features;
    let engines = e.get_num_exec_engines.spec_eval(cores, cf, tf);
    let fp32 = e.get_num_fp32_fmas_per_engine.spec_eval(cores, cf, tf) * engines;
    &&& info.vendor == GpuVendor::Mali
    &&& info.gpu_name@ == e.name@
    &&& info.architecture@ == e.architecture@
    &&& (info.architecture_major, info.architecture_minor) == raw_architecture(p.raw_gpu_id)
    &&& info.num_shader_cores == cores
    &&& info.num_l2_bytes == l2
    &&& info.num_bus_bits == bus
    &&& info.adreno_data is None
    &&& info.mali_data == Some(
        (MaliData {
            gpu_id: masked_product_id_from(product_table(), p.gpu_id, 0),
            raw_gpu_id: p.raw_gpu_id,
            shader_core_mask: p.shader_core_mask,
            num_l2_slices: p.num_l2_slices,
            num_exec_engines: engines,
            num_fp32_fmas_per_core: fp32 as u32,
            num_fp16_fmas_per_core: (fp32 * 2) as u32,
            num_texels_per_core: e.get_num_texels.spec_eval(cores, cf, tf),
            num_pixels_per_core: e.get_num_pixels.spec_eval(cores, cf, tf),
        }),
    )
}

/// Whether `r` is what Extended mode owes for the property buffer `b`.
pub open spec fn extended_result(b: Seq<u8>, r: GpuResult<GpuInfo>) -> bool {
    match properties_outcome(b, ParserConfig::spec_extended()) {
        Err(e) => r == Err::<GpuInfo, GpuError>(e),
        Ok(p) => match resolved_product(p) {
            None => r == Err::<GpuInfo, GpuError>(
                GpuError::UnsupportedGpu { id: p.gpu_id, cores: p.num_shader_cores },
            ),
            Some(e) => match (
                l2_size(p.l2_log2_cache_size, p.num_l2_slices),
                bus_bits(p.raw_l2_features),
            ) {
                (Some(l2), Some(bus)) => if p.num_shader_cores == 0 || l2 == 0 {
                    r matches Err(err) && err is InvalidData
                } else {
                    r matches Ok(info) && is_extended_descriptor(info, p, e, l2, bus)
                },
                _ => r matches Err(err) && err is InvalidData,
            },
        },
    }
}

/// The Parity descriptor: tolerant decoding and best-effort resolution.
/// Without a matching row the name and architecture stay empty; this never
/// fails.
pub fn mali_info_parity(buffer: &[u8]) -> (r: GpuInfo)
    requires
        buffer@.len() + 16 <= usize::MAX,
    ensures
        properties_outcome(buffer@, ParserConfig::spec_parity()) matches Ok(p)
            && is_parity_descriptor(r, p),
{
    let parsed = parse_properties_lenient(buffer);
    let num_l2_bytes = if parsed.l2_log2_cache_size > 0 && parsed.num_l2_slices > 0 {
        match compute_l2_size(parsed.l2_log2_cache_size, parsed.num_l2_slices) {
            Some(v) => v,
            None => 0,
        }
    } else {
        0
    };
    let (gpu_name, architecture, arch_major, arch_minor) = match lookup_product(
        get_gpu_id(parsed.gpu_id),
        parsed.num_shader_cores,
    ) {
        Some(product) => {
            let (major, minor) = extract_architecture(parsed.raw_gpu_id);
            (String::from_str(product.name), String::from_str(product.architecture), major, minor)
        },
        None => (String::new(), String::new(), 0u8, 0u8),
    };
    let mali_data = MaliData {
        gpu_id: parsed.gpu_id,
        raw_gpu_id: parsed.raw_gpu_id,
        shader_core_mask: parsed.shader_core_mask,
        num_l2_slices: parsed.num_l2_slices,
        num_exec_engines: 0,
        num_fp32_fmas_per_core: 0,
        num_fp16_fmas_per_core: 0,
        num_texels_per_core: 0,
        num_pixels_per_core: 0,
    };
    GpuInfo {
        vendor: GpuVendor::Mali,
        gpu_name,
        architecture,
        architecture_major: arch_major,
        architecture_minor: arch_minor,
        num_shader_cores: parsed.num_shader_cores,
        num_l2_bytes,
        num_bus_bits: 0,
        mali_data: Some(mali_data),
        adreno_data: None,
    }
}

/// The Extended descriptor: strict decoding, a matching row required, the
/// per-core counts derived, and the result validated. A cache size or bus
/// width that does not fit in 64 bits is invalid data.
pub fn mali_info_extended(buffer: &[u8]) -> (r: GpuResult<GpuInfo>)
    requires
        buffer@.len() + 16 <= usize::MAX,
    ensures
        extended_result(buffer@, r),
{
    let parsed = match parse_properties(buffer, ParserConfig::extended()) {
        Ok(p) => p,
        Err(e) => return Err(e),
    };
    let gpu_id = get_gpu_id(parsed.gpu_id);
    let product = match lookup_product(gpu_id, parsed.num_shader_cores) {
        Some(p) => p,
        None => {
            return Err(
                GpuError::UnsupportedGpu { id: parsed.gpu_id, cores: parsed.num_shader_cores },
            )
        },
    };
    let cores = parsed.num_shader_cores;
    let cf = parsed.raw_core_features;
    let tf = parsed.raw_thread_features;
    let num_exec_engines = product.get_num_exec_engines.eval(cores, cf, tf);
    let num_fp32_fmas_per_engine = product.get_num_fp32_fmas_per_engine.eval(cores, cf, tf);
    assert(num_fp32_fmas_per_engine * num_exec_engines <= 4096) by (nonlinear_arith)
        requires
            num_fp32_fmas_per_engine <= 64,
            num_exec_engines <= 64,
    ;
    let num_fp32_fmas_per_core = num_fp32_fmas_per_engine * num_exec_engines;
    let num_texels_per_core = product.get_num_texels.eval(cores, cf, tf);
    let num_pixels_per_core = product.get_num_pixels.eval(cores, cf, tf);
    let (arch_major, arch_minor) = extract_architecture(parsed.raw_gpu_id);
    let num_l2_bytes = match compute_l2_size(parsed.l2_log2_cache_size, parsed.num_l2_slices) {
        Some(v) => v,
        None => return Err(GpuError::InvalidData(String::from_str("L2 cache size overflows"))),
    };
    let num_bus_bits = match compute_bus_bits(parsed.raw_l2_features) {
        Some(v) => v,
        None => return Err(GpuError::InvalidData(String::from_str("Bus width overflows"))),
    };
    let mali_data = MaliData {
        gpu_id,
        raw_gpu_id: parsed.raw_gpu_id,
        shader_core_mask: parsed.shader_core_mask,
        num_l2_slices: parsed.num_l2_slices,
        num_exec_engines,
        num_fp32_fmas_per_core,
        num_fp16_fmas_per_core: num_fp32_fmas_per_core * 2,
        num_texels_per_core,
        num_pixels_per_core,
    };
    let info = GpuInfo {
        vendor: GpuVendor::Mali,
        gpu_name: String::from_str(product.name),
        architecture: String::from_str(product.architecture),
        architecture_major: arch_major,
        architecture_minor: arch_minor,
        num_shader_cores: cores,
        num_l2_bytes,
        num_bus_bits,
        mali_data: Some(mali_data),
        adreno_data: None,
    };
    if let Err(e) = validate_gpu_info(&info) {
        return Err(e);
    }
    Ok(info)
}

/// The descriptor of a Mali GPU from the driver's property buffer, under
/// the given mode.
pub fn query_mali_info(buffer: &[u8], mode: Mode) -> (r: GpuResult<GpuInfo>)
    requires
        buffer@.len() + 16 <= usize::MAX,
    ensures
        mode == Mode::Parity ==> (r matches Ok(info) && properties_outcome(
            buffer@,
            ParserConfig::spec_parity(),
        ) matches Ok(p) && is_parity_descriptor(info, p)),
        mode == Mode::Extended ==> extended_result(buffer@, r),
{
    match mode {
        Mode::Parity => Ok(mali_info_parity(buffer)),
        Mode::Extended => mali_info_extended(buffer),
    }
}

/// Whether an optional control call's failure is tolerated: permission
/// refused, or the request unknown to the driver.
pub open spec fn tolerated_failure(f: IoFailure) -> bool {
    f.errno == Some(Errno::AccessDenied) || f.errno == Some(Errno::NotPermitted) || f.errno
        == Some(Errno::NotTty)
}

/// The outcome of an optional control call (the version check or the flag
/// setting): success, or a tolerated failure, is `Ok`; any other failure is
/// `IoctlFailed` naming the request.
pub fn optional_ioctl_result(outcome: Result<(), IoFailure>, request: u64) -> (r: GpuResult<()>)
    ensures
        match outcome {
            Ok(()) => r is Ok,
            Err(f) => if tolerated_failure(f) {
                r is Ok
            } else {
                r == Err::<(), GpuError>(GpuError::IoctlFailed { request, source: f })
            },
        },
{
    match outcome {
        Ok(()) => Ok(()),
        Err(f) => match f.errno {
            Some(Errno::AccessDenied) | Some(Errno::NotPermitted) | Some(Errno::NotTty) => Ok(()),
            _ => Err(GpuError::IoctlFailed { request, source: f }),
        },
    }
}

/// The outcome of the property-size query: a failed call is `IoctlFailed`,
/// a size of zero is invalid data, any other size is the buffer length.
pub fn properties_size_result(outcome: Result<usize, IoFailure>) -> (r: GpuResult<usize>)
    ensures
        match outcome {
            Err(f) => r == Err::<usize, GpuError>(
                GpuError::IoctlFailed { request: GET_PROPS, source: f },
            ),
            Ok(n) => if n == 0 {
                r matches Err(e) && e is InvalidData
            } else {
                r == Ok::<usize, GpuError>(n)
            },
        },
{
    match outcome {
        Err(f) => Err(GpuError::IoctlFailed { request: GET_PROPS, source: f }),
        Ok(n) => {
            if n == 0 {
                Err(GpuError::InvalidData(String::from_str("Driver returned zero buffer size")))
            } else {
                Ok(n)
            }
        },
    }
}

} // verus!
