use armgpuinfo::adreno::database::find_adreno_specs;
use armgpuinfo::adreno::ioctl::KgslDeviceInfo;
use armgpuinfo::adreno::query::create_gpu_info_from_specs;
use armgpuinfo::detect::query_gpu_auto_result;
use armgpuinfo::text::decimal_string;
use armgpuinfo::{
    Errno, GpuError, GpuInfo, GpuInfoBuilder, GpuVendor, IoErrorKind, IoFailure, MaliData,
};

fn mali_info(name: &str, bus: u64) -> GpuInfo {
    GpuInfo::builder()
        .gpu_name(name)
        .architecture("Valhall")
        .architecture_major(9)
        .architecture_minor(1)
        .gpu_id(0x9000)
        .raw_gpu_id(0x9000_0011)
        .num_shader_cores(8)
        .num_l2_bytes(512 * 1024)
        .num_bus_bits(bus)
        .num_fp32_fmas_per_core(32)
        .num_fp16_fmas_per_core(64)
        .build()
        .unwrap()
}

#[test]
fn builder_fills_mali_descriptor() {
    let info = mali_info("Mali-G77", 0);
    assert_eq!(info.vendor, GpuVendor::Mali);
    assert_eq!(info.gpu_name, "Mali-G77");
    assert_eq!(info.num_bus_bits, 0);
    let m = info.mali_data.unwrap();
    assert_eq!(m.gpu_id, 0x9000);
    assert_eq!(m.shader_core_mask, 0);
    assert_eq!(m.num_fp32_fmas_per_core, 32);
    assert!(info.adreno_data.is_none());
}

#[test]
fn builder_reports_first_missing_field() {
    assert_eq!(GpuInfo::builder().build().unwrap_err(), "GPU ID required");
    assert_eq!(GpuInfoBuilder::new().gpu_id(1).build().unwrap_err(), "Raw GPU ID required");
    assert_eq!(
        GpuInfo::builder().gpu_id(1).raw_gpu_id(2).gpu_name("x").build().unwrap_err(),
        "Architecture required"
    );
    assert_eq!(
        GpuInfo::builder()
            .gpu_id(1)
            .raw_gpu_id(2)
            .gpu_name("x")
            .architecture("y")
            .architecture_major(1)
            .architecture_minor(0)
            .num_shader_cores(1)
            .build()
            .unwrap_err(),
        "L2 cache size required"
    );
}

#[test]
fn mali_summary_with_and_without_bus() {
    assert_eq!(
        mali_info("Mali-G77", 128).to_string(),
        "Mali-G77 (Valhall), Architecture: 9.1, Cores: 8, L2: 512 KB, Bus: 128 bits"
    );
    assert_eq!(
        mali_info("Mali-G77", 0).to_string(),
        "Mali-G77 (Valhall), Architecture: 9.1, Cores: 8, L2: 512 KB"
    );
}

#[test]
fn mali_summary_without_name_shows_hex_id() {
    let mut info = mali_info("x", 0);
    info.gpu_name = String::new();
    info.mali_data = Some(MaliData { gpu_id: 0xa2, ..info.mali_data.unwrap() });
    assert_eq!(info.to_string(), "GPU ID: 0x00A2, Cores: 8, L2: 512 KB");
    info.mali_data = Some(MaliData { gpu_id: 0x12345, ..info.mali_data.unwrap() });
    assert_eq!(info.to_string(), "GPU ID: 0x12345, Cores: 8, L2: 512 KB");
}

#[test]
fn adreno_summary() {
    let d = KgslDeviceInfo { chip_id: 0x0706_0001, gmem_sizebytes: 1, ..KgslDeviceInfo::default() };
    let info = create_gpu_info_from_specs(&d, &find_adreno_specs(d.chip_id).unwrap());
    assert_eq!(
        info.to_string(),
        "Adreno 740 (Adreno 7xx 7.6), Cores: 6, GMEM: 3072 KB, Bus: 256 bits Measured"
    );
}

#[test]
fn unknown_vendor_summary_and_capabilities() {
    let mut info = mali_info("Thing", 0);
    info.vendor = GpuVendor::Unknown;
    assert_eq!(info.to_string(), "Unknown GPU: Thing");
    assert!(!info.supports_fp16());
    assert_eq!(info.calculate_fp32_flops(1_000), 0);
    assert_eq!(GpuVendor::Adreno.name(), "Qualcomm Adreno");
}

#[test]
fn adreno_flops_without_detail_block() {
    let mut info = mali_info("A", 0);
    info.vendor = GpuVendor::Adreno;
    info.adreno_data = None;
    info.architecture_major = 5;
    assert_eq!(info.calculate_fp32_flops(10), 8 * 128 * 2 * 10);
    assert!(!info.supports_fp16());
}

#[test]
fn decimal_rendering() {
    assert_eq!(decimal_string(0), "0");
    assert_eq!(decimal_string(907), "907");
    assert_eq!(decimal_string(u64::MAX), u64::MAX.to_string());
}

#[test]
fn error_predicates() {
    let denied = IoFailure { kind: IoErrorKind::PermissionDenied, errno: Some(Errno::AccessDenied) };
    let missing = IoFailure { kind: IoErrorKind::NotFound, errno: None };
    assert!(GpuError::DeviceNotFound.is_device_not_found());
    assert!(GpuError::DeviceNotFound.is_not_found_error());
    assert!(GpuError::Io(missing).is_not_found_error());
    assert!(GpuError::Io(missing).is_io_error());
    assert!(GpuError::UnsupportedGpu { id: 1, cores: 2 }.is_unsupported_gpu());
    assert!(GpuError::IoctlFailed { request: 3, source: denied }.is_ioctl_error());
    assert!(GpuError::IoctlFailed { request: 3, source: denied }.is_permission_error());
    assert!(GpuError::PermissionDenied.is_permission_error());
    assert!(!GpuError::DriverNotSupported.is_permission_error());
    assert!(GpuError::DriverNotSupported.is_driver_not_supported());
    assert!(GpuError::InvalidGpuProperties("x".to_string()).is_invalid_properties());
    assert_eq!(GpuError::AdrenoPropertyError { property: 1, source: denied }.as_io_error(), Some(&denied));
    assert_eq!(GpuError::InvalidPropertySize(5).as_io_error(), None);
}

#[test]
fn auto_detection_takes_first_success() {
    let a = mali_info("A", 0);
    let b = mali_info("B", 0);
    assert_eq!(query_gpu_auto_result(Some(Ok(a)), Some(Ok(b))).unwrap().gpu_name, "A");
    let b = mali_info("B", 0);
    assert_eq!(
        query_gpu_auto_result(Some(Err(GpuError::DeviceNotFound)), Some(Ok(b))).unwrap().gpu_name,
        "B"
    );
    assert_eq!(query_gpu_auto_result(None, None).unwrap_err(), GpuError::DeviceNotFound);
    assert_eq!(
        query_gpu_auto_result(None, Some(Err(GpuError::PermissionDenied))).unwrap_err(),
        GpuError::DeviceNotFound
    );
}
