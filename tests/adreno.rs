use armgpuinfo::adreno::database::{find_adreno_specs, AdrenoArch, SpecConfidence};
use armgpuinfo::adreno::ioctl::{KgslDeviceInfo, KgslPropertyType};
use armgpuinfo::adreno::ioctl_detect::{detect_request, test_ioctl, KgslIoctls};
use armgpuinfo::adreno::ioctl_impl::{
    device_info_next, device_info_request, detect_working_ioctl_next, get_property_next,
    DeviceInfoStep, IoctlOutcome, ProbeStep, KGSL_IOCTL_GETPROPERTY,
};
use armgpuinfo::adreno::parser::{
    parse_device_info, parse_device_info_lenient, parse_device_info_strict, KgslPropertyId,
    KgslPropertyParser, ParsedDeviceInfo, ParserConfig,
};
use armgpuinfo::adreno::query::{
    create_gpu_info_from_specs, needs_warning, query_adreno_info, validate_extended_info,
};
use armgpuinfo::adreno::strategy::{ExtendedStrategy, ParityStrategy};
use armgpuinfo::adreno::Mode;
use armgpuinfo::{Errno, GpuError, GpuVendor, IoErrorKind, IoFailure};

fn device_info(chip_id: u32, gmem: u32) -> KgslDeviceInfo {
    KgslDeviceInfo {
        device_id: 1,
        chip_id,
        mmu_enabled: 1,
        gmem_gpubaseaddr: 0x10_0000,
        gmem_sizebytes: gmem,
        unknown1: 0,
        unknown2: 0,
        gpu_model: 0x730,
    }
}

fn first_fields(chip_id: u32, gmem: u32) -> Vec<u8> {
    let mut b = Vec::new();
    for v in [1u32, chip_id, 1, 0x10_0000, gmem] {
        b.extend_from_slice(&v.to_le_bytes());
    }
    b
}

fn failure(errno: Errno) -> IoFailure {
    IoFailure { kind: IoErrorKind::Other, errno: Some(errno) }
}

#[test]
fn fixed_layout_twenty_bytes_adreno_730() {
    let b = first_fields(0x0703_0001, 0x20_0000);
    assert_eq!(b.len(), 20);
    let info = parse_device_info(&b, ParserConfig::parity()).unwrap();
    assert_eq!(info.chip_id, 0x0703_0001);
    assert_eq!(info.arch_major, 7);
    assert_eq!(info.arch_minor, 3);
    assert_eq!(info.gpu_model, 0);
    let specs = find_adreno_specs(info.chip_id).unwrap();
    assert_eq!(specs.name, "Adreno 730");
    assert_eq!(specs.architecture, AdrenoArch::A7xx);
    assert_eq!(specs.confidence, SpecConfidence::Measured);
    assert!(parse_device_info_strict(&b).is_ok());
}

#[test]
fn zero_chip_id_extended_fails_with_invalid_data() {
    let b = first_fields(0, 0x20_0000);
    let decoded = parse_device_info_lenient(&b);
    assert_eq!(decoded.chip_id, 0);
    assert_eq!(decoded.gmem_sizebytes, 0x20_0000);
    let r = query_adreno_info(&device_info(0, 0x20_0000), Mode::Extended);
    assert_eq!(r.unwrap_err(), GpuError::InvalidData("Chip ID is zero".to_string()));
}

#[test]
fn unknown_chip_outside_fallback_is_unsupported() {
    assert!(find_adreno_specs(0x0900_0000).is_none());
    assert_eq!(
        query_adreno_info(&device_info(0x0900_0000, 0x20_0000), Mode::Parity).unwrap_err(),
        GpuError::UnsupportedGpu { id: 0x0900_0000, cores: 0 }
    );
}

#[test]
fn chip_id_components_reassemble() {
    let mut b = first_fields(0x0A0B_0C0D, 1);
    b.extend_from_slice(&[0; 12]);
    let p = parse_device_info_lenient(&b);
    assert_eq!((p.arch_major, p.arch_minor, p.generation, p.revision), (0x0A, 0x0B, 0x0C, 0x0D));
    let back = ((p.arch_major as u32) << 24)
        | ((p.arch_minor as u32) << 16)
        | ((p.generation as u32) << 8)
        | p.revision as u32;
    assert_eq!(back, p.chip_id);
}

#[test]
fn extract_architecture_splits_bytes() {
    let mut p = ParsedDeviceInfo::empty();
    p.chip_id = 0x0605_0403;
    assert!(p.extract_architecture().is_ok());
    assert_eq!((p.arch_major, p.arch_minor, p.generation, p.revision), (6, 5, 4, 3));
}

#[test]
fn resolution_tiers() {
    assert_eq!(find_adreno_specs(0x0601_0001).unwrap().name, "Adreno 618");
    assert_eq!(find_adreno_specs(0x0601_0099).unwrap().name, "Adreno 610");
    let generic = find_adreno_specs(0x0777_0000).unwrap();
    assert_eq!(generic.name, "Adreno 7xx (unknown variant)");
    assert_eq!(generic.confidence, SpecConfidence::Heuristic);
    assert_eq!(find_adreno_specs(0x0800_0000).unwrap().architecture, AdrenoArch::A8xx);
    assert!(find_adreno_specs(0x0300_0000).is_none());
}

#[test]
fn adreno_resolution_is_idempotent() {
    let a = find_adreno_specs(0x0706_0001).unwrap();
    let b = find_adreno_specs(0x0706_0001).unwrap();
    assert_eq!(a.name, b.name);
    assert_eq!(a.stream_processors, b.stream_processors);
    assert_eq!(a.snapdragon_models, b.snapdragon_models);
}

#[test]
fn short_buffer_follows_policy() {
    let b = [0u8; 12];
    assert_eq!(parse_device_info_lenient(&b), ParsedDeviceInfo::empty());
    assert_eq!(
        parse_device_info_strict(&b),
        Err(GpuError::BufferTooSmall { expected: 20, actual: 12 })
    );
}

#[test]
fn strict_decoding_validates_architecture() {
    let b = first_fields(0x0502_0000, 0x8_0000);
    assert_eq!(
        parse_device_info_strict(&b),
        Err(GpuError::UnsupportedArchitecture {
            chip_id: 0x0502_0000,
            architecture: "Adreno 5xx".to_string()
        })
    );
    let z = first_fields(0, 0x8_0000);
    assert_eq!(parse_device_info_strict(&z), Err(GpuError::InvalidData("Chip ID is zero".to_string())));
    let g = first_fields(0x0703_0001, 0);
    assert_eq!(
        parse_device_info_strict(&g),
        Err(GpuError::InvalidData("GPU memory size is zero".to_string()))
    );
}

#[test]
fn device_info_bytes_round_trip() {
    let d = device_info(0x0703_0001, 0x20_0000);
    let bytes = d.to_bytes();
    assert_eq!(bytes.len(), 32);
    assert_eq!(&bytes[4..8], &0x0703_0001u32.to_le_bytes());
    let p = parse_device_info(&bytes, ParserConfig::extended()).unwrap();
    assert_eq!(p.device_id, 1);
    assert!(p.mmu_enabled);
    assert_eq!(p.gmem_baseaddr, 0x10_0000);
    assert_eq!(p.gmem_sizebytes, 0x20_0000);
    assert_eq!(p.gpu_model, 0x730);
    assert_eq!(KgslDeviceInfo::default().to_bytes(), vec![0u8; 32]);
}

#[test]
fn parser_new_then_parse() {
    let b = first_fields(0x0605_0000, 0x1000);
    let parser = KgslPropertyParser::new(&b, ParserConfig::parity());
    assert_eq!(parser.info, ParsedDeviceInfo::empty());
    assert_eq!(parser.parse_device_info().unwrap().arch_minor, 5);
    assert_eq!(KgslPropertyId::from_raw(3), Some(KgslPropertyId::GmemInfo));
    assert_eq!(KgslPropertyId::from_raw(9), None);
    assert_eq!(KgslPropertyType::DeviceInfo.code(), 1);
}

#[test]
fn adreno_descriptor_fields() {
    let d = device_info(0x0703_0001, 0x20_0000);
    let specs = find_adreno_specs(d.chip_id).unwrap();
    let info = create_gpu_info_from_specs(&d, &specs);
    assert_eq!(info.vendor, GpuVendor::Adreno);
    assert_eq!(info.gpu_name, "Adreno 730");
    assert_eq!(info.architecture, "Adreno 7xx");
    assert_eq!((info.architecture_major, info.architecture_minor), (7, 3));
    assert_eq!(info.num_shader_cores, 4);
    assert_eq!(info.num_l2_bytes, 2048 * 1024);
    assert_eq!(info.num_bus_bits, 128);
    let a = info.adreno_data.as_ref().unwrap();
    assert_eq!(a.spec_confidence, "Measured");
    assert_eq!(a.snapdragon_models, vec!["8 Gen 1".to_string(), "8+ Gen 1".to_string()]);
    assert_eq!(a.gpu_model_code, 0x730);
    assert!(a.mmu_enabled);
    assert!(validate_extended_info(&info).is_ok());
    assert_eq!(info.calculate_fp32_flops(1000), 768 * 2 * 1000);
    assert!(info.supports_fp16());
}

#[test]
fn extended_query_checks_gmem_and_sanity() {
    assert_eq!(
        query_adreno_info(&device_info(0x0703_0001, 0), Mode::Extended).unwrap_err(),
        GpuError::InvalidData("GPU memory size is zero".to_string())
    );
    assert!(query_adreno_info(&device_info(0x0703_0001, 0), Mode::Parity).is_ok());
    assert!(query_adreno_info(&device_info(0x0703_0001, 1), Mode::Extended).is_ok());
    assert_eq!(Mode::default(), Mode::Parity);
}

#[test]
fn strategies_on_device_info_bytes() {
    let bytes = device_info(0x0601_0200, 0x8_0000).to_bytes();
    let parity = ParityStrategy.query_bytes(&bytes).unwrap();
    assert_eq!(parity.gpu_name, "Adreno 612/615/616");
    match ExtendedStrategy.query_bytes(&bytes) {
        Err(GpuError::InsufficientData { chip_id, .. }) => assert_eq!(chip_id, 0x0601_0200),
        other => panic!("unexpected {:?}", other),
    }
    let measured = device_info(0x0601_0000, 0x8_0000).to_bytes();
    assert_eq!(ExtendedStrategy.query_bytes(&measured).unwrap().gpu_name, "Adreno 610");
    assert_eq!(
        ParityStrategy.query_bytes(&[0u8; 4]).unwrap_err(),
        GpuError::UnsupportedGpu { id: 0, cores: 0 }
    );
    assert_eq!(ParityStrategy.extract_architecture(0x0703_0001), (7, 3));
    assert!(ExtendedStrategy.should_validate());
    assert!(!ParityStrategy.should_validate());
}

#[test]
fn device_info_search_decisions() {
    assert_eq!(device_info_request(0), Some(KGSL_IOCTL_GETPROPERTY));
    assert_eq!(device_info_request(1), Some(0x8000_6738));
    assert_eq!(device_info_request(8), Some(0xc000_6740));
    assert_eq!(device_info_request(9), None);
    let d = device_info(0x0703_0001, 1);
    assert_eq!(device_info_next(0, Ok(d)), DeviceInfoStep::Found(d));
    assert_eq!(
        device_info_next(0, Err(failure(Errno::NotTty))),
        DeviceInfoStep::Retry(1, GpuError::DriverNotSupported)
    );
    assert_eq!(
        device_info_next(0, Err(failure(Errno::AccessDenied))),
        DeviceInfoStep::Fail(GpuError::PermissionDenied)
    );
    assert_eq!(
        device_info_next(0, Err(failure(Errno::NoDevice))),
        DeviceInfoStep::Fail(GpuError::DeviceNotFound)
    );
    assert!(matches!(
        device_info_next(3, Ok(device_info(0, 1))),
        DeviceInfoStep::Retry(4, GpuError::InvalidData(_))
    ));
    let other = failure(Errno::Other(5));
    assert_eq!(
        device_info_next(8, Err(other)),
        DeviceInfoStep::Fail(GpuError::IoctlFailed { request: 0xc000_6740, source: other })
    );
}

#[test]
fn working_request_detection() {
    assert_eq!(detect_working_ioctl_next(0, IoctlOutcome::Accepted), ProbeStep::Done(Ok(KGSL_IOCTL_GETPROPERTY)));
    assert_eq!(
        detect_working_ioctl_next(2, IoctlOutcome::Failed(failure(Errno::InvalidArgument))),
        ProbeStep::Done(Ok(0x8000_6739))
    );
    assert_eq!(
        detect_working_ioctl_next(1, IoctlOutcome::Failed(failure(Errno::NotTty))),
        ProbeStep::TryNext(2)
    );
    assert_eq!(
        detect_working_ioctl_next(4, IoctlOutcome::Failed(failure(Errno::NotTty))),
        ProbeStep::Done(Err(GpuError::DriverNotSupported))
    );
}

#[test]
fn property_request_decisions() {
    let t = KgslPropertyType::DeviceInfo;
    assert_eq!(get_property_next(0, t, IoctlOutcome::Accepted), ProbeStep::Done(Ok(())));
    assert_eq!(get_property_next(0, t, IoctlOutcome::Failed(failure(Errno::NotTty))), ProbeStep::TryNext(1));
    let denied = failure(Errno::AccessDenied);
    assert_eq!(
        get_property_next(2, t, IoctlOutcome::Failed(denied)),
        ProbeStep::Done(Err(GpuError::AdrenoPropertyError { property: 1, source: denied }))
    );
    assert_eq!(
        get_property_next(4, t, IoctlOutcome::Failed(failure(Errno::NotTty))),
        ProbeStep::Done(Err(GpuError::DriverNotSupported))
    );
}

#[test]
fn request_number_discovery() {
    assert_eq!(detect_request(0), 0x8000_8000);
    assert_eq!(detect_request(2), 0x8001_9CE0);
    assert_eq!(test_ioctl(1, IoctlOutcome::Failed(failure(Errno::NotPermitted))), Err(GpuError::PermissionDenied));
    assert_eq!(test_ioctl(1, IoctlOutcome::Failed(failure(Errno::InvalidArgument))), Ok(()));
    let start = KgslIoctls::default();
    assert_eq!(start.get_property, KGSL_IOCTL_GETPROPERTY);
    assert_eq!(start.version, 0x8004_A001);
    assert_eq!(
        start.detect_next(1, IoctlOutcome::Accepted),
        ProbeStep::Done(Ok(KgslIoctls { get_property: detect_request(1), version: 0x8004_A001 }))
    );
    assert_eq!(start.detect_next(1, IoctlOutcome::Failed(failure(Errno::NotTty))), ProbeStep::TryNext(2));
    assert_eq!(
        start.detect_next(6, IoctlOutcome::Failed(failure(Errno::NotTty))),
        ProbeStep::Done(Err(GpuError::DriverNotSupported))
    );
}

#[test]
fn extended_warnings() {
    let mut d = device_info(0x0601_0200, 1);
    let heuristic = find_adreno_specs(d.chip_id).unwrap();
    let measured = find_adreno_specs(0x0703_0001).unwrap();
    assert!(needs_warning(&d, Some(&heuristic)));
    assert!(!needs_warning(&d, Some(&measured)));
    assert!(!needs_warning(&d, None));
    d.device_id = 0;
    assert!(needs_warning(&d, None));
}

#[test]
fn zero_chip_id_parity_goes_to_resolution() {
    assert_eq!(
        query_adreno_info(&device_info(0, 0x20_0000), Mode::Parity).unwrap_err(),
        GpuError::UnsupportedGpu { id: 0, cores: 0 }
    );
    assert_eq!(
        ParityStrategy.query_bytes(&device_info(0, 0x20_0000).to_bytes()).unwrap_err(),
        GpuError::UnsupportedGpu { id: 0, cores: 0 }
    );
}
