use armgpuinfo::mali::database::{
    get_gpu_id, get_num_eng_g31, get_num_eng_g51, get_num_eng_g52, get_num_fma_g510,
    get_num_pix_g510, get_num_tex_g510, get_num_eng_g510, get_num_1, get_num_64, lookup_product,
    product, select_product, extract_architecture, PerCoreCount, MASK_NEW,
};
use armgpuinfo::mali::parser::{
    count_ones, parse_properties, parse_properties_lenient, parse_properties_strict,
    ParsedProperties, ParserConfig,
};
use armgpuinfo::mali::query::{
    mali_info_extended, mali_info_parity, optional_ioctl_result, properties_size_result,
    query_mali_info, GET_PROPS, SET_FLAGS,
};
use armgpuinfo::{Errno, GpuError, GpuVendor, IoErrorKind, IoFailure, Mode};

/// Appends one property record: the key `(id << 2) | class` and the value in
/// the width the class names.
fn record(buf: &mut Vec<u8>, id: u32, class: u32, value: u64) {
    buf.extend_from_slice(&((id << 2) | class).to_le_bytes());
    let width = [1usize, 2, 4, 8][class as usize];
    buf.extend_from_slice(&value.to_le_bytes()[..width]);
}

fn g77_stream() -> Vec<u8> {
    let mut b = Vec::new();
    record(&mut b, 1, 2, 0x9000);
    record(&mut b, 64, 3, 0x3);
    record(&mut b, 65, 3, 0x0);
    b
}

#[test]
fn tlv_scenario_g77_parity() {
    let b = g77_stream();
    let p = parse_properties_lenient(&b);
    assert_eq!(p.gpu_id, 0x9000);
    assert_eq!(p.shader_core_mask, 0x3);
    assert_eq!(p.num_shader_cores, 2);
    let entry = lookup_product(get_gpu_id(p.gpu_id), p.num_shader_cores).expect("row");
    assert_eq!(entry.id, 0x9000);
    assert_eq!(entry.mask, 0xF00F);
    assert_eq!(entry.min_cores, 1);
    assert_eq!(entry.name, "Mali-G77");
}

#[test]
fn core_count_is_popcount_of_mask() {
    let mut b = Vec::new();
    record(&mut b, 62, 0, 2);
    record(&mut b, 64, 3, 0xF0F0);
    record(&mut b, 65, 2, 0x1_0001);
    let p = parse_properties(&b, ParserConfig::extended()).unwrap();
    assert_eq!(p.shader_core_mask, 0x1_F0F1);
    assert_eq!(p.num_shader_cores, 10);
    assert_eq!(p.num_shader_cores, p.shader_core_mask.count_ones());
}

#[test]
fn count_ones_matches_std() {
    for x in [0u64, 1, 2, 3, 0xFF, 0x8000_0000_0000_0000, u64::MAX, 0x1234_5678_9ABC_DEF0] {
        assert_eq!(count_ones(x), x.count_ones());
    }
}

#[test]
fn truncated_stream_parity_never_fails() {
    let mut b = Vec::new();
    record(&mut b, 15, 2, 4);
    b.extend_from_slice(&((1u32 << 2) | 2).to_le_bytes());
    b.extend_from_slice(&[0x00, 0x90]);
    let p = parse_properties_lenient(&b);
    assert_eq!(p.num_l2_slices, 4);
    assert_eq!(p.gpu_id, 0);
    assert!(parse_properties(&b, ParserConfig::parity()).is_ok());
}

#[test]
fn truncated_stream_extended_is_buffer_too_small() {
    let mut b = Vec::new();
    record(&mut b, 15, 2, 4);
    b.extend_from_slice(&((1u32 << 2) | 2).to_le_bytes());
    b.extend_from_slice(&[0x00, 0x90]);
    assert_eq!(
        parse_properties_strict(&b),
        Err(GpuError::BufferTooSmall { expected: 16, actual: 14 })
    );
}

#[test]
fn partial_key_follows_policy() {
    let mut b = g77_stream();
    assert_eq!(b.len(), 32);
    b.extend_from_slice(&[0x01, 0x02]);
    assert_eq!(
        parse_properties_strict(&b),
        Err(GpuError::BufferTooSmall { expected: 36, actual: 34 })
    );
    assert_eq!(parse_properties_lenient(&b).num_shader_cores, 2);
    assert_eq!(parse_properties_lenient(&b).gpu_id, 0x9000);
    b.push(0x03);
    assert_eq!(
        parse_properties_strict(&b),
        Err(GpuError::BufferTooSmall { expected: 36, actual: 35 })
    );
}

#[test]
fn empty_buffer_gives_empty_properties() {
    assert_eq!(parse_properties_strict(&[]), Ok(ParsedProperties::empty()));
    assert_eq!(parse_properties_lenient(&[]), ParsedProperties::default());
}

#[test]
fn value_widths_are_little_endian() {
    let mut b = Vec::new();
    record(&mut b, 30, 0, 0xAB);
    record(&mut b, 59, 1, 0xBEEF);
    record(&mut b, 55, 3, 0x0102_0304_0506_0708);
    record(&mut b, 29, 2, 0x0700_0000);
    let p = parse_properties_strict(&b).unwrap();
    assert_eq!(p.raw_core_features, 0xAB);
    assert_eq!(p.raw_thread_features, 0xBEEF);
    assert_eq!(p.raw_gpu_id, 0x0102_0304_0506_0708);
    assert_eq!(p.raw_l2_features, 0x0700_0000);
}

#[test]
fn masks_without_group_count_follow_policy() {
    let mut b = Vec::new();
    record(&mut b, 64, 3, 0x3);
    assert_eq!(parse_properties(&b, ParserConfig::parity()).unwrap().shader_core_mask, 0x3);
    assert_eq!(parse_properties(&b, ParserConfig::extended()).unwrap().shader_core_mask, 0);
}

#[test]
fn out_of_bounds_group_mask_follows_policy() {
    let mut b = Vec::new();
    record(&mut b, 62, 0, 1);
    record(&mut b, 64, 3, 0x1);
    record(&mut b, 65, 3, 0x6);
    assert_eq!(parse_properties(&b, ParserConfig::parity()).unwrap().shader_core_mask, 0x7);
    let strict = parse_properties(&b, ParserConfig::extended()).unwrap();
    assert_eq!(strict.shader_core_mask, 0x1);
    assert_eq!(strict.num_shader_cores, 1);
}

#[test]
fn unknown_ids_are_skipped() {
    let mut b = Vec::new();
    record(&mut b, 2, 2, 0xFFFF_FFFF);
    record(&mut b, 80, 3, 0xFF);
    record(&mut b, 1, 2, 0x7002);
    let p = parse_properties_strict(&b).unwrap();
    assert_eq!(p.gpu_id, 0x7002);
    assert_eq!(p.shader_core_mask, 0);
}

#[test]
fn masked_tie_break_on_product_table() {
    assert_eq!(lookup_product(0xc000, 6).unwrap().name, "Mali-G720");
    assert_eq!(lookup_product(0xc000, 5).unwrap().name, "Mali-G620");
    assert_eq!(lookup_product(0xc000, 12).unwrap().name, "Immortalis-G720");
    assert!(lookup_product(0xd000, 5).is_none());
}

#[test]
fn masked_tie_break_on_two_rows() {
    let c = PerCoreCount::One;
    let table = [
        product(0x9000, MASK_NEW, 1, "Low", "Valhall", c, c, c, c),
        product(0x9000, MASK_NEW, 6, "High", "Valhall", c, c, c, c),
    ];
    assert_eq!(select_product(&table, 0x9000, 6).unwrap().name, "High");
    assert_eq!(select_product(&table, 0x9000, 5).unwrap().name, "Low");
    assert!(select_product(&table, 0x9000, 0).is_none());
}

#[test]
fn resolution_is_idempotent() {
    let a = lookup_product(get_gpu_id(0xb012), 8).unwrap();
    let b = lookup_product(get_gpu_id(0xb012), 8).unwrap();
    assert_eq!((a.id, a.min_cores, a.name, a.architecture), (b.id, b.min_cores, b.name, b.architecture));
    assert_eq!(a.name, "Mali-G715");
    assert_eq!(
        a.get_num_exec_engines.eval(8, 3, 0),
        b.get_num_exec_engines.eval(8, 3, 0)
    );
}

#[test]
fn product_ids_are_normalised_by_mask() {
    assert_eq!(get_gpu_id(0x9080), 0x9000);
    assert_eq!(get_gpu_id(0x0750), 0x0750);
    assert_eq!(get_gpu_id(0x1234), 0x1234);
}

#[test]
fn per_core_counts() {
    assert_eq!(get_num_1(7, 7, 7), 1);
    assert_eq!(get_num_64(0, 0, 0), 64);
    assert_eq!(get_num_eng_g31(1, 0, 0x2000), 1);
    assert_eq!(get_num_eng_g31(2, 0, 0x2000), 2);
    assert_eq!(get_num_eng_g51(1, 0, 0x1_2000), 1);
    assert_eq!(get_num_eng_g51(1, 0, 0x2001), 3);
    assert_eq!(get_num_eng_g52(0, 0x13, 0), 3);
    assert_eq!(get_num_fma_g510(0, 0, 0), 16);
    assert_eq!(get_num_fma_g510(0, 3, 0), 24);
    assert_eq!(get_num_fma_g510(0, 4, 0), 32);
    assert_eq!(get_num_tex_g510(0, 5, 0), 2);
    assert_eq!(get_num_tex_g510(0, 6, 0), 4);
    assert_eq!(get_num_tex_g510(0, 7, 0), 8);
    assert_eq!(get_num_pix_g510(0, 6, 0), 2);
    assert_eq!(get_num_pix_g510(0, 2, 0), 4);
    assert_eq!(get_num_eng_g510(0, 1, 0), 1);
    assert_eq!(get_num_eng_g510(0, 0xF, 0), 2);
    assert_eq!(PerCoreCount::EngG52.eval(0, 0x2, 0), 2);
}

#[test]
fn architecture_from_raw_gpu_id() {
    assert_eq!(extract_architecture(0x9000_0000), (9, 0));
    assert_eq!(extract_architecture(0x7210_0000), (7, 2));
    assert_eq!(extract_architecture(0x0A08_0000_F000_0000), (10, 8));
}

fn g77_full_stream() -> Vec<u8> {
    let mut b = Vec::new();
    record(&mut b, 1, 2, 0x9000);
    record(&mut b, 14, 0, 18);
    record(&mut b, 15, 0, 2);
    record(&mut b, 29, 2, 0x0700_0000);
    record(&mut b, 55, 2, 0x9000_0011);
    record(&mut b, 62, 0, 1);
    record(&mut b, 64, 3, 0xFF);
    b
}

#[test]
fn parity_descriptor_of_g77() {
    let info = mali_info_parity(&g77_full_stream());
    assert_eq!(info.vendor, GpuVendor::Mali);
    assert_eq!(info.gpu_name, "Mali-G77");
    assert_eq!(info.architecture, "Valhall");
    assert_eq!((info.architecture_major, info.architecture_minor), (9, 0));
    assert_eq!(info.num_shader_cores, 8);
    assert_eq!(info.num_l2_bytes, 512 * 1024);
    assert_eq!(info.num_bus_bits, 0);
    let m = info.mali_data.unwrap();
    assert_eq!(m.gpu_id, 0x9000);
    assert_eq!(m.num_fp32_fmas_per_core, 0);
}

#[test]
fn parity_descriptor_without_table_row() {
    let mut b = Vec::new();
    record(&mut b, 1, 2, 0x1234);
    let info = query_mali_info(&b, Mode::Parity).unwrap();
    assert_eq!(info.gpu_name, "");
    assert_eq!(info.architecture, "");
    assert_eq!(info.num_l2_bytes, 0);
    assert_eq!(info.mali_data.unwrap().gpu_id, 0x1234);
}

#[test]
fn extended_descriptor_of_g77() {
    let info = mali_info_extended(&g77_full_stream()).unwrap();
    assert_eq!(info.gpu_name, "Mali-G77");
    assert_eq!(info.num_shader_cores, 8);
    assert_eq!(info.num_l2_bytes, 512 * 1024);
    assert_eq!(info.num_bus_bits, 128);
    let m = info.mali_data.unwrap();
    assert_eq!(m.num_exec_engines, 2);
    assert_eq!(m.num_fp32_fmas_per_core, 32);
    assert_eq!(m.num_fp16_fmas_per_core, 64);
    assert_eq!(m.num_texels_per_core, 4);
    assert_eq!(m.num_pixels_per_core, 2);
    assert_eq!(info.calculate_fp32_flops(1_000_000_000), 32 * 8 * 2_000_000_000);
    assert!(info.supports_fp16());
}

#[test]
fn extended_unknown_product_is_unsupported_gpu() {
    let mut b = Vec::new();
    record(&mut b, 1, 2, 0x1234);
    record(&mut b, 62, 0, 1);
    record(&mut b, 64, 3, 0x3);
    assert_eq!(
        query_mali_info(&b, Mode::Extended).unwrap_err(),
        GpuError::UnsupportedGpu { id: 0x1234, cores: 2 }
    );
}

#[test]
fn extended_zero_l2_is_invalid_data() {
    let mut b = Vec::new();
    record(&mut b, 1, 2, 0x9000);
    record(&mut b, 62, 0, 1);
    record(&mut b, 64, 3, 0x3);
    assert!(matches!(mali_info_extended(&b), Err(GpuError::InvalidData(_))));
}

#[test]
fn extended_oversized_bus_is_invalid_data() {
    let mut b = g77_full_stream();
    record(&mut b, 29, 2, 0x4000_0000);
    assert!(matches!(mali_info_extended(&b), Err(GpuError::InvalidData(_))));
}

#[test]
fn optional_call_outcomes() {
    let denied = IoFailure { kind: IoErrorKind::PermissionDenied, errno: Some(Errno::AccessDenied) };
    let other = IoFailure { kind: IoErrorKind::Other, errno: Some(Errno::Other(5)) };
    assert_eq!(optional_ioctl_result(Ok(()), SET_FLAGS), Ok(()));
    assert_eq!(optional_ioctl_result(Err(denied), SET_FLAGS), Ok(()));
    assert_eq!(
        optional_ioctl_result(Err(other), SET_FLAGS),
        Err(GpuError::IoctlFailed { request: SET_FLAGS, source: other })
    );
}

#[test]
fn property_size_outcomes() {
    let other = IoFailure { kind: IoErrorKind::Other, errno: None };
    assert_eq!(properties_size_result(Ok(64)), Ok(64));
    assert!(matches!(properties_size_result(Ok(0)), Err(GpuError::InvalidData(_))));
    assert_eq!(
        properties_size_result(Err(other)),
        Err(GpuError::IoctlFailed { request: GET_PROPS, source: other })
    );
}
