//! Decoder for the fixed-layout KGSL device-info record.
use vstd::prelude::*;
use vstd::bytes::{spec_u32_from_le_bytes, u32_from_le_bytes};
use vstd::slice::slice_subrange;
use vstd::string::StringExecFns;
use crate::error::{GpuError, GpuResult};
use crate::text::{decimal, push_decimal};

verus! {

/// KGSL property ids.
#[derive(Debug, Clone, Copy, PartialEq, Eq, Structural)]
pub enum KgslPropertyId {
    DeviceInfo,
    ChipId,
    GmemInfo,
    GpuModel,
}

impl KgslPropertyId {
    /// The property with the given number, if it is one of the known ones.
    pub fn from_raw(value: u32) -> (r: Option<KgslPropertyId>)
        ensures
            r == match value {
                1 => Some(KgslPropertyId::DeviceInfo),
                2 => Some(KgslPropertyId::ChipId),
                3 => Some(KgslPropertyId::GmemInfo),
                4 => Some(KgslPropertyId::GpuModel),
                _ => None::<KgslPropertyId>,
            },
    {
        match value {
            1 => Some(KgslPropertyId::DeviceInfo),
            2 => Some(KgslPropertyId::ChipId),
            3 => Some(KgslPropertyId::GmemInfo),
            4 => Some(KgslPropertyId::GpuModel),
            _ => None,
        }
    }
}

/// Strictness of the device-info decoder.
#[derive(Debug, Clone, Copy, PartialEq, Eq, Structural)]
pub struct ParserConfig {
    /// Tolerate a short buffer: decode it as all zeros instead of failing.
    pub lenient_mode: bool,
    /// Require a non-zero chip id whose architecture-major byte is 6 to 9.
    pub validate_chip_id: bool,
    /// Require the mandatory fields to be present.
    pub require_mandatory: bool,
    /// Accept zero for fields that should not be zero.
    pub allow_zero_values: bool,
}

impl ParserConfig {
    pub open spec fn spec_parity() -> ParserConfig {
        ParserConfig {
            lenient_mode: true,
            validate_chip_id: false,
            require_mandatory: false,
            allow_zero_values: true,
        }
    }

    pub open spec fn spec_extended() -> ParserConfig {
        ParserConfig {
            lenient_mode: false,
            validate_chip_id: true,
            require_mandatory: true,
            allow_zero_values: false,
        }
    }

    /// The most tolerant configuration.
    pub fn parity() -> (r: ParserConfig)
        ensures
            r == ParserConfig::spec_parity(),
    {
        ParserConfig {
            lenient_mode: true,
            validate_chip_id: false,
            require_mandatory: false,
            allow_zero_values: true,
        }
    }

    /// The strictest configuration.
    pub fn extended() -> (r: ParserConfig)
        ensures
            r == ParserConfig::spec_extended(),
    {
        ParserConfig {
            lenient_mode: false,
            validate_chip_id: true,
            require_mandatory: true,
            allow_zero_values: false,
        }
    }
}

/// Device info with the chip id split into its components.
#[derive(Debug, Clone, Copy, PartialEq, Eq, Structural)]
pub struct ParsedDeviceInfo {
    pub device_id: u32,
    /// Chip id, `0xAABBCCDD`: architecture major, minor, generation, revision.
    pub chip_id: u32,
    pub mmu_enabled: bool,
    pub gmem_baseaddr: u32,
    pub gmem_sizebytes: u32,
    pub gpu_model: u32,
    pub arch_major: u8,
    pub arch_minor: u8,
    pub generation: u8,
    pub revision: u8,
}

/// The label of an architecture-major byte, as in "Adreno 5xx".
pub open spec fn arch_label(major: u8) -> Seq<char> {
    "Adreno "@ + decimal(major as nat) + "xx"@
}

/// Whether `e` is `InvalidData` with the message `msg`.
pub open spec fn is_invalid_data(e: GpuError, msg: Seq<char>) -> bool {
    e matches GpuError::InvalidData(m) && m@ == msg
}

impl ParsedDeviceInfo {
    /// Every field zero.
    pub open spec fn spec_empty() -> ParsedDeviceInfo {
        ParsedDeviceInfo {
            device_id: 0,
            chip_id: 0,
            mmu_enabled: false,
            gmem_baseaddr: 0,
            gmem_sizebytes: 0,
            gpu_model: 0,
            arch_major: 0,
            arch_minor: 0,
            generation: 0,
            revision: 0,
        }
    }

    /// A record with every field zero.
    pub fn empty() -> (r: ParsedDeviceInfo)
        ensures
            r == ParsedDeviceInfo::spec_empty(),
    {
        ParsedDeviceInfo {
            device_id: 0,
            chip_id: 0,
            mmu_enabled: false,
            gmem_baseaddr: 0,
            gmem_sizebytes: 0,
            gpu_model: 0,
            arch_major: 0,
            arch_minor: 0,
            generation: 0,
            revision: 0,
        }
    }

    /// This record with its four components taken from its chip id.
    pub open spec fn with_components(self) -> ParsedDeviceInfo {
        ParsedDeviceInfo {
            arch_major: ((self.chip_id >> 24) & 0xFF) as u8,
            arch_minor: ((self.chip_id >> 16) & 0xFF) as u8,
            generation: ((self.chip_id >> 8) & 0xFF) as u8,
            revision: (self.chip_id & 0xFF) as u8,
            ..self
        }
    }

    /// Splits the chip id into architecture major, architecture minor,
    /// generation and revision, most significant byte first.
    pub fn extract_architecture(&mut self) -> (r: Result<(), GpuError>)
        ensures
            *final(self) == old(self).with_components(),
            r is Ok,
    {
        let chip_id = self.chip_id;
        assert(chip_id >> 24 & 0xFF < 256 && chip_id >> 16 & 0xFF < 256 && chip_id >> 8 & 0xFF
            < 256) by (bit_vector);
        self.arch_major = ((self.chip_id >> 24) & 0xFF) as u8;
        self.arch_minor = ((self.chip_id >> 16) & 0xFF) as u8;
        self.generation = ((self.chip_id >> 8) & 0xFF) as u8;
        self.revision = (self.chip_id & 0xFF) as u8;
        Ok(())
    }

    /// Whether the chip id is non-zero with an architecture-major byte of 6 to 9.
    pub open spec fn chip_id_valid(&self) -> bool {
        self.chip_id != 0 && 6 <= self.arch_major <= 9
    }

    /// The error that chip-id validation reports for this record.
    pub open spec fn is_chip_id_error(&self, e: GpuError) -> bool {
        if self.chip_id == 0 {
            is_invalid_data(e, "Chip ID is zero"@)
        } else {
            e matches GpuError::UnsupportedArchitecture { chip_id, architecture } && chip_id
                == self.chip_id && architecture@ == arch_label(self.arch_major)
        }
    }

    /// Checks that the chip id is non-zero and names a supported architecture.
    pub fn validate_chip_id(&self) -> (r: GpuResult<()>)
        ensures
            r is Ok <==> self.chip_id_valid(),
            r matches Err(e) ==> self.is_chip_id_error(e),
    {
        if self.chip_id == 0 {
            return Err(GpuError::InvalidData(String::from_str("Chip ID is zero")));
        }
        let major = self.arch_major;
        if major < 6 || major > 9 {
            let mut architecture = String::from_str("Adreno ");
            push_decimal(&mut architecture, major as u64);
            architecture.append("xx");
            return Err(GpuError::UnsupportedArchitecture { chip_id: self.chip_id, architecture });
        }
        Ok(())
    }
}

/// Splitting a chip id into its four components and reassembling them as
/// `(major << 24) | (minor << 16) | (generation << 8) | revision` gives the
/// chip id back, for every record.
pub proof fn lemma_components_reassemble(info: ParsedDeviceInfo)
    ensures
        ({
            let c = info.with_components();
            ((c.arch_major as u32) << 24u32) | ((c.arch_minor as u32) << 16u32) | ((
            c.generation as u32) << 8u32) | (c.revision as u32) == info.chip_id
        }),
{
    let v = info.chip_id;
    assert(((((v >> 24) & 0xFF) as u8 as u32) << 24u32) | ((((v >> 16) & 0xFF) as u8 as u32)
        << 16u32) | ((((v >> 8) & 0xFF) as u8 as u32) << 8u32) | ((v & 0xFF) as u8 as u32) == v)
        by (bit_vector);
}

/// The fewest bytes that hold the five mandatory fields.
pub const DEVICE_INFO_MIN_LEN: usize = 20;

/// The little-endian 32-bit value at byte offset `off`.
pub open spec fn le_u32_at(b: Seq<u8>, off: int) -> u32 {
    spec_u32_from_le_bytes(b.subrange(off, off + 4))
}

/// The record a buffer of at least `DEVICE_INFO_MIN_LEN` bytes encodes: five
/// mandatory fields, then (from 28 bytes on) two reserved fields, then (with
/// 32 bytes) the model code.
pub open spec fn decoded_device_info(b: Seq<u8>) -> ParsedDeviceInfo {
    (ParsedDeviceInfo {
        device_id: le_u32_at(b, 0),
        chip_id: le_u32_at(b, 4),
        mmu_enabled: le_u32_at(b, 8) != 0,
        gmem_baseaddr: le_u32_at(b, 12),
        gmem_sizebytes: le_u32_at(b, 16),
        gpu_model: if b.len() >= 32 {
            le_u32_at(b, 28)
        } else {
            0
        },
        arch_major: 0,
        arch_minor: 0,
        generation: 0,
        revision: 0,
    }).with_components()
}

/// What decoding `b` under `config` yields, with the error described by
/// `device_info_error_ok` when it is an error.
pub open spec fn device_info_outcome(b: Seq<u8>, config: ParserConfig) -> Option<ParsedDeviceInfo> {
    if b.len() < DEVICE_INFO_MIN_LEN {
        if config.lenient_mode {
            Some(ParsedDeviceInfo::spec_empty())
        } else {
            None
        }
    } else {
        let info = decoded_device_info(b);
        if config.validate_chip_id && !info.chip_id_valid() {
            None
        } else if config.require_mandatory && info.chip_id == 0 {
            None
        } else if config.require_mandatory && info.gmem_sizebytes == 0
            && !config.allow_zero_values {
            None
        } else {
            Some(info)
        }
    }
}

/// The error decoding `b` under `config` reports, where it fails.
pub open spec fn device_info_error_ok(b: Seq<u8>, config: ParserConfig, e: GpuError) -> bool {
    if b.len() < DEVICE_INFO_MIN_LEN {
        e == GpuError::BufferTooSmall { expected: DEVICE_INFO_MIN_LEN, actual: b.len() as usize }
    } else {
        let info = decoded_device_info(b);
        if config.validate_chip_id && !info.chip_id_valid() {
            info.is_chip_id_error(e)
        } else if config.require_mandatory && info.chip_id == 0 {
            is_invalid_data(e, "Missing mandatory chip ID"@)
        } else {
            is_invalid_data(e, "GPU memory size is zero"@)
        }
    }
}

/// Decoder state over one device-info buffer.
pub struct KgslPropertyParser<'a> {
    /// The buffer being decoded.
    pub buffer: &'a [u8],
    /// The read position.
    pub pos: usize,
    /// The configuration in force.
    pub config: ParserConfig,
    /// The record decoded so far.
    pub info: ParsedDeviceInfo,
}

/// The record exactly as laid out, before the chip id is split.
struct RawDeviceInfo {
    device_id: u32,
    chip_id: u32,
    mmu_enabled: u32,
    gmem_gpubaseaddr: u32,
    gmem_sizebytes: u32,
    unknown1: u32,
    unknown2: u32,
    gpu_model: u32,
}

impl<'a> KgslPropertyParser<'a> {
    /// The buffer being decoded.
    pub open spec fn data(&self) -> Seq<u8> {
        self.buffer@
    }

    /// The configuration in force.
    pub open spec fn configuration(&self) -> ParserConfig {
        self.config
    }

    /// The read position.
    pub open spec fn position(&self) -> int {
        self.pos as int
    }

    /// A decoder at the start of `buffer`.
    pub fn new(buffer: &'a [u8], config: ParserConfig) -> (r: Self)
        ensures
            r.data() == buffer@,
            r.configuration() == config,
            r.position() == 0,
            r.info == ParsedDeviceInfo::spec_empty(),
    {
        KgslPropertyParser { buffer, pos: 0, config, info: ParsedDeviceInfo::empty() }
    }

    /// Decodes the device-info record. A buffer shorter than the five
    /// mandatory fields decodes as all zeros when tolerated and is
    /// `BufferTooSmall` otherwise; the configured checks on the chip id and
    /// the mandatory fields then apply, in that order.
    pub fn parse_device_info(self) -> (r: GpuResult<ParsedDeviceInfo>)
        requires
            self.position() == 0,
        ensures
            match device_info_outcome(self.data(), self.configuration()) {
                Some(info) => r == Ok::<ParsedDeviceInfo, GpuError>(info),
                None => r matches Err(e) && device_info_error_ok(
                    self.data(),
                    self.configuration(),
                    e,
                ),
            },
    {
        let mut parser = self;
        if parser.buffer.len() < DEVICE_INFO_MIN_LEN {
            if parser.config.lenient_mode {
                return Ok(ParsedDeviceInfo::empty());
            } else {
                return Err(
                    GpuError::BufferTooSmall {
                        expected: DEVICE_INFO_MIN_LEN,
                        actual: parser.buffer.len(),
                    },
                );
            }
        }
        let raw = parser.parse_raw_device_info();
        let mut info = ParsedDeviceInfo {
            device_id: raw.device_id,
            chip_id: raw.chip_id,
            mmu_enabled: raw.mmu_enabled != 0,
            gmem_baseaddr: raw.gmem_gpubaseaddr,
            gmem_sizebytes: raw.gmem_sizebytes,
            gpu_model: raw.gpu_model,
            arch_major: 0,
            arch_minor: 0,
            generation: 0,
            revision: 0,
        };
        let _ = info.extract_architecture();
        if parser.config.validate_chip_id {
            if let Err(e) = info.validate_chip_id() {
                return Err(e);
            }
        }
        if parser.config.require_mandatory {
            if info.chip_id == 0 {
                return Err(GpuError::InvalidData(String::from_str("Missing mandatory chip ID")));
            }
            if info.gmem_sizebytes == 0 && !parser.config.allow_zero_values {
                return Err(GpuError::InvalidData(String::from_str("GPU memory size is zero")));
            }
        }
        Ok(info)
    }

    /// Reads the fixed fields; the reserved pair when at least eight bytes
    /// follow the mandatory fields, the model code when at least twelve do.
    fn parse_raw_device_info(&mut self) -> (r: RawDeviceInfo)
        requires
            old(self).pos == 0,
            old(self).buffer@.len() >= DEVICE_INFO_MIN_LEN,
        ensures
            r.device_id == le_u32_at(old(self).buffer@, 0),
            r.chip_id == le_u32_at(old(self).buffer@, 4),
            r.mmu_enabled == le_u32_at(old(self).buffer@, 8),
            r.gmem_gpubaseaddr == le_u32_at(old(self).buffer@, 12),
            r.gmem_sizebytes == le_u32_at(old(self).buffer@, 16),
            r.gpu_model == (if old(self).buffer@.len() >= 32 {
                le_u32_at(old(self).buffer@, 28)
            } else {
                0
            }),
            final(self).buffer == old(self).buffer,
            final(self).config == old(self).config,
    {
        let device_id = self.read_u32();
        let chip_id = self.read_u32();
        let mmu_enabled = self.read_u32();
        let gmem_gpubaseaddr = self.read_u32();
        let gmem_sizebytes = self.read_u32();
        let mut raw = RawDeviceInfo {
            device_id: ok_or_zero(device_id),
            chip_id: ok_or_zero(chip_id),
            mmu_enabled: ok_or_zero(mmu_enabled),
            gmem_gpubaseaddr: ok_or_zero(gmem_gpubaseaddr),
            gmem_sizebytes: ok_or_zero(gmem_sizebytes),
            unknown1: 0,
            unknown2: 0,
            gpu_model: 0,
        };
        let remaining = self.buffer.len() - self.pos;
        if remaining >= 8 {
            raw.unknown1 = ok_or_zero(self.read_u32());
            raw.unknown2 = ok_or_zero(self.read_u32());
        }
        if remaining >= 12 {
            raw.gpu_model = ok_or_zero(self.read_u32());
        }
        raw
    }

    /// Reads a little-endian 32-bit value. Past the end of the buffer it
    /// yields zero when tolerated and `BufferTooSmall` otherwise.
    fn read_u32(&mut self) -> (r: GpuResult<u32>)
        requires
            old(self).pos <= old(self).buffer@.len(),
            old(self).pos + 4 <= usize::MAX,
        ensures
            final(self).buffer == old(self).buffer,
            final(self).config == old(self).config,
            final(self).pos <= final(self).buffer@.len(),
            old(self).pos + 4 <= old(self).buffer@.len() ==> {
                &&& r == Ok::<u32, GpuError>(le_u32_at(old(self).buffer@, old(self).pos as int))
                &&& final(self).pos == old(self).pos + 4
            },
            old(self).pos + 4 > old(self).buffer@.len() ==> {
                &&& final(self).pos == old(self).pos
                &&& old(self).config.lenient_mode ==> r == Ok::<u32, GpuError>(0)
                &&& !old(self).config.lenient_mode ==> r == Err::<u32, GpuError>(
                    GpuError::BufferTooSmall {
                        expected: (old(self).pos + 4) as usize,
                        actual: old(self).buffer@.len() as usize,
                    },
                )
            },
    {
        if self.buffer.len() < 4 || self.pos > self.buffer.len() - 4 {
            if self.config.lenient_mode {
                return Ok(0);
            } else {
                return Err(
                    GpuError::BufferTooSmall { expected: self.pos + 4, actual: self.buffer.len() },
                );
            }
        }
        let bytes = slice_subrange(self.buffer, self.pos, self.pos + 4);
        self.pos = self.pos + 4;
        Ok(u32_from_le_bytes(bytes))
    }
}

/// The value read, or zero for a failed read.
fn ok_or_zero(r: GpuResult<u32>) -> (v: u32)
    ensures
        v == match r {
            Ok(x) => x,
            Err(_) => 0u32,
        },
{
    match r {
        Ok(x) => x,
        Err(_) => 0,
    }
}

/// Decodes a device-info buffer under `config`.
pub fn parse_device_info(buffer: &[u8], config: ParserConfig) -> (r: GpuResult<ParsedDeviceInfo>)
    ensures
        match device_info_outcome(buffer@, config) {
            Some(info) => r == Ok::<ParsedDeviceInfo, GpuError>(info),
            None => r matches Err(e) && device_info_error_ok(buffer@, config, e),
        },
{
    let parser = KgslPropertyParser::new(buffer, config);
    parser.parse_device_info()
}

/// Decodes a device-info buffer strictly.
pub fn parse_device_info_strict(buffer: &[u8]) -> (r: GpuResult<ParsedDeviceInfo>)
    ensures
        match device_info_outcome(buffer@, ParserConfig::spec_extended()) {
            Some(info) => r == Ok::<ParsedDeviceInfo, GpuError>(info),
            None => r matches Err(e) && device_info_error_ok(
                buffer@,
                ParserConfig::spec_extended(),
                e,
            ),
        },
{
    parse_device_info(buffer, ParserConfig::extended())
}

/// Decodes a device-info buffer tolerantly; anything the tolerant decoder
/// still rejects yields the all-zero record.
pub fn parse_device_info_lenient(buffer: &[u8]) -> (r: ParsedDeviceInfo)
    ensures
        r == (if buffer@.len() < DEVICE_INFO_MIN_LEN {
            ParsedDeviceInfo::spec_empty()
        } else {
            decoded_device_info(buffer@)
        }),
{
    match parse_device_info(buffer, ParserConfig::parity()) {
        Ok(info) => info,
        Err(_) => ParsedDeviceInfo::empty(),
    }
}

} // verus!
