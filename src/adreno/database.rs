//! Static specifications of Adreno GPUs, keyed by chip id, and the
//! three-tier lookup over them.
use vstd::prelude::*;

verus! {

/// Adreno GPU architecture generation.
#[derive(Debug, Clone, Copy, PartialEq, Eq, Structural)]
pub enum AdrenoArch {
    A4xx,
    A5xx,
    A6xx,
    A7xx,
    A8xx,
}

impl AdrenoArch {
    pub open spec fn spec_name(self) -> &'static str {
        match self {
            AdrenoArch::A4xx => "Adreno 4xx",
            AdrenoArch::A5xx => "Adreno 5xx",
            AdrenoArch::A6xx => "Adreno 6xx",
            AdrenoArch::A7xx => "Adreno 7xx",
            AdrenoArch::A8xx => "Adreno 8xx",
        }
    }

    /// The display name of the architecture.
    #[verifier::when_used_as_spec(spec_name)]
    pub fn name(self) -> (r: &'static str)
        ensures
            r == self.spec_name(),
    {
        match self {
            AdrenoArch::A4xx => "Adreno 4xx",
            AdrenoArch::A5xx => "Adreno 5xx",
            AdrenoArch::A6xx => "Adreno 6xx",
            AdrenoArch::A7xx => "Adreno 7xx",
            AdrenoArch::A8xx => "Adreno 8xx",
        }
    }
}

/// Provenance of a specification row.
#[derive(Debug, Clone, Copy, PartialEq, Eq, Structural)]
pub enum SpecConfidence {
    /// Directly measured from known driver-reported chip ids.
    Measured,
    /// Confirmed through reverse engineering or reliable community sources.
    ReverseEngineered,
    /// Estimated; common for undisclosed modern parts.
    Heuristic,
}

impl SpecConfidence {
    pub open spec fn spec_name(self) -> &'static str {
        match self {
            SpecConfidence::Measured => "Measured",
            SpecConfidence::ReverseEngineered => "Reverse Engineered",
            SpecConfidence::Heuristic => "Heuristic",
        }
    }

    /// The display name of the confidence level.
    #[verifier::when_used_as_spec(spec_name)]
    pub fn name(self) -> (r: &'static str)
        ensures
            r == self.spec_name(),
    {
        match self {
            SpecConfidence::Measured => "Measured",
            SpecConfidence::ReverseEngineered => "Reverse Engineered",
            SpecConfidence::Heuristic => "Heuristic",
        }
    }
}

/// Specification of one Adreno GPU.
#[derive(Debug, Clone, Copy)]
pub struct AdrenoSpecs {
    pub name: &'static str,
    pub architecture: AdrenoArch,
    /// Shader clusters.
    pub shader_cores: u32,
    /// Total arithmetic units.
    pub stream_processors: u32,
    /// On-chip GMEM in KiB.
    pub gmem_size_kb: u32,
    pub bus_width_bits: u32,
    pub max_freq_mhz: u32,
    pub process_nm: u32,
    pub year: u32,
    pub snapdragon_models: &'static [&'static str],
    pub confidence: SpecConfidence,
}

/// Builds one specification row; usable in the spec table as well.
#[verifier::allow_in_spec]
pub fn specs(
    name: &'static str,
    architecture: AdrenoArch,
    shader_cores: u32,
    stream_processors: u32,
    gmem_size_kb: u32,
    bus_width_bits: u32,
    max_freq_mhz: u32,
    process_nm: u32,
    year: u32,
    snapdragon_models: &'static [&'static str],
    confidence: SpecConfidence,
) -> AdrenoSpecs
    returns
        (AdrenoSpecs {
            name,
            architecture,
            shader_cores,
            stream_processors,
            gmem_size_kb,
            bus_width_bits,
            max_freq_mhz,
            process_nm,
            year,
            snapdragon_models,
            confidence,
        }),
{
    AdrenoSpecs {
        name,
        architecture,
        shader_cores,
        stream_processors,
        gmem_size_kb,
        bus_width_bits,
        max_freq_mhz,
        process_nm,
        year,
        snapdragon_models,
        confidence,
    }
}

/// Number of rows in the chip table.
pub const ADRENO_CHIP_COUNT: usize = 17;

/// Row `i` of the chip table: a chip id and its specification.
pub open spec fn adreno_chip_row(i: usize) -> (u32, AdrenoSpecs) {
    match i {
        0 => (0x07030001, specs("Adreno 730", AdrenoArch::A7xx, 4, 768, 2048, 128, 900, 4, 2022, &["8 Gen 1", "8+ Gen 1"], SpecConfidence::Measured)),
        1 => (0x07060001, specs("Adreno 740", AdrenoArch::A7xx, 6, 1024, 3072, 256, 680, 4, 2023, &["8 Gen 2"], SpecConfidence::Measured)),
        2 => (0x07050000, specs("Adreno 750", AdrenoArch::A7xx, 6, 1536, 4096, 256, 1000, 4, 2023, &["8 Gen 3"], SpecConfidence::ReverseEngineered)),
        3 => (0x06010000, specs("Adreno 610", AdrenoArch::A6xx, 2, 128, 384, 64, 950, 11, 2019, &["460", "662", "665"], SpecConfidence::Measured)),
        4 => (0x06010001, specs("Adreno 618", AdrenoArch::A6xx, 2, 256, 512, 64, 825, 8, 2019, &["730", "732G", "735G", "SM7150"], SpecConfidence::Measured)),
        5 => (0x06010500, specs("Adreno 619", AdrenoArch::A6xx, 2, 256, 512, 64, 950, 8, 2020, &["750G", "690", "480"], SpecConfidence::Measured)),
        6 => (0x06010200, specs("Adreno 612/615/616", AdrenoArch::A6xx, 2, 256, 768, 64, 850, 10, 2019, &["670", "675", "710", "712"], SpecConfidence::Heuristic)),
        7 => (0x06020000, specs("Adreno 620", AdrenoArch::A6xx, 2, 256, 768, 64, 750, 8, 2020, &["765", "765G", "768G"], SpecConfidence::ReverseEngineered)),
        8 => (0x05000000, specs("Adreno 504/505", AdrenoArch::A5xx, 1, 96, 256, 32, 450, 28, 2016, &["425", "429", "430", "435", "439"], SpecConfidence::ReverseEngineered)),
        9 => (0x05060000, specs("Adreno 506", AdrenoArch::A5xx, 1, 128, 256, 32, 650, 14, 2016, &["450", "625", "626", "632"], SpecConfidence::Measured)),
        10 => (0x05080000, specs("Adreno 508", AdrenoArch::A5xx, 2, 128, 256, 64, 650, 14, 2017, &["630", "632"], SpecConfidence::ReverseEngineered)),
        11 => (0x05090000, specs("Adreno 509", AdrenoArch::A5xx, 2, 128, 384, 64, 720, 14, 2017, &["636", "638"], SpecConfidence::ReverseEngineered)),
        12 => (0x05120000, specs("Adreno 512", AdrenoArch::A5xx, 2, 256, 512, 64, 850, 14, 2017, &["660", "662"], SpecConfidence::ReverseEngineered)),
        13 => (0x05010000, specs("Adreno 510", AdrenoArch::A5xx, 2, 128, 256, 32, 600, 14, 2016, &["430", "435", "616", "617"], SpecConfidence::Measured)),
        14 => (0x04020000, specs("Adreno 530", AdrenoArch::A5xx, 3, 256, 512, 64, 624, 14, 2016, &["820", "821"], SpecConfidence::Measured)),
        15 => (0x05020000, specs("Adreno 540", AdrenoArch::A5xx, 3, 256, 512, 64, 710, 10, 2017, &["835"], SpecConfidence::Measured)),
        _ => (0x04010000, specs("Adreno 405", AdrenoArch::A4xx, 1, 48, 128, 32, 550, 28, 2014, &["415", "425", "610"], SpecConfidence::Measured)),
    }
}

/// Row `i` of the chip table.
pub fn adreno_chip(i: usize) -> (r: (u32, AdrenoSpecs))
    requires
        i < ADRENO_CHIP_COUNT,
    ensures
        r == adreno_chip_row(i),
{
    match i {
        0 => (0x07030001, specs("Adreno 730", AdrenoArch::A7xx, 4, 768, 2048, 128, 900, 4, 2022, &["8 Gen 1", "8+ Gen 1"], SpecConfidence::Measured)),
        1 => (0x07060001, specs("Adreno 740", AdrenoArch::A7xx, 6, 1024, 3072, 256, 680, 4, 2023, &["8 Gen 2"], SpecConfidence::Measured)),
        2 => (0x07050000, specs("Adreno 750", AdrenoArch::A7xx, 6, 1536, 4096, 256, 1000, 4, 2023, &["8 Gen 3"], SpecConfidence::ReverseEngineered)),
        3 => (0x06010000, specs("Adreno 610", AdrenoArch::A6xx, 2, 128, 384, 64, 950, 11, 2019, &["460", "662", "665"], SpecConfidence::Measured)),
        4 => (0x06010001, specs("Adreno 618", AdrenoArch::A6xx, 2, 256, 512, 64, 825, 8, 2019, &["730", "732G", "735G", "SM7150"], SpecConfidence::Measured)),
        5 => (0x06010500, specs("Adreno 619", AdrenoArch::A6xx, 2, 256, 512, 64, 950, 8, 2020, &["750G", "690", "480"], SpecConfidence::Measured)),
        6 => (0x06010200, specs("Adreno 612/615/616", AdrenoArch::A6xx, 2, 256, 768, 64, 850, 10, 2019, &["670", "675", "710", "712"], SpecConfidence::Heuristic)),
        7 => (0x06020000, specs("Adreno 620", AdrenoArch::A6xx, 2, 256, 768, 64, 750, 8, 2020, &["765", "765G", "768G"], SpecConfidence::ReverseEngineered)),
        8 => (0x05000000, specs("Adreno 504/505", AdrenoArch::A5xx, 1, 96, 256, 32, 450, 28, 2016, &["425", "429", "430", "435", "439"], SpecConfidence::ReverseEngineered)),
        9 => (0x05060000, specs("Adreno 506", AdrenoArch::A5xx, 1, 128, 256, 32, 650, 14, 2016, &["450", "625", "626", "632"], SpecConfidence::Measured)),
        10 => (0x05080000, specs("Adreno 508", AdrenoArch::A5xx, 2, 128, 256, 64, 650, 14, 2017, &["630", "632"], SpecConfidence::ReverseEngineered)),
        11 => (0x05090000, specs("Adreno 509", AdrenoArch::A5xx, 2, 128, 384, 64, 720, 14, 2017, &["636", "638"], SpecConfidence::ReverseEngineered)),
        12 => (0x05120000, specs("Adreno 512", AdrenoArch::A5xx, 2, 256, 512, 64, 850, 14, 2017, &["660", "662"], SpecConfidence::ReverseEngineered)),
        13 => (0x05010000, specs("Adreno 510", AdrenoArch::A5xx, 2, 128, 256, 32, 600, 14, 2016, &["430", "435", "616", "617"], SpecConfidence::Measured)),
        14 => (0x04020000, specs("Adreno 530", AdrenoArch::A5xx, 3, 256, 512, 64, 624, 14, 2016, &["820", "821"], SpecConfidence::Measured)),
        15 => (0x05020000, specs("Adreno 540", AdrenoArch::A5xx, 3, 256, 512, 64, 710, 10, 2017, &["835"], SpecConfidence::Measured)),
        _ => (0x04010000, specs("Adreno 405", AdrenoArch::A4xx, 1, 48, 128, 32, 550, 28, 2014, &["415", "425", "610"], SpecConfidence::Measured)),
    }
}

/// The architecture-generic fallback for an architecture-major byte.
pub open spec fn generic_adreno_row(major: u32) -> Option<AdrenoSpecs> {
    match major {
        8 => Some(specs("Adreno 8xx (unknown variant)", AdrenoArch::A8xx, 8, 2048, 4096, 384, 1100, 3, 2024, &["8 Elite / future"], SpecConfidence::Heuristic)),
        7 => Some(specs("Adreno 7xx (unknown variant)", AdrenoArch::A7xx, 5, 1024, 3072, 192, 900, 4, 2022, &["8 Gen series"], SpecConfidence::Heuristic)),
        6 => Some(specs("Adreno 6xx (unknown low/mid variant)", AdrenoArch::A6xx, 2, 256, 512, 64, 800, 8, 2019, &["various 4xx/6xx/7xx low-end"], SpecConfidence::Heuristic)),
        5 => Some(specs("Adreno 5xx (low-end variant)", AdrenoArch::A5xx, 1, 96, 256, 32, 500, 28, 2016, &["various 4xx/6xx low-end"], SpecConfidence::Heuristic)),
        4 => Some(specs("Adreno 4xx (unknown variant)", AdrenoArch::A4xx, 1, 48, 128, 32, 550, 28, 2014, &["various 2xx/4xx low-end"], SpecConfidence::Heuristic)),
        _ => None,
    }
}

/// The architecture-generic fallback for an architecture-major byte.
fn generic_adreno_specs(major: u32) -> (r: Option<AdrenoSpecs>)
    ensures
        r == generic_adreno_row(major),
{
    match major {
        8 => Some(specs("Adreno 8xx (unknown variant)", AdrenoArch::A8xx, 8, 2048, 4096, 384, 1100, 3, 2024, &["8 Elite / future"], SpecConfidence::Heuristic)),
        7 => Some(specs("Adreno 7xx (unknown variant)", AdrenoArch::A7xx, 5, 1024, 3072, 192, 900, 4, 2022, &["8 Gen series"], SpecConfidence::Heuristic)),
        6 => Some(specs("Adreno 6xx (unknown low/mid variant)", AdrenoArch::A6xx, 2, 256, 512, 64, 800, 8, 2019, &["various 4xx/6xx/7xx low-end"], SpecConfidence::Heuristic)),
        5 => Some(specs("Adreno 5xx (low-end variant)", AdrenoArch::A5xx, 1, 96, 256, 32, 500, 28, 2016, &["various 4xx/6xx low-end"], SpecConfidence::Heuristic)),
        4 => Some(specs("Adreno 4xx (unknown variant)", AdrenoArch::A4xx, 1, 48, 128, 32, 550, 28, 2014, &["various 2xx/4xx low-end"], SpecConfidence::Heuristic)),
        _ => None,
    }
}

/// The mask that keeps the architecture major and minor bytes of a chip id.
pub const BASE_ID_MASK: u32 = 0xFFFF0000;

/// The first row at or after `i` whose chip id satisfies `key`: equal to
/// `chip_id` when `masked` is false, equal under `BASE_ID_MASK` otherwise.
pub open spec fn first_row_from(chip_id: u32, masked: bool, i: int) -> Option<int>
    decreases ADRENO_CHIP_COUNT - i,
{
    if i < 0 || i >= ADRENO_CHIP_COUNT {
        None
    } else if row_matches(adreno_chip_row(i as usize).0, chip_id, masked) {
        Some(i)
    } else {
        first_row_from(chip_id, masked, i + 1)
    }
}

pub open spec fn row_matches(row_id: u32, chip_id: u32, masked: bool) -> bool {
    if masked {
        row_id & BASE_ID_MASK == chip_id & BASE_ID_MASK
    } else {
        row_id == chip_id
    }
}

/// The architecture-major byte of a chip id.
pub open spec fn chip_major(chip_id: u32) -> u32 {
    (chip_id >> 24) & 0xFF
}

/// Resolution of a chip id: exact match, then a match of the major and minor
/// bytes, then the generic row of the architecture-major byte.
pub open spec fn adreno_resolution(chip_id: u32) -> Option<AdrenoSpecs> {
    match first_row_from(chip_id, false, 0) {
        Some(i) => Some(adreno_chip_row(i as usize).1),
        None => match first_row_from(chip_id, true, 0) {
            Some(i) => Some(adreno_chip_row(i as usize).1),
            None => generic_adreno_row(chip_major(chip_id)),
        },
    }
}

/// Resolving the same chip id twice gives the same specification: any two
/// results that the contract of `find_adreno_specs` admits for one chip id
/// agree.
pub proof fn lemma_adreno_resolution_idempotent(
    chip_id: u32,
    first: Option<AdrenoSpecs>,
    second: Option<AdrenoSpecs>,
)
    requires
        first == adreno_resolution(chip_id),
        second == adreno_resolution(chip_id),
    ensures
        first == second,
{
}

/// A chip id with no exact or major-minor match and an architecture-major
/// byte outside 4 to 8 resolves to nothing.
pub proof fn lemma_no_fallback_outside_generic_set(chip_id: u32)
    requires
        first_row_from(chip_id, false, 0) is None,
        first_row_from(chip_id, true, 0) is None,
        !(4 <= chip_major(chip_id) <= 8),
    ensures
        adreno_resolution(chip_id) is None,
{
}

/// Scans the table for the first row matching `chip_id`.
fn find_row(chip_id: u32, masked: bool) -> (r: Option<usize>)
    ensures
        r matches Some(i) ==> i < ADRENO_CHIP_COUNT && first_row_from(chip_id, masked, 0) == Some(
            i as int,
        ),
        r is None ==> first_row_from(chip_id, masked, 0) is None,
{
    let mut i: usize = 0;
    while i < ADRENO_CHIP_COUNT
        invariant
            i <= ADRENO_CHIP_COUNT,
            first_row_from(chip_id, masked, 0) == first_row_from(chip_id, masked, i as int),
        decreases ADRENO_CHIP_COUNT - i,
    {
        let (id, _) = adreno_chip(i);
        let hit = if masked {
            id & BASE_ID_MASK == chip_id & BASE_ID_MASK
        } else {
            id == chip_id
        };
        if hit {
            return Some(i);
        }
        i = i + 1;
    }
    None
}

/// Finds the specification of a chip id: an exact match in the table, else a
/// row with the same major and minor bytes, else the generic row of its
/// architecture generation (4 to 8); `None` when none applies.
pub fn find_adreno_specs(chip_id: u32) -> (r: Option<AdrenoSpecs>)
    ensures
        r == adreno_resolution(chip_id),
{
    if let Some(i) = find_row(chip_id, false) {
        return Some(adreno_chip(i).1);
    }
    if let Some(i) = find_row(chip_id, true) {
        return Some(adreno_chip(i).1);
    }
    generic_adreno_specs((chip_id >> 24) & 0xFF)
}

} // verus!
