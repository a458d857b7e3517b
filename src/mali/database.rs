//! Static specifications of Mali GPUs and the resolution of a product id
//! and core count against them.
use vstd::prelude::*;
use vstd::string::StringExecFns;
use crate::error::{GpuError, GpuResult};
use crate::info::GpuInfo;

verus! {

/// How a per-core count follows from `(core_count, core_features,
/// thread_features)`.
#[derive(Debug, Clone, Copy, PartialEq, Eq, Structural)]
pub enum PerCoreCount {
    One,
    Two,
    Three,
    Four,
    Eight,
    Sixteen,
    ThirtyTwo,
    SixtyFour,
    /// Execution engines of the G31.
    EngG31,
    /// Execution engines of the G51.
    EngG51,
    /// Execution engines of the G52.
    EngG52,
    /// FMA units per engine of the G510 and G310.
    FmaG510,
    /// Texels per core of the G510 and G310.
    TexG510,
    /// Pixels per core of the G510 and G310.
    PixG510,
    /// Execution engines of the G510 and G310.
    EngG510,
}

pub fn get_num_1(_core_count: u32, _core_features: u32, _thread_features: u32) -> (r: u32)
    ensures
        r == 1,
{
    1
}

pub fn get_num_2(_core_count: u32, _core_features: u32, _thread_features: u32) -> (r: u32)
    ensures
        r == 2,
{
    2
}

pub fn get_num_3(_core_count: u32, _core_features: u32, _thread_features: u32) -> (r: u32)
    ensures
        r == 3,
{
    3
}

pub fn get_num_4(_core_count: u32, _core_features: u32, _thread_features: u32) -> (r: u32)
    ensures
        r == 4,
{
    4
}

pub fn get_num_8(_core_count: u32, _core_features: u32, _thread_features: u32) -> (r: u32)
    ensures
        r == 8,
{
    8
}

pub fn get_num_16(_core_count: u32, _core_features: u32, _thread_features: u32) -> (r: u32)
    ensures
        r == 16,
{
    16
}

pub fn get_num_32(_core_count: u32, _core_features: u32, _thread_features: u32) -> (r: u32)
    ensures
        r == 32,
{
    32
}

pub fn get_num_64(_core_count: u32, _core_features: u32, _thread_features: u32) -> (r: u32)
    ensures
        r == 64,
{
    64
}

/// One engine on a single-core part whose thread features read 0x2000 in
/// their low half; two otherwise.
pub fn get_num_eng_g31(core_count: u32, _core_features: u32, thread_features: u32) -> (r: u32)
    ensures
        r == (if core_count == 1 && thread_features & 0xFFFF == 0x2000 {
            1u32
        } else {
            2u32
        }),
{
    if core_count == 1 && (thread_features & 0xFFFF) == 0x2000 {
        1
    } else {
        2
    }
}

/// One engine on a single-core part whose thread features read 0x2000 in
/// their low half; three otherwise.
pub fn get_num_eng_g51(core_count: u32, _core_features: u32, thread_features: u32) -> (r: u32)
    ensures
        r == (if core_count == 1 && thread_features & 0xFFFF == 0x2000 {
            1u32
        } else {
            3u32
        }),
{
    if core_count == 1 && (thread_features & 0xFFFF) == 0x2000 {
        1
    } else {
        3
    }
}

/// The low four bits of the core features.
pub fn get_num_eng_g52(_core_count: u32, core_features: u32, _thread_features: u32) -> (r: u32)
    ensures
        r == core_features & 0xF,
{
    core_features & 0xF
}

pub open spec fn fma_g510(variant: u32) -> u32 {
    if variant == 0 {
        16
    } else if variant == 2 || variant == 3 {
        24
    } else {
        32
    }
}

pub open spec fn tex_g510(variant: u32) -> u32 {
    if variant == 0 || variant == 5 {
        2
    } else if variant == 1 || variant == 2 || variant == 6 {
        4
    } else {
        8
    }
}

pub open spec fn pix_g510(variant: u32) -> u32 {
    if variant == 0 || variant == 1 || variant == 5 || variant == 6 {
        2
    } else {
        4
    }
}

pub open spec fn eng_g510(variant: u32) -> u32 {
    if variant == 0 || variant == 1 || variant == 5 || variant == 6 {
        1
    } else {
        2
    }
}

/// FMA units per engine, from the variant in the low four core-feature bits.
pub fn get_num_fma_g510(_core_count: u32, core_features: u32, _thread_features: u32) -> (r: u32)
    ensures
        r == fma_g510(core_features & 0xF),
{
    let variant = core_features & 0xF;
    if variant == 0 {
        16
    } else if variant == 2 || variant == 3 {
        24
    } else {
        32
    }
}

/// Texels per core, from the variant in the low four core-feature bits.
pub fn get_num_tex_g510(_core_count: u32, core_features: u32, _thread_features: u32) -> (r: u32)
    ensures
        r == tex_g510(core_features & 0xF),
{
    let variant = core_features & 0xF;
    if variant == 0 || variant == 5 {
        2
    } else if variant == 1 || variant == 2 || variant == 6 {
        4
    } else {
        8
    }
}

/// Pixels per core, from the variant in the low four core-feature bits.
pub fn get_num_pix_g510(_core_count: u32, core_features: u32, _thread_features: u32) -> (r: u32)
    ensures
        r == pix_g510(core_features & 0xF),
{
    let variant = core_features & 0xF;
    if variant == 0 || variant == 1 || variant == 5 || variant == 6 {
        2
    } else {
        4
    }
}

/// Execution engines, from the variant in the low four core-feature bits.
pub fn get_num_eng_g510(_core_count: u32, core_features: u32, _thread_features: u32) -> (r: u32)
    ensures
        r == eng_g510(core_features & 0xF),
{
    let variant = core_features & 0xF;
    if variant == 0 || variant == 1 || variant == 5 || variant == 6 {
        1
    } else {
        2
    }
}

impl PerCoreCount {
    /// The count this rule gives for a core count and feature words.
    pub open spec fn spec_eval(self, core_count: u32, core_features: u32, thread_features: u32) -> u32 {
        match self {
            PerCoreCount::One => 1,
            PerCoreCount::Two => 2,
            PerCoreCount::Three => 3,
            PerCoreCount::Four => 4,
            PerCoreCount::Eight => 8,
            PerCoreCount::Sixteen => 16,
            PerCoreCount::ThirtyTwo => 32,
            PerCoreCount::SixtyFour => 64,
            PerCoreCount::EngG31 => if core_count == 1 && thread_features & 0xFFFF == 0x2000 {
                1
            } else {
                2
            },
            PerCoreCount::EngG51 => if core_count == 1 && thread_features & 0xFFFF == 0x2000 {
                1
            } else {
                3
            },
            PerCoreCount::EngG52 => core_features & 0xF,
            PerCoreCount::FmaG510 => fma_g510(core_features & 0xF),
            PerCoreCount::TexG510 => tex_g510(core_features & 0xF),
            PerCoreCount::PixG510 => pix_g510(core_features & 0xF),
            PerCoreCount::EngG510 => eng_g510(core_features & 0xF),
        }
    }

    /// The count this rule gives; defined for every input.
    pub fn eval(self, core_count: u32, core_features: u32, thread_features: u32) -> (r: u32)
        ensures
            r == self.spec_eval(core_count, core_features, thread_features),
            r <= 64,
    {
        assert(core_features & 0xF <= 15) by (bit_vector);
        match self {
            PerCoreCount::One => get_num_1(core_count, core_features, thread_features),
            PerCoreCount::Two => get_num_2(core_count, core_features, thread_features),
            PerCoreCount::Three => get_num_3(core_count, core_features, thread_features),
            PerCoreCount::Four => get_num_4(core_count, core_features, thread_features),
            PerCoreCount::Eight => get_num_8(core_count, core_features, thread_features),
            PerCoreCount::Sixteen => get_num_16(core_count, core_features, thread_features),
            PerCoreCount::ThirtyTwo => get_num_32(core_count, core_features, thread_features),
            PerCoreCount::SixtyFour => get_num_64(core_count, core_features, thread_features),
            PerCoreCount::EngG31 => get_num_eng_g31(core_count, core_features, thread_features),
            PerCoreCount::EngG51 => get_num_eng_g51(core_count, core_features, thread_features),
            PerCoreCount::EngG52 => get_num_eng_g52(core_count, core_features, thread_features),
            PerCoreCount::FmaG510 => get_num_fma_g510(core_count, core_features, thread_features),
            PerCoreCount::TexG510 => get_num_tex_g510(core_count, core_features, thread_features),
            PerCoreCount::PixG510 => get_num_pix_g510(core_count, core_features, thread_features),
            PerCoreCount::EngG510 => get_num_eng_g510(core_count, core_features, thread_features),
        }
    }
}

/// One row of the product table.
#[derive(Debug, Clone, Copy)]
pub struct ProductEntry {
    pub id: u32,
    /// The bits of a product id that select this row.
    pub mask: u32,
    /// The fewest shader cores this row applies to.
    pub min_cores: u32,
    pub name: &'static str,
    pub architecture: &'static str,
    pub get_num_fp32_fmas_per_engine: PerCoreCount,
    pub get_num_texels: PerCoreCount,
    pub get_num_pixels: PerCoreCount,
    pub get_num_exec_engines: PerCoreCount,
}

/// Mask of the product ids of the Midgard generation.
pub const MASK_OLD: u32 = 0xFFFF;

/// Mask of the product ids from Bifrost on: the low bits encode a variant.
pub const MASK_NEW: u32 = 0xF00F;

/// Builds one table row; usable in the spec table as well.
#[verifier::allow_in_spec]
pub fn product(
    id: u32,
    mask: u32,
    min_cores: u32,
    name: &'static str,
    architecture: &'static str,
    get_num_fp32_fmas_per_engine: PerCoreCount,
    get_num_texels: PerCoreCount,
    get_num_pixels: PerCoreCount,
    get_num_exec_engines: PerCoreCount,
) -> ProductEntry
    returns
        (ProductEntry {
            id,
            mask,
            min_cores,
            name,
            architecture,
            get_num_fp32_fmas_per_engine,
            get_num_texels,
            get_num_pixels,
            get_num_exec_engines,
        }),
{
    ProductEntry {
        id,
        mask,
        min_cores,
        name,
        architecture,
        get_num_fp32_fmas_per_engine,
        get_num_texels,
        get_num_pixels,
        get_num_exec_engines,
    }
}

/// Number of rows in the product table.
pub const PRODUCT_COUNT: usize = 38;

/// Row `i` of the product table.
pub open spec fn product_row(i: usize) -> ProductEntry {
    match i {
        0 => product(0x6956, MASK_OLD, 1, "Mali-T600", "Midgard", PerCoreCount::Four, PerCoreCount::One, PerCoreCount::One, PerCoreCount::Two),
        1 => product(0x0620, MASK_OLD, 1, "Mali-T620", "Midgard", PerCoreCount::Four, PerCoreCount::One, PerCoreCount::One, PerCoreCount::Two),
        2 => product(0x0720, MASK_OLD, 1, "Mali-T720", "Midgard", PerCoreCount::Four, PerCoreCount::One, PerCoreCount::One, PerCoreCount::One),
        3 => product(0x0750, MASK_OLD, 1, "Mali-T760", "Midgard", PerCoreCount::Four, PerCoreCount::One, PerCoreCount::One, PerCoreCount::Two),
        4 => product(0x0820, MASK_OLD, 1, "Mali-T820", "Midgard", PerCoreCount::Four, PerCoreCount::One, PerCoreCount::One, PerCoreCount::One),
        5 => product(0x0830, MASK_OLD, 1, "Mali-T830", "Midgard", PerCoreCount::Four, PerCoreCount::One, PerCoreCount::One, PerCoreCount::Two),
        6 => product(0x0860, MASK_OLD, 1, "Mali-T860", "Midgard", PerCoreCount::Four, PerCoreCount::One, PerCoreCount::One, PerCoreCount::Two),
        7 => product(0x0880, MASK_OLD, 1, "Mali-T880", "Midgard", PerCoreCount::Four, PerCoreCount::One, PerCoreCount::One, PerCoreCount::Three),
        8 => product(0x6000, MASK_NEW, 1, "Mali-G71", "Bifrost", PerCoreCount::Four, PerCoreCount::One, PerCoreCount::One, PerCoreCount::Three),
        9 => product(0x6001, MASK_NEW, 1, "Mali-G72", "Bifrost", PerCoreCount::Four, PerCoreCount::One, PerCoreCount::One, PerCoreCount::Three),
        10 => product(0x7000, MASK_NEW, 1, "Mali-G51", "Bifrost", PerCoreCount::Four, PerCoreCount::Two, PerCoreCount::Two, PerCoreCount::EngG51),
        11 => product(0x7001, MASK_NEW, 1, "Mali-G76", "Bifrost", PerCoreCount::Eight, PerCoreCount::Two, PerCoreCount::Two, PerCoreCount::Three),
        12 => product(0x7002, MASK_NEW, 1, "Mali-G52", "Bifrost", PerCoreCount::Eight, PerCoreCount::Two, PerCoreCount::Two, PerCoreCount::EngG52),
        13 => product(0x7003, MASK_NEW, 1, "Mali-G31", "Bifrost", PerCoreCount::Four, PerCoreCount::Two, PerCoreCount::Two, PerCoreCount::EngG31),
        14 => product(0x9000, MASK_NEW, 1, "Mali-G77", "Valhall", PerCoreCount::Sixteen, PerCoreCount::Four, PerCoreCount::Two, PerCoreCount::Two),
        15 => product(0x9001, MASK_NEW, 1, "Mali-G57", "Valhall", PerCoreCount::Sixteen, PerCoreCount::Four, PerCoreCount::Two, PerCoreCount::Two),
        16 => product(0x9003, MASK_NEW, 1, "Mali-G57", "Valhall", PerCoreCount::Sixteen, PerCoreCount::Four, PerCoreCount::Two, PerCoreCount::Two),
        17 => product(0x9004, MASK_NEW, 1, "Mali-G68", "Valhall", PerCoreCount::Sixteen, PerCoreCount::Four, PerCoreCount::Two, PerCoreCount::Two),
        18 => product(0x9002, MASK_NEW, 1, "Mali-G78", "Valhall", PerCoreCount::Sixteen, PerCoreCount::Four, PerCoreCount::Two, PerCoreCount::Two),
        19 => product(0x9005, MASK_NEW, 1, "Mali-G78AE", "Valhall", PerCoreCount::Sixteen, PerCoreCount::Four, PerCoreCount::Two, PerCoreCount::Two),
        20 => product(0xa002, MASK_NEW, 1, "Mali-G710", "Valhall", PerCoreCount::ThirtyTwo, PerCoreCount::Eight, PerCoreCount::Four, PerCoreCount::Two),
        21 => product(0xa007, MASK_NEW, 1, "Mali-G610", "Valhall", PerCoreCount::ThirtyTwo, PerCoreCount::Eight, PerCoreCount::Four, PerCoreCount::Two),
        22 => product(0xa003, MASK_NEW, 1, "Mali-G510", "Valhall", PerCoreCount::FmaG510, PerCoreCount::TexG510, PerCoreCount::PixG510, PerCoreCount::EngG510),
        23 => product(0xa004, MASK_NEW, 1, "Mali-G310", "Valhall", PerCoreCount::FmaG510, PerCoreCount::TexG510, PerCoreCount::PixG510, PerCoreCount::EngG510),
        24 => product(0xb002, MASK_NEW, 10, "Immortalis-G715", "Valhall", PerCoreCount::SixtyFour, PerCoreCount::Eight, PerCoreCount::Four, PerCoreCount::Two),
        25 => product(0xb002, MASK_NEW, 7, "Mali-G715", "Valhall", PerCoreCount::SixtyFour, PerCoreCount::Eight, PerCoreCount::Four, PerCoreCount::Two),
        26 => product(0xb002, MASK_NEW, 1, "Mali-G615", "Valhall", PerCoreCount::SixtyFour, PerCoreCount::Eight, PerCoreCount::Four, PerCoreCount::Two),
        27 => product(0xb003, MASK_NEW, 1, "Mali-G615", "Valhall", PerCoreCount::SixtyFour, PerCoreCount::Eight, PerCoreCount::Four, PerCoreCount::Two),
        28 => product(0xc000, MASK_NEW, 10, "Immortalis-G720", "Arm 5th Gen", PerCoreCount::SixtyFour, PerCoreCount::Eight, PerCoreCount::Four, PerCoreCount::Two),
        29 => product(0xc000, MASK_NEW, 6, "Mali-G720", "Arm 5th Gen", PerCoreCount::SixtyFour, PerCoreCount::Eight, PerCoreCount::Four, PerCoreCount::Two),
        30 => product(0xc000, MASK_NEW, 1, "Mali-G620", "Arm 5th Gen", PerCoreCount::SixtyFour, PerCoreCount::Eight, PerCoreCount::Four, PerCoreCount::Two),
        31 => product(0xc001, MASK_NEW, 1, "Mali-G620", "Arm 5th Gen", PerCoreCount::SixtyFour, PerCoreCount::Eight, PerCoreCount::Four, PerCoreCount::Two),
        32 => product(0xd000, MASK_NEW, 10, "Immortalis-G925", "Arm 5th Gen", PerCoreCount::SixtyFour, PerCoreCount::Eight, PerCoreCount::Four, PerCoreCount::Two),
        33 => product(0xd000, MASK_NEW, 6, "Mali-G725", "Arm 5th Gen", PerCoreCount::SixtyFour, PerCoreCount::Eight, PerCoreCount::Four, PerCoreCount::Two),
        34 => product(0xd001, MASK_NEW, 1, "Mali-G625", "Arm 5th Gen", PerCoreCount::SixtyFour, PerCoreCount::Eight, PerCoreCount::Four, PerCoreCount::Two),
        35 => product(0xe000, MASK_NEW, 10, "Mali G1-Ultra", "Arm 5th Gen", PerCoreCount::SixtyFour, PerCoreCount::Eight, PerCoreCount::Four, PerCoreCount::Two),
        36 => product(0xe001, MASK_NEW, 6, "Mali G1-Premium", "Arm 5th Gen", PerCoreCount::SixtyFour, PerCoreCount::Eight, PerCoreCount::Four, PerCoreCount::Two),
        _ => product(0xe003, MASK_NEW, 1, "Mali G1-Pro", "Arm 5th Gen", PerCoreCount::SixtyFour, PerCoreCount::Eight, PerCoreCount::Four, PerCoreCount::Two),
    }
}

/// The product table, in order.
pub open spec fn product_table() -> Seq<ProductEntry> {
    Seq::new(PRODUCT_COUNT as nat, |i: int| product_row(i as usize))
}

/// Row `i` of the product table.
pub fn product_at(i: usize) -> (r: ProductEntry)
    requires
        i < PRODUCT_COUNT,
    ensures
        r == product_row(i),
{
    match i {
        0 => product(0x6956, MASK_OLD, 1, "Mali-T600", "Midgard", PerCoreCount::Four, PerCoreCount::One, PerCoreCount::One, PerCoreCount::Two),
        1 => product(0x0620, MASK_OLD, 1, "Mali-T620", "Midgard", PerCoreCount::Four, PerCoreCount::One, PerCoreCount::One, PerCoreCount::Two),
        2 => product(0x0720, MASK_OLD, 1, "Mali-T720", "Midgard", PerCoreCount::Four, PerCoreCount::One, PerCoreCount::One, PerCoreCount::One),
        3 => product(0x0750, MASK_OLD, 1, "Mali-T760", "Midgard", PerCoreCount::Four, PerCoreCount::One, PerCoreCount::One, PerCoreCount::Two),
        4 => product(0x0820, MASK_OLD, 1, "Mali-T820", "Midgard", PerCoreCount::Four, PerCoreCount::One, PerCoreCount::One, PerCoreCount::One),
        5 => product(0x0830, MASK_OLD, 1, "Mali-T830", "Midgard", PerCoreCount::Four, PerCoreCount::One, PerCoreCount::One, PerCoreCount::Two),
        6 => product(0x0860, MASK_OLD, 1, "Mali-T860", "Midgard", PerCoreCount::Four, PerCoreCount::One, PerCoreCount::One, PerCoreCount::Two),
        7 => product(0x0880, MASK_OLD, 1, "Mali-T880", "Midgard", PerCoreCount::Four, PerCoreCount::One, PerCoreCount::One, PerCoreCount::Three),
        8 => product(0x6000, MASK_NEW, 1, "Mali-G71", "Bifrost", PerCoreCount::Four, PerCoreCount::One, PerCoreCount::One, PerCoreCount::Three),
        9 => product(0x6001, MASK_NEW, 1, "Mali-G72", "Bifrost", PerCoreCount::Four, PerCoreCount::One, PerCoreCount::One, PerCoreCount::Three),
        10 => product(0x7000, MASK_NEW, 1, "Mali-G51", "Bifrost", PerCoreCount::Four, PerCoreCount::Two, PerCoreCount::Two, PerCoreCount::EngG51),
        11 => product(0x7001, MASK_NEW, 1, "Mali-G76", "Bifrost", PerCoreCount::Eight, PerCoreCount::Two, PerCoreCount::Two, PerCoreCount::Three),
        12 => product(0x7002, MASK_NEW, 1, "Mali-G52", "Bifrost", PerCoreCount::Eight, PerCoreCount::Two, PerCoreCount::Two, PerCoreCount::EngG52),
        13 => product(0x7003, MASK_NEW, 1, "Mali-G31", "Bifrost", PerCoreCount::Four, PerCoreCount::Two, PerCoreCount::Two, PerCoreCount::EngG31),
        14 => product(0x9000, MASK_NEW, 1, "Mali-G77", "Valhall", PerCoreCount::Sixteen, PerCoreCount::Four, PerCoreCount::Two, PerCoreCount::Two),
        15 => product(0x9001, MASK_NEW, 1, "Mali-G57", "Valhall", PerCoreCount::Sixteen, PerCoreCount::Four, PerCoreCount::Two, PerCoreCount::Two),
        16 => product(0x9003, MASK_NEW, 1, "Mali-G57", "Valhall", PerCoreCount::Sixteen, PerCoreCount::Four, PerCoreCount::Two, PerCoreCount::Two),
        17 => product(0x9004, MASK_NEW, 1, "Mali-G68", "Valhall", PerCoreCount::Sixteen, PerCoreCount::Four, PerCoreCount::Two, PerCoreCount::Two),
        18 => product(0x9002, MASK_NEW, 1, "Mali-G78", "Valhall", PerCoreCount::Sixteen, PerCoreCount::Four, PerCoreCount::Two, PerCoreCount::Two),
        19 => product(0x9005, MASK_NEW, 1, "Mali-G78AE", "Valhall", PerCoreCount::Sixteen, PerCoreCount::Four, PerCoreCount::Two, PerCoreCount::Two),
        20 => product(0xa002, MASK_NEW, 1, "Mali-G710", "Valhall", PerCoreCount::ThirtyTwo, PerCoreCount::Eight, PerCoreCount::Four, PerCoreCount::Two),
        21 => product(0xa007, MASK_NEW, 1, "Mali-G610", "Valhall", PerCoreCount::ThirtyTwo, PerCoreCount::Eight, PerCoreCount::Four, PerCoreCount::Two),
        22 => product(0xa003, MASK_NEW, 1, "Mali-G510", "Valhall", PerCoreCount::FmaG510, PerCoreCount::TexG510, PerCoreCount::PixG510, PerCoreCount::EngG510),
        23 => product(0xa004, MASK_NEW, 1, "Mali-G310", "Valhall", PerCoreCount::FmaG510, PerCoreCount::TexG510, PerCoreCount::PixG510, PerCoreCount::EngG510),
        24 => product(0xb002, MASK_NEW, 10, "Immortalis-G715", "Valhall", PerCoreCount::SixtyFour, PerCoreCount::Eight, PerCoreCount::Four, PerCoreCount::Two),
        25 => product(0xb002, MASK_NEW, 7, "Mali-G715", "Valhall", PerCoreCount::SixtyFour, PerCoreCount::Eight, PerCoreCount::Four, PerCoreCount::Two),
        26 => product(0xb002, MASK_NEW, 1, "Mali-G615", "Valhall", PerCoreCount::SixtyFour, PerCoreCount::Eight, PerCoreCount::Four, PerCoreCount::Two),
        27 => product(0xb003, MASK_NEW, 1, "Mali-G615", "Valhall", PerCoreCount::SixtyFour, PerCoreCount::Eight, PerCoreCount::Four, PerCoreCount::Two),
        28 => product(0xc000, MASK_NEW, 10, "Immortalis-G720", "Arm 5th Gen", PerCoreCount::SixtyFour, PerCoreCount::Eight, PerCoreCount::Four, PerCoreCount::Two),
        29 => product(0xc000, MASK_NEW, 6, "Mali-G720", "Arm 5th Gen", PerCoreCount::SixtyFour, PerCoreCount::Eight, PerCoreCount::Four, PerCoreCount::Two),
        30 => product(0xc000, MASK_NEW, 1, "Mali-G620", "Arm 5th Gen", PerCoreCount::SixtyFour, PerCoreCount::Eight, PerCoreCount::Four, PerCoreCount::Two),
        31 => product(0xc001, MASK_NEW, 1, "Mali-G620", "Arm 5th Gen", PerCoreCount::SixtyFour, PerCoreCount::Eight, PerCoreCount::Four, PerCoreCount::Two),
        32 => product(0xd000, MASK_NEW, 10, "Immortalis-G925", "Arm 5th Gen", PerCoreCount::SixtyFour, PerCoreCount::Eight, PerCoreCount::Four, PerCoreCount::Two),
        33 => product(0xd000, MASK_NEW, 6, "Mali-G725", "Arm 5th Gen", PerCoreCount::SixtyFour, PerCoreCount::Eight, PerCoreCount::Four, PerCoreCount::Two),
        34 => product(0xd001, MASK_NEW, 1, "Mali-G625", "Arm 5th Gen", PerCoreCount::SixtyFour, PerCoreCount::Eight, PerCoreCount::Four, PerCoreCount::Two),
        35 => product(0xe000, MASK_NEW, 10, "Mali G1-Ultra", "Arm 5th Gen", PerCoreCount::SixtyFour, PerCoreCount::Eight, PerCoreCount::Four, PerCoreCount::Two),
        36 => product(0xe001, MASK_NEW, 6, "Mali G1-Premium", "Arm 5th Gen", PerCoreCount::SixtyFour, PerCoreCount::Eight, PerCoreCount::Four, PerCoreCount::Two),
        _ => product(0xe003, MASK_NEW, 1, "Mali G1-Pro", "Arm 5th Gen", PerCoreCount::SixtyFour, PerCoreCount::Eight, PerCoreCount::Four, PerCoreCount::Two),
    }
}

/// The product table, in order.
pub fn product_versions() -> (r: Vec<ProductEntry>)
    ensures
        r@ == product_table(),
{
    let mut r: Vec<ProductEntry> = Vec::new();
    let mut i: usize = 0;
    while i < PRODUCT_COUNT
        invariant
            i <= PRODUCT_COUNT,
            r@ == product_table().subrange(0, i as int),
        decreases PRODUCT_COUNT - i,
    {
        r.push(product_at(i));
        i = i + 1;
        assert(r@ =~= product_table().subrange(0, i as int));
    }
    assert(r@ =~= product_table());
    r
}

/// The id of the first row, at or after `i`, whose masked bits equal it;
/// `input` itself when no row matches.
pub open spec fn masked_product_id_from(t: Seq<ProductEntry>, input: u32, i: int) -> u32
    decreases t.len() - i,
{
    if i < 0 || i >= t.len() {
        input
    } else if input & t[i].mask == t[i].id {
        t[i].id
    } else {
        masked_product_id_from(t, input, i + 1)
    }
}

/// Normalises a product id: the id of the first table row whose mask,
/// applied to the input, gives that row's id; the input unchanged when no
/// row matches.
pub fn get_gpu_id(input_id: u32) -> (r: u32)
    ensures
        r == masked_product_id_from(product_table(), input_id, 0),
{
    let mut i: usize = 0;
    while i < PRODUCT_COUNT
        invariant
            i <= PRODUCT_COUNT,
            masked_product_id_from(product_table(), input_id, i as int) == masked_product_id_from(
                product_table(),
                input_id,
                0,
            ),
        decreases PRODUCT_COUNT - i,
    {
        let entry = product_at(i);
        if input_id & entry.mask == entry.id {
            return entry.id;
        }
        i = i + 1;
    }
    input_id
}

/// Whether row `e` applies to `gpu_id` with `core_count` cores.
pub open spec fn applies(e: ProductEntry, gpu_id: u32, core_count: u32) -> bool {
    e.id == gpu_id && core_count >= e.min_cores
}

/// Among the first `n` rows that apply, the one with the largest core
/// threshold, the earliest among equals.
pub open spec fn best_row_upto(t: Seq<ProductEntry>, gpu_id: u32, core_count: u32, n: int) -> Option<int>
    decreases n,
{
    if n <= 0 {
        None
    } else {
        let prev = best_row_upto(t, gpu_id, core_count, n - 1);
        if applies(t[n - 1], gpu_id, core_count) {
            match prev {
                Some(j) => if t[j].min_cores >= t[n - 1].min_cores {
                    Some(j)
                } else {
                    Some(n - 1)
                },
                None => Some(n - 1),
            }
        } else {
            prev
        }
    }
}

/// The row of `t` chosen for `gpu_id` and `core_count`.
pub open spec fn selected_row(t: Seq<ProductEntry>, gpu_id: u32, core_count: u32) -> Option<ProductEntry> {
    match best_row_upto(t, gpu_id, core_count, t.len() as int) {
        Some(j) => Some(t[j]),
        None => None,
    }
}

/// Picks, among the rows of `table` with id `gpu_id` whose core threshold
/// is at most `core_count`, the one with the largest threshold (the earliest
/// among equals).
pub fn select_product(table: &[ProductEntry], gpu_id: u32, core_count: u32) -> (r: Option<ProductEntry>)
    ensures
        r == selected_row(table@, gpu_id, core_count),
{
    let mut best: Option<usize> = None;
    let mut i: usize = 0;
    while i < table.len()
        invariant
            i <= table@.len(),
            match best {
                Some(j) => best_row_upto(table@, gpu_id, core_count, i as int) == Some(j as int)
                    && j < i,
                None => best_row_upto(table@, gpu_id, core_count, i as int) is None,
            },
        decreases table@.len() - i,
    {
        let e = table[i];
        if e.id == gpu_id && core_count >= e.min_cores {
            match best {
                Some(j) => {
                    if table[j].min_cores < e.min_cores {
                        best = Some(i);
                    }
                },
                None => {
                    best = Some(i);
                },
            }
        }
        i = i + 1;
    }
    match best {
        Some(j) => Some(table[j]),
        None => None,
    }
}

/// The product table row for a normalised product id and a core count.
pub fn lookup_product(gpu_id: u32, core_count: u32) -> (r: Option<ProductEntry>)
    ensures
        r == selected_row(product_table(), gpu_id, core_count),
{
    let table = product_versions();
    select_product(table.as_slice(), gpu_id, core_count)
}

/// What `best_row_upto` picks: a row that applies, whose threshold no
/// applying row exceeds, and before which no applying row has the same
/// threshold; `None` when no row applies.
pub proof fn lemma_best_row(t: Seq<ProductEntry>, gpu_id: u32, core_count: u32, n: int)
    requires
        0 <= n <= t.len(),
    ensures
        match best_row_upto(t, gpu_id, core_count, n) {
            Some(j) => {
                &&& 0 <= j < n
                &&& applies(t[j], gpu_id, core_count)
                &&& forall|k: int|
                    0 <= k < n && applies(#[trigger] t[k], gpu_id, core_count) ==> t[k].min_cores
                        <= t[j].min_cores
                &&& forall|k: int|
                    0 <= k < j && applies(#[trigger] t[k], gpu_id, core_count) ==> t[k].min_cores
                        < t[j].min_cores
            },
            None => forall|k: int| 0 <= k < n ==> !applies(#[trigger] t[k], gpu_id, core_count),
        },
    decreases n,
{
    if n > 0 {
        lemma_best_row(t, gpu_id, core_count, n - 1);
    }
}

/// Two rows with the same id and core thresholds 1 and 6, and no other row
/// with that id: six cores select the threshold-6 row, five cores the
/// threshold-1 row.
pub proof fn lemma_threshold_tie_break(t: Seq<ProductEntry>, gpu_id: u32, low: int, high: int)
    requires
        0 <= low < t.len(),
        0 <= high < t.len(),
        t[low].id == gpu_id,
        t[high].id == gpu_id,
        t[low].min_cores == 1,
        t[high].min_cores == 6,
        forall|k: int| 0 <= k < t.len() && k != low && k != high ==> #[trigger] t[k].id != gpu_id,
    ensures
        selected_row(t, gpu_id, 6) == Some(t[high]),
        selected_row(t, gpu_id, 5) == Some(t[low]),
{
    lemma_best_row(t, gpu_id, 6, t.len() as int);
    lemma_best_row(t, gpu_id, 5, t.len() as int);
    assert(applies(t[high], gpu_id, 6));
    assert(applies(t[low], gpu_id, 5));
}

/// Resolving the same product id, core count and feature words twice gives
/// the same row and the same per-core counts: any two results that the
/// contracts of `get_gpu_id` and `lookup_product` admit for one input agree.
pub proof fn lemma_resolution_idempotent(
    gpu_id: u32,
    core_count: u32,
    core_features: u32,
    thread_features: u32,
    first: Option<ProductEntry>,
    second: Option<ProductEntry>,
)
    requires
        first == selected_row(
            product_table(),
            masked_product_id_from(product_table(), gpu_id, 0),
            core_count,
        ),
        second == selected_row(
            product_table(),
            masked_product_id_from(product_table(), gpu_id, 0),
            core_count,
        ),
    ensures
        first == second,
        first matches Some(a) ==> second matches Some(b) && {
            &&& a.get_num_exec_engines.spec_eval(core_count, core_features, thread_features)
                == b.get_num_exec_engines.spec_eval(core_count, core_features, thread_features)
            &&& a.get_num_fp32_fmas_per_engine.spec_eval(
                core_count,
                core_features,
                thread_features,
            ) == b.get_num_fp32_fmas_per_engine.spec_eval(
                core_count,
                core_features,
                thread_features,
            )
            &&& a.get_num_texels.spec_eval(core_count, core_features, thread_features)
                == b.get_num_texels.spec_eval(core_count, core_features, thread_features)
            &&& a.get_num_pixels.spec_eval(core_count, core_features, thread_features)
                == b.get_num_pixels.spec_eval(core_count, core_features, thread_features)
        },
{
}

/// Architecture major and minor from the raw GPU id: from bits 28..32 and
/// 24..28 in the 32-bit layout, from bits 56..64 and 48..56 when bits 28..32
/// are all set (the 64-bit layout).
pub open spec fn raw_architecture(raw_gpu_id: u64) -> (u8, u8) {
    if (raw_gpu_id >> 28) & 0xF == 0xF {
        (((raw_gpu_id >> 56) & 0xFF) as u8, ((raw_gpu_id >> 48) & 0xFF) as u8)
    } else {
        (((raw_gpu_id >> 28) & 0xF) as u8, ((raw_gpu_id >> 24) & 0xF) as u8)
    }
}

/// Architecture major and minor from the raw GPU id.
pub fn extract_architecture(raw_gpu_id: u64) -> (r: (u8, u8))
    ensures
        r == raw_architecture(raw_gpu_id),
{
    assert((raw_gpu_id >> 56) & 0xFF < 256 && (raw_gpu_id >> 48) & 0xFF < 256 && (raw_gpu_id
        >> 28) & 0xF < 256 && (raw_gpu_id >> 24) & 0xF < 256) by (bit_vector);
    if (raw_gpu_id >> 28) & 0xF == 0xF {
        (((raw_gpu_id >> 56) & 0xFF) as u8, ((raw_gpu_id >> 48) & 0xFF) as u8)
    } else {
        (((raw_gpu_id >> 28) & 0xF) as u8, ((raw_gpu_id >> 24) & 0xF) as u8)
    }
}

/// Whether a Mali descriptor passes validation: non-zero cores and L2.
pub open spec fn mali_info_valid(info: GpuInfo) -> bool {
    info.num_shader_cores != 0 && info.num_l2_bytes != 0
}

/// Rejects a descriptor with zero shader cores or zero L2 cache.
pub fn validate_gpu_info(info: &GpuInfo) -> (r: GpuResult<()>)
    ensures
        r is Ok <==> mali_info_valid(*info),
        r matches Err(e) ==> e is InvalidData,
{
    if info.num_shader_cores == 0 {
        return Err(GpuError::InvalidData(String::from_str("GPU has zero shader cores")));
    }
    if info.num_l2_bytes == 0 {
        return Err(GpuError::InvalidData(String::from_str("GPU has zero L2 cache")));
    }
    Ok(())
}

} // verus!
