//! Decoder for the Mali property stream: a sequence of little-endian 32-bit
//! keys, each followed by a value whose width the key's low two bits give.
use vstd::prelude::*;
use vstd::arithmetic::power2::{lemma2_to64, pow2};
use vstd::bytes::{
    spec_u16_from_le_bytes,
    spec_u32_from_le_bytes,
    spec_u64_from_le_bytes,
    u16_from_le_bytes,
    u32_from_le_bytes,
    u64_from_le_bytes,
};
use vstd::slice::slice_subrange;
use crate::error::{GpuError, GpuResult};

verus! {

/// Property ids the decoder understands.
#[derive(Debug, Clone, Copy, PartialEq, Eq, Structural)]
enum PropId {
    ProductId,
    L2Log2CacheSize,
    L2NumL2Slices,
    RawL2Features,
    RawCoreFeatures,
    RawGpuId,
    RawThreadFeatures,
    CoherencyNumCoreGroups,
}

impl PropId {
    fn from_raw(value: u64) -> (r: Option<PropId>)
        ensures
            r == match value {
                1 => Some(PropId::ProductId),
                14 => Some(PropId::L2Log2CacheSize),
                15 => Some(PropId::L2NumL2Slices),
                29 => Some(PropId::RawL2Features),
                30 => Some(PropId::RawCoreFeatures),
                55 => Some(PropId::RawGpuId),
                59 => Some(PropId::RawThreadFeatures),
                62 => Some(PropId::CoherencyNumCoreGroups),
                _ => None::<PropId>,
            },
    {
        match value {
            1 => Some(PropId::ProductId),
            14 => Some(PropId::L2Log2CacheSize),
            15 => Some(PropId::L2NumL2Slices),
            29 => Some(PropId::RawL2Features),
            30 => Some(PropId::RawCoreFeatures),
            55 => Some(PropId::RawGpuId),
            59 => Some(PropId::RawThreadFeatures),
            62 => Some(PropId::CoherencyNumCoreGroups),
            _ => None,
        }
    }
}

/// The first property id of the core-group masks; sixteen follow in a row.
pub const CORE_MASK_BASE: u64 = 64;

/// The last property id of the core-group masks.
pub const CORE_MASK_LAST: u64 = 79;

/// Strictness of the property-stream decoder.
#[derive(Debug, Clone, Copy, PartialEq, Eq, Structural)]
pub struct ParserConfig {
    /// Tolerate a record cut short by the end of the buffer: the stream ends
    /// there instead of failing.
    pub lenient_mode: bool,
    /// Marks a strict configuration; decoding reads no behaviour from it
    /// (which masks are dropped is `skip_out_of_bounds_masks`'s to say).
    pub validate_group_bounds: bool,
    /// Accept core-group masks while no group count has been seen.
    pub accept_masks_without_groups: bool,
    /// Drop core-group masks whose group index is not below the group count.
    pub skip_out_of_bounds_masks: bool,
}

impl ParserConfig {
    pub open spec fn spec_parity() -> ParserConfig {
        ParserConfig {
            lenient_mode: true,
            validate_group_bounds: false,
            accept_masks_without_groups: true,
            skip_out_of_bounds_masks: false,
        }
    }

    pub open spec fn spec_extended() -> ParserConfig {
        ParserConfig {
            lenient_mode: false,
            validate_group_bounds: true,
            accept_masks_without_groups: false,
            skip_out_of_bounds_masks: true,
        }
    }

    /// The most tolerant configuration.
    pub fn parity() -> (r: ParserConfig)
        ensures
            r == ParserConfig::spec_parity(),
    {
        ParserConfig {
            lenient_mode: true,
            validate_group_bounds: false,
            accept_masks_without_groups: true,
            skip_out_of_bounds_masks: false,
        }
    }

    /// The strictest configuration.
    pub fn extended() -> (r: ParserConfig)
        ensures
            r == ParserConfig::spec_extended(),
    {
        ParserConfig {
            lenient_mode: false,
            validate_group_bounds: true,
            accept_masks_without_groups: false,
            skip_out_of_bounds_masks: true,
        }
    }
}

/// GPU properties decoded from the driver's property stream.
#[derive(Debug, Clone, Copy, PartialEq, Eq, Structural)]
pub struct ParsedProperties {
    pub gpu_id: u32,
    /// Log2 of the L2 cache size per slice.
    pub l2_log2_cache_size: u64,
    pub num_l2_slices: u64,
    pub raw_l2_features: u64,
    pub raw_core_features: u32,
    pub raw_gpu_id: u64,
    pub raw_thread_features: u32,
    /// Always the number of set bits of `shader_core_mask`.
    pub num_shader_cores: u32,
    /// OR of every accepted core-group mask.
    pub shader_core_mask: u64,
}

impl ParsedProperties {
    pub open spec fn spec_empty() -> ParsedProperties {
        ParsedProperties {
            gpu_id: 0,
            l2_log2_cache_size: 0,
            num_l2_slices: 0,
            raw_l2_features: 0,
            raw_core_features: 0,
            raw_gpu_id: 0,
            raw_thread_features: 0,
            num_shader_cores: 0,
            shader_core_mask: 0,
        }
    }

    /// Properties with every field zero.
    pub fn empty() -> (r: ParsedProperties)
        ensures
            r == ParsedProperties::spec_empty(),
    {
        ParsedProperties {
            gpu_id: 0,
            l2_log2_cache_size: 0,
            num_l2_slices: 0,
            raw_l2_features: 0,
            raw_core_features: 0,
            raw_gpu_id: 0,
            raw_thread_features: 0,
            num_shader_cores: 0,
            shader_core_mask: 0,
        }
    }
}

impl Default for ParsedProperties {
    fn default() -> (r: Self)
        ensures
            r == ParsedProperties::spec_empty(),
    {
        ParsedProperties::empty()
    }
}

/// Number of set bits.
pub open spec fn popcount(x: u64) -> nat
    decreases x,
{
    if x == 0 {
        0
    } else {
        (x % 2) as nat + popcount(x / 2)
    }
}

proof fn lemma_popcount_bound(x: u64, n: nat)
    requires
        x < pow2(n),
    ensures
        popcount(x) <= n,
    decreases n,
{
    if x != 0 {
        if n == 0 {
            lemma2_to64();
        } else {
            vstd::arithmetic::power2::lemma_pow2_unfold(n);
            lemma_popcount_bound(x / 2, (n - 1) as nat);
        }
    }
}

/// Number of set bits of `x`.
pub fn count_ones(x: u64) -> (r: u32)
    ensures
        r == popcount(x),
{
    proof {
        lemma2_to64();
        lemma_popcount_bound(x, 64);
    }
    let mut v = x;
    let mut c: u32 = 0;
    while v != 0
        invariant
            c + popcount(v) == popcount(x),
            popcount(x) <= 64,
        decreases v,
    {
        c = c + (v % 2) as u32;
        v = v / 2;
    }
    c
}

/// Width in bytes of the value that follows a key.
pub open spec fn value_width(key: u32) -> int {
    let class = key & 3;
    if class == 0 {
        1
    } else if class == 1 {
        2
    } else if class == 2 {
        4
    } else {
        8
    }
}

/// The value of width class `class` (1, 2, 4 or 8 bytes) at byte offset `off`.
pub open spec fn value_at(b: Seq<u8>, off: int, class: u32) -> u64 {
    if class == 0 {
        b[off] as u64
    } else if class == 1 {
        spec_u16_from_le_bytes(b.subrange(off, off + 2)) as u64
    } else if class == 2 {
        spec_u32_from_le_bytes(b.subrange(off, off + 4)) as u64
    } else {
        spec_u64_from_le_bytes(b.subrange(off, off + 8))
    }
}

/// The key at byte offset `off`.
pub open spec fn key_at(b: Seq<u8>, off: int) -> u32 {
    spec_u32_from_le_bytes(b.subrange(off, off + 4))
}

/// Whether a core-group mask with index `group` is accepted while
/// `num_core_groups` groups are known.
pub open spec fn accepts_mask(group: u64, num_core_groups: u64, config: ParserConfig) -> bool {
    if num_core_groups == 0 {
        config.accept_masks_without_groups
    } else if group < num_core_groups {
        true
    } else {
        !config.skip_out_of_bounds_masks
    }
}

/// The decoder's state after one record: the properties and the group count.
pub open spec fn apply_prop(
    st: (ParsedProperties, u64),
    id: u64,
    value: u64,
    config: ParserConfig,
) -> (ParsedProperties, u64) {
    let (p, groups) = st;
    if id == 1 {
        (ParsedProperties { gpu_id: value as u32, ..p }, groups)
    } else if id == 14 {
        (ParsedProperties { l2_log2_cache_size: value, ..p }, groups)
    } else if id == 15 {
        (ParsedProperties { num_l2_slices: value, ..p }, groups)
    } else if id == 29 {
        (ParsedProperties { raw_l2_features: value, ..p }, groups)
    } else if id == 30 {
        (ParsedProperties { raw_core_features: value as u32, ..p }, groups)
    } else if id == 55 {
        (ParsedProperties { raw_gpu_id: value, ..p }, groups)
    } else if id == 59 {
        (ParsedProperties { raw_thread_features: value as u32, ..p }, groups)
    } else if id == 62 {
        (p, value)
    } else if CORE_MASK_BASE <= id <= CORE_MASK_LAST && accepts_mask(
        (id - CORE_MASK_BASE) as u64,
        groups,
        config,
    ) {
        (ParsedProperties { shader_core_mask: p.shader_core_mask | value, ..p }, groups)
    } else {
        st
    }
}

/// The decoder's state after the complete records from offset `p` on. The
/// stream ends at the end of the buffer or where a key or a value is cut
/// short.
pub open spec fn walk(
    b: Seq<u8>,
    p: int,
    st: (ParsedProperties, u64),
    config: ParserConfig,
) -> (ParsedProperties, u64)
    decreases b.len() - p,
{
    if p < 0 || p + 4 > b.len() {
        st
    } else {
        let key = key_at(b, p);
        let end = p + 4 + value_width(key);
        if end > b.len() {
            st
        } else {
            walk(b, end, apply_prop(st, (key >> 2) as u64, value_at(b, p + 4, key & 3), config), config)
        }
    }
}

/// Where the record cut short by the end of the buffer would have ended,
/// walking from offset `p`: past its key when the key itself is cut, past
/// its value otherwise; `None` when the buffer ends exactly after a record.
pub open spec fn truncation(b: Seq<u8>, p: int) -> Option<int>
    decreases b.len() - p,
{
    if p < 0 || p >= b.len() {
        None
    } else if p + 4 > b.len() {
        Some(p + 4)
    } else {
        let end = p + 4 + value_width(key_at(b, p));
        if end > b.len() {
            Some(end)
        } else {
            truncation(b, end)
        }
    }
}

/// Properties with the shader core count derived from the mask.
pub open spec fn with_core_count(p: ParsedProperties) -> ParsedProperties {
    ParsedProperties { num_shader_cores: popcount(p.shader_core_mask) as u32, ..p }
}

/// What decoding `b` under `config` yields.
pub open spec fn properties_outcome(b: Seq<u8>, config: ParserConfig) -> GpuResult<ParsedProperties> {
    match truncation(b, 0) {
        Some(end) if !config.lenient_mode => Err(
            GpuError::BufferTooSmall { expected: end as usize, actual: b.len() as usize },
        ),
        _ => Ok(with_core_count(walk(b, 0, (ParsedProperties::spec_empty(), 0), config).0)),
    }
}

/// Decoder state over one property buffer.
struct UnifiedPropParser<'a> {
    data: &'a [u8],
    pos: usize,
    config: ParserConfig,
}

impl<'a> UnifiedPropParser<'a> {
    fn new(data: &'a [u8], config: ParserConfig) -> (r: Self)
        ensures
            r.data@ == data@,
            r.pos == 0,
            r.config == config,
    {
        UnifiedPropParser { data, pos: 0, config }
    }

    /// Decodes every record and derives the shader core count.
    fn parse(self) -> (r: GpuResult<ParsedProperties>)
        requires
            self.pos == 0,
            self.data@.len() + 16 <= usize::MAX,
        ensures
            r == properties_outcome(self.data@, self.config),
    {
        let mut parser = self;
        let ghost b = parser.data@;
        let ghost config = parser.config;
        let mut props = ParsedProperties::empty();
        let mut num_core_groups: u64 = 0;
        loop
            invariant_except_break
                walk(b, parser.pos as int, (props, num_core_groups), config) == walk(
                    b,
                    0,
                    (ParsedProperties::spec_empty(), 0),
                    config,
                ),
                truncation(b, parser.pos as int) == truncation(b, 0),
            invariant
                parser.data@ == b,
                parser.config == config,
                b == self.data@,
                config == self.config,
                parser.pos <= b.len(),
                b.len() + 16 <= usize::MAX,
            ensures
                (props, num_core_groups) == walk(b, 0, (ParsedProperties::spec_empty(), 0), config),
                truncation(b, 0) is None || config.lenient_mode,
            decreases b.len() - parser.pos,
        {
            let ghost start = parser.pos as int;
            let next = parser.next_prop();
            match next {
                Err(e) => {
                    assert(truncation(b, start) is Some);
                    assert(!config.lenient_mode);
                    return Err(e);
                },
                Ok(None) => {
                    break ;
                },
                Ok(Some((prop_id, value))) => {
                    match PropId::from_raw(prop_id) {
                        Some(PropId::ProductId) => {
                            props.gpu_id = #[verifier::truncate] (value as u32);
                        },
                        Some(PropId::L2Log2CacheSize) => {
                            props.l2_log2_cache_size = value;
                        },
                        Some(PropId::L2NumL2Slices) => {
                            props.num_l2_slices = value;
                        },
                        Some(PropId::RawL2Features) => {
                            props.raw_l2_features = value;
                        },
                        Some(PropId::RawCoreFeatures) => {
                            props.raw_core_features = #[verifier::truncate] (value as u32);
                        },
                        Some(PropId::RawGpuId) => {
                            props.raw_gpu_id = value;
                        },
                        Some(PropId::RawThreadFeatures) => {
                            props.raw_thread_features = #[verifier::truncate] (value as u32);
                        },
                        Some(PropId::CoherencyNumCoreGroups) => {
                            num_core_groups = value;
                        },
                        None => {
                            if CORE_MASK_BASE <= prop_id && prop_id <= CORE_MASK_LAST {
                                let _ = parser.handle_core_mask(
                                    prop_id,
                                    value,
                                    num_core_groups,
                                    &mut props,
                                );
                            }
                        },
                    }
                },
            }
        }
        props.num_shader_cores = count_ones(props.shader_core_mask);
        Ok(props)
    }

    /// ORs a core-group mask into the aggregate when the configuration
    /// accepts it.
    fn handle_core_mask(
        &self,
        prop_id: u64,
        value: u64,
        num_core_groups: u64,
        props: &mut ParsedProperties,
    ) -> (r: GpuResult<()>)
        requires
            CORE_MASK_BASE <= prop_id <= CORE_MASK_LAST,
        ensures
            r is Ok,
            *final(props) == (if accepts_mask(
                (prop_id - CORE_MASK_BASE) as u64,
                num_core_groups,
                self.config,
            ) {
                ParsedProperties { shader_core_mask: old(props).shader_core_mask | value, ..*old(props) }
            } else {
                *old(props)
            }),
    {
        let group_idx = prop_id - CORE_MASK_BASE;
        let should_accept = if num_core_groups == 0 {
            self.config.accept_masks_without_groups
        } else if group_idx < num_core_groups {
            true
        } else {
            !self.config.skip_out_of_bounds_masks
        };
        if should_accept {
            props.shader_core_mask = props.shader_core_mask | value;
        }
        Ok(())
    }

    /// The next complete record as (property id, value). `None` at the end
    /// of the stream; a record whose key or value is cut short ends the
    /// stream when tolerated and is `BufferTooSmall` otherwise.
    fn next_prop(&mut self) -> (r: GpuResult<Option<(u64, u64)>>)
        requires
            old(self).pos <= old(self).data@.len(),
            old(self).data@.len() + 16 <= usize::MAX,
        ensures
            final(self).data == old(self).data,
            final(self).config == old(self).config,
            final(self).pos <= final(self).data@.len(),
            ({
                let b = old(self).data@;
                let p = old(self).pos as int;
                if p == b.len() {
                    r == Ok::<Option<(u64, u64)>, GpuError>(None) && final(self).pos == p
                } else if p + 4 > b.len() {
                    if old(self).config.lenient_mode {
                        r == Ok::<Option<(u64, u64)>, GpuError>(None) && final(self).pos == p
                    } else {
                        r == Err::<Option<(u64, u64)>, GpuError>(
                            GpuError::BufferTooSmall {
                                expected: (p + 4) as usize,
                                actual: b.len() as usize,
                            },
                        )
                    }
                } else {
                    let key = key_at(b, p);
                    let end = p + 4 + value_width(key);
                    if end > b.len() {
                        if old(self).config.lenient_mode {
                            r == Ok::<Option<(u64, u64)>, GpuError>(None) && final(self).pos
                                == b.len()
                        } else {
                            r == Err::<Option<(u64, u64)>, GpuError>(
                                GpuError::BufferTooSmall {
                                    expected: end as usize,
                                    actual: b.len() as usize,
                                },
                            )
                        }
                    } else {
                        r == Ok::<Option<(u64, u64)>, GpuError>(
                            Some(((key >> 2) as u64, value_at(b, p + 4, key & 3))),
                        ) && final(self).pos == end
                    }
                }
            }),
    {
        if self.pos == self.data.len() {
            return Ok(None);
        }
        if self.pos + 4 > self.data.len() {
            if self.config.lenient_mode {
                return Ok(None);
            } else {
                return Err(
                    GpuError::BufferTooSmall { expected: self.pos + 4, actual: self.data.len() },
                );
            }
        }
        let key_bytes = self.read_bytes(4);
        let key = u32_from_le_bytes(key_bytes);
        let prop_id = (key >> 2) as u64;
        let prop_size = key & 3;
        assert(key & 3 < 4) by (bit_vector);
        let value_size: usize = if prop_size == 0 {
            1
        } else if prop_size == 1 {
            2
        } else if prop_size == 2 {
            4
        } else {
            8
        };
        if self.pos + value_size > self.data.len() {
            if self.config.lenient_mode {
                self.pos = self.data.len();
                return Ok(None);
            } else {
                return Err(
                    GpuError::BufferTooSmall {
                        expected: self.pos + value_size,
                        actual: self.data.len(),
                    },
                );
            }
        }
        let value = self.read_value(value_size, prop_size);
        Ok(Some((prop_id, value)))
    }

    /// The next `size` bytes; the caller has checked that they are there.
    fn read_bytes(&mut self, size: usize) -> (r: &'a [u8])
        requires
            old(self).pos + size <= old(self).data@.len(),
            old(self).data@.len() + 16 <= usize::MAX,
        ensures
            r@ == old(self).data@.subrange(old(self).pos as int, old(self).pos + size),
            final(self).pos == old(self).pos + size,
            final(self).data == old(self).data,
            final(self).config == old(self).config,
    {
        let slice = slice_subrange(self.data, self.pos, self.pos + size);
        self.pos = self.pos + size;
        slice
    }

    /// Reads a little-endian value of width class `prop_size`, `size` bytes long.
    fn read_value(&mut self, size: usize, prop_size: u32) -> (r: u64)
        requires
            prop_size < 4,
            size == (if prop_size == 0 {
                1usize
            } else if prop_size == 1 {
                2usize
            } else if prop_size == 2 {
                4usize
            } else {
                8usize
            }),
            old(self).pos + size <= old(self).data@.len(),
            old(self).data@.len() + 16 <= usize::MAX,
        ensures
            r == value_at(old(self).data@, old(self).pos as int, prop_size),
            final(self).pos == old(self).pos + size,
            final(self).data == old(self).data,
            final(self).config == old(self).config,
    {
        let bytes = self.read_bytes(size);
        if prop_size == 0 {
            bytes[0] as u64
        } else if prop_size == 1 {
            u16_from_le_bytes(bytes) as u64
        } else if prop_size == 2 {
            u32_from_le_bytes(bytes) as u64
        } else {
            u64_from_le_bytes(bytes)
        }
    }
}

/// Decodes a property buffer under `config`. Unknown property ids are
/// skipped; core-group masks (ids 64 to 79) are ORed into the aggregate mask
/// as the configuration allows; the shader core count is the number of set
/// bits of that mask.
pub fn parse_properties(buffer: &[u8], config: ParserConfig) -> (r: GpuResult<ParsedProperties>)
    requires
        buffer@.len() + 16 <= usize::MAX,
    ensures
        r == properties_outcome(buffer@, config),
        r matches Ok(p) ==> p.num_shader_cores == popcount(p.shader_core_mask),
{
    proof {
        lemma_core_count_is_popcount(buffer@, config);
    }
    let parser = UnifiedPropParser::new(buffer, config);
    parser.parse()
}

/// Decodes a property buffer strictly.
pub fn parse_properties_strict(buffer: &[u8]) -> (r: GpuResult<ParsedProperties>)
    requires
        buffer@.len() + 16 <= usize::MAX,
    ensures
        r == properties_outcome(buffer@, ParserConfig::spec_extended()),
{
    parse_properties(buffer, ParserConfig::extended())
}

/// Decodes a property buffer tolerantly; this never fails.
pub fn parse_properties_lenient(buffer: &[u8]) -> (r: ParsedProperties)
    requires
        buffer@.len() + 16 <= usize::MAX,
    ensures
        Ok::<ParsedProperties, GpuError>(r) == properties_outcome(
            buffer@,
            ParserConfig::spec_parity(),
        ),
{
    match parse_properties(buffer, ParserConfig::parity()) {
        Ok(props) => props,
        Err(_) => ParsedProperties::empty(),
    }
}

/// A truncated stream: under the Parity configuration decoding never fails;
/// under the Extended configuration it fails with `BufferTooSmall`, naming
/// where the cut record would have ended, exactly when the buffer does not
/// end right after a complete record (a key or a value is cut short).
pub proof fn lemma_truncated_stream_policy(b: Seq<u8>)
    ensures
        properties_outcome(b, ParserConfig::spec_parity()) is Ok,
        truncation(b, 0) matches Some(end) ==> properties_outcome(
            b,
            ParserConfig::spec_extended(),
        ) == Err::<ParsedProperties, GpuError>(
            GpuError::BufferTooSmall { expected: end as usize, actual: b.len() as usize },
        ),
        truncation(b, 0) is None ==> properties_outcome(b, ParserConfig::spec_extended()) is Ok,
{
}

/// Whether the complete records of `b` from offset `p` on end exactly at
/// offset `n`.
pub open spec fn records_reach(b: Seq<u8>, p: int, n: int) -> bool
    decreases n - p,
{
    if p == n {
        n <= b.len()
    } else if p > n || p < 0 || p + 4 > b.len() {
        false
    } else {
        let end = p + 4 + value_width(key_at(b, p));
        end <= n && records_reach(b, end, n)
    }
}

/// A stream of complete records ending at offset `n`, then a key whose
/// value of width `w` is cut short by the end of the buffer: strict decoding
/// fails with `BufferTooSmall`, expecting `n + 4 + w` bytes.
pub proof fn lemma_cut_record_reported(b: Seq<u8>, n: int)
    requires
        records_reach(b, 0, n),
        n + 4 <= b.len(),
        n + 4 + value_width(key_at(b, n)) > b.len(),
    ensures
        truncation(b, 0) == Some(n + 4 + value_width(key_at(b, n))),
        properties_outcome(b, ParserConfig::spec_extended()) == Err::<ParsedProperties, GpuError>(
            GpuError::BufferTooSmall {
                expected: (n + 4 + value_width(key_at(b, n))) as usize,
                actual: b.len() as usize,
            },
        ),
{
    lemma_truncation_after_records(b, 0, n);
}

/// A stream of complete records ending at offset `n`, then one to three
/// bytes of a key cut short by the end of the buffer: strict decoding fails
/// with `BufferTooSmall`, expecting `n + 4` bytes.
pub proof fn lemma_cut_key_reported(b: Seq<u8>, n: int)
    requires
        records_reach(b, 0, n),
        n < b.len() < n + 4,
    ensures
        truncation(b, 0) == Some(n + 4),
        properties_outcome(b, ParserConfig::spec_extended()) == Err::<ParsedProperties, GpuError>(
            GpuError::BufferTooSmall { expected: (n + 4) as usize, actual: b.len() as usize },
        ),
{
    lemma_truncation_after_records(b, 0, n);
}

proof fn lemma_truncation_after_records(b: Seq<u8>, p: int, n: int)
    requires
        0 <= p,
        records_reach(b, p, n),
    ensures
        n <= b.len(),
        truncation(b, p) == truncation(b, n),
    decreases n - p,
{
    if p != n {
        let end = p + 4 + value_width(key_at(b, p));
        assert(value_width(key_at(b, p)) >= 1);
        lemma_truncation_after_records(b, end, n);
    }
}

/// Every successful decoding, under any configuration, reports as shader
/// core count exactly the number of set bits of the aggregate mask.
pub proof fn lemma_core_count_is_popcount(b: Seq<u8>, config: ParserConfig)
    ensures
        properties_outcome(b, config) matches Ok(p) ==> p.num_shader_cores == popcount(
            p.shader_core_mask,
        ),
{
    let m = walk(b, 0, (ParsedProperties::spec_empty(), 0), config).0.shader_core_mask;
    assert(popcount(m) <= 64) by {
        lemma2_to64();
        lemma_popcount_bound(m, 64);
    }
}

} // verus!
