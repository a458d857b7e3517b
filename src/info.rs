//! The capability descriptor the library produces, and its builder.
use vstd::prelude::*;
use vstd::string::StringExecFns;
use crate::text::{decimal, hex_padded, push_decimal, push_hex_padded};

verus! {

/// GPU vendor.
#[derive(Debug, Clone, Copy, PartialEq, Eq, Structural)]
pub enum GpuVendor {
    Mali,
    Adreno,
    Unknown,
}

impl GpuVendor {
    pub open spec fn spec_name(self) -> &'static str {
        match self {
            GpuVendor::Mali => "ARM Mali",
            GpuVendor::Adreno => "Qualcomm Adreno",
            GpuVendor::Unknown => "Unknown",
        }
    }

    /// The display name of the vendor.
    #[verifier::when_used_as_spec(spec_name)]
    pub fn name(self) -> (r: &'static str)
        ensures
            r == self.spec_name(),
    {
        match self {
            GpuVendor::Mali => "ARM Mali",
            GpuVendor::Adreno => "Qualcomm Adreno",
            GpuVendor::Unknown => "Unknown",
        }
    }
}

/// Mali-specific GPU data.
#[derive(Debug, Clone, Copy, PartialEq, Eq, Structural)]
pub struct MaliData {
    pub gpu_id: u32,
    pub raw_gpu_id: u64,
    pub shader_core_mask: u64,
    pub num_l2_slices: u64,
    pub num_exec_engines: u32,
    pub num_fp32_fmas_per_core: u32,
    pub num_fp16_fmas_per_core: u32,
    pub num_texels_per_core: u32,
    pub num_pixels_per_core: u32,
}

/// Adreno-specific GPU data.
#[derive(Debug, Clone)]
pub struct AdrenoData {
    pub chip_id: u32,
    pub gpu_model_code: u32,
    pub mmu_enabled: bool,
    pub gmem_size_bytes: u32,
    pub spec_confidence: String,
    pub stream_processors: u32,
    pub max_freq_mhz: u32,
    pub process_nm: u32,
    pub release_year: u32,
    pub snapdragon_models: Vec<String>,
}

/// Unified GPU information.
#[derive(Debug, Clone)]
pub struct GpuInfo {
    pub vendor: GpuVendor,
    pub gpu_name: String,
    pub architecture: String,
    pub architecture_major: u8,
    pub architecture_minor: u8,
    pub num_shader_cores: u32,
    /// L2 cache (Mali) or GMEM (Adreno) size in bytes.
    pub num_l2_bytes: u64,
    pub num_bus_bits: u64,
    /// Present exactly for Mali descriptors.
    pub mali_data: Option<MaliData>,
    /// Present exactly for Adreno descriptors.
    pub adreno_data: Option<AdrenoData>,
}

/// Whether `v` holds, in order, owned copies of the strings of `s`.
pub open spec fn same_strings(v: Seq<String>, s: Seq<&'static str>) -> bool {
    &&& v.len() == s.len()
    &&& forall|i: int| 0 <= i < v.len() ==> #[trigger] v[i]@ == s[i]@
}

/// Owned copies of a list of static strings.
pub fn owned_strings(s: &[&'static str]) -> (r: Vec<String>)
    ensures
        same_strings(r@, s@),
{
    let mut r: Vec<String> = Vec::new();
    let mut i: usize = 0;
    while i < s.len()
        invariant
            i <= s@.len(),
            same_strings(r@, s@.subrange(0, i as int)),
        decreases s@.len() - i,
    {
        r.push(String::from_str(s[i]));
        i = i + 1;
    }
    assert(s@.subrange(0, s@.len() as int) =~= s@);
    r
}

impl GpuInfo {
    /// A new builder (Mali descriptors).
    pub fn builder() -> (r: GpuInfoBuilder)
        ensures
            r == GpuInfoBuilder::empty(),
    {
        GpuInfoBuilder::new()
    }

    pub open spec fn spec_supports_fp16(&self) -> bool {
        match self.vendor {
            GpuVendor::Mali => self.mali_data matches Some(m) && m.num_fp16_fmas_per_core > 0,
            GpuVendor::Adreno => self.architecture_major >= 6,
            GpuVendor::Unknown => false,
        }
    }

    /// Whether the GPU runs FP16 arithmetic: for Mali, when it has FP16
    /// units; for Adreno, from the 6xx generation on.
    pub fn supports_fp16(&self) -> (r: bool)
        ensures
            r == self.spec_supports_fp16(),
    {
        match self.vendor {
            GpuVendor::Mali => match &self.mali_data {
                Some(mali) => mali.num_fp16_fmas_per_core > 0,
                None => false,
            },
            GpuVendor::Adreno => self.architecture_major >= 6,
            GpuVendor::Unknown => false,
        }
    }

    /// Peak FP32 operations per second at `frequency_hz`: two operations per
    /// fused multiply-add. Mali: FMA units per core times cores; Adreno: the
    /// stream processors, or 128 per shader core without Adreno data.
    pub open spec fn fp32_flops(&self, frequency_hz: u64) -> int {
        match self.vendor {
            GpuVendor::Mali => match self.mali_data {
                Some(m) => m.num_fp32_fmas_per_core * self.num_shader_cores * frequency_hz * 2,
                None => 0,
            },
            GpuVendor::Adreno => match self.adreno_data {
                Some(a) => a.stream_processors * 2 * frequency_hz,
                None => self.num_shader_cores * 128 * 2 * frequency_hz,
            },
            GpuVendor::Unknown => 0,
        }
    }

    /// Peak FP32 operations per second at the given frequency.
    pub fn calculate_fp32_flops(&self, frequency_hz: u64) -> (r: u64)
        requires
            self.fp32_flops(frequency_hz) <= u64::MAX,
        ensures
            r == self.fp32_flops(frequency_hz),
    {
        match self.vendor {
            GpuVendor::Mali => match &self.mali_data {
                Some(mali) => {
                    let fmas = mali.num_fp32_fmas_per_core as u64;
                    let cores = self.num_shader_cores as u64;
                    proof {
                        lemma_product_bounds(fmas as int, cores as int, frequency_hz as int);
                        assert(fmas * cores <= u64::MAX) by (nonlinear_arith)
                            requires
                                fmas <= u32::MAX,
                                cores <= u32::MAX,
                        ;
                    }
                    fmas * cores * frequency_hz * 2
                },
                None => 0,
            },
            GpuVendor::Adreno => match &self.adreno_data {
                Some(adreno) => {
                    let sp = adreno.stream_processors as u64;
                    proof {
                        lemma_product_bounds(sp as int, 2, frequency_hz as int);
                    }
                    sp * 2 * frequency_hz
                },
                None => {
                    let cores = self.num_shader_cores as u64;
                    proof {
                        lemma_product_bounds(cores as int, 256, frequency_hz as int);
                        assert(cores * 128 * 2 * frequency_hz == cores * 256 * frequency_hz)
                            by (nonlinear_arith);
                    }
                    cores * 128 * 2 * frequency_hz
                },
            },
            GpuVendor::Unknown => 0,
        }
    }
}

impl GpuInfo {
    /// The one-line summary of the descriptor.
    pub open spec fn summary(&self) -> Seq<char> {
        let l2_kb = decimal((self.num_l2_bytes / 1024) as nat);
        match self.vendor {
            GpuVendor::Mali => if self.gpu_name@.len() > 0 {
                let head = self.gpu_name@ + " ("@ + self.architecture@ + "), Architecture: "@
                    + decimal(self.architecture_major as nat) + "."@ + decimal(
                    self.architecture_minor as nat,
                ) + ", Cores: "@ + decimal(self.num_shader_cores as nat) + ", L2: "@ + l2_kb
                    + " KB"@;
                if self.num_bus_bits > 0 {
                    head + ", Bus: "@ + decimal(self.num_bus_bits as nat) + " bits"@
                } else {
                    head
                }
            } else {
                let id: u32 = match self.mali_data {
                    Some(m) => m.gpu_id,
                    None => 0,
                };
                "GPU ID: 0x"@ + hex_padded(id as nat, 4) + ", Cores: "@ + decimal(
                    self.num_shader_cores as nat,
                ) + ", L2: "@ + l2_kb + " KB"@
            },
            GpuVendor::Adreno => {
                let confidence = match self.adreno_data {
                    Some(a) => a.spec_confidence@,
                    None => Seq::<char>::empty(),
                };
                self.gpu_name@ + " ("@ + self.architecture@ + " "@ + decimal(
                    self.architecture_major as nat,
                ) + "."@ + decimal(self.architecture_minor as nat) + "), Cores: "@ + decimal(
                    self.num_shader_cores as nat,
                ) + ", GMEM: "@ + l2_kb + " KB, Bus: "@ + decimal(self.num_bus_bits as nat)
                    + " bits "@ + confidence
            },
            GpuVendor::Unknown => "Unknown GPU: "@ + self.gpu_name@,
        }
    }

    /// The descriptor as one line of text: name, architecture and version,
    /// core count, cache size in KiB and, where known, bus width.
    pub fn to_string(&self) -> (r: String)
        ensures
            r@ == self.summary(),
    {
        let mut s = String::new();
        match self.vendor {
            GpuVendor::Mali => {
                if !self.gpu_name.as_str().is_empty() {
                    s.append(self.gpu_name.as_str());
                    s.append(" (");
                    s.append(self.architecture.as_str());
                    s.append("), Architecture: ");
                    push_decimal(&mut s, self.architecture_major as u64);
                    s.append(".");
                    push_decimal(&mut s, self.architecture_minor as u64);
                    s.append(", Cores: ");
                    push_decimal(&mut s, self.num_shader_cores as u64);
                    s.append(", L2: ");
                    push_decimal(&mut s, self.num_l2_bytes / 1024);
                    s.append(" KB");
                    if self.num_bus_bits > 0 {
                        s.append(", Bus: ");
                        push_decimal(&mut s, self.num_bus_bits);
                        s.append(" bits");
                    }
                } else {
                    let id: u32 = match &self.mali_data {
                        Some(m) => m.gpu_id,
                        None => 0,
                    };
                    s.append("GPU ID: 0x");
                    push_hex_padded(&mut s, id as u64, 4);
                    s.append(", Cores: ");
                    push_decimal(&mut s, self.num_shader_cores as u64);
                    s.append(", L2: ");
                    push_decimal(&mut s, self.num_l2_bytes / 1024);
                    s.append(" KB");
                }
            },
            GpuVendor::Adreno => {
                s.append(self.gpu_name.as_str());
                s.append(" (");
                s.append(self.architecture.as_str());
                s.append(" ");
                push_decimal(&mut s, self.architecture_major as u64);
                s.append(".");
                push_decimal(&mut s, self.architecture_minor as u64);
                s.append("), Cores: ");
                push_decimal(&mut s, self.num_shader_cores as u64);
                s.append(", GMEM: ");
                push_decimal(&mut s, self.num_l2_bytes / 1024);
                s.append(" KB, Bus: ");
                push_decimal(&mut s, self.num_bus_bits);
                s.append(" bits ");
                match &self.adreno_data {
                    Some(a) => s.append(a.spec_confidence.as_str()),
                    None => {},
                }
            },
            GpuVendor::Unknown => {
                s.append("Unknown GPU: ");
                s.append(self.gpu_name.as_str());
            },
        }
        assert(s@ =~= self.summary());
        s
    }
}

/// Partial products of natural numbers are bounded by the whole product.
proof fn lemma_product_bounds(a: int, b: int, c: int)
    requires
        a >= 0,
        b >= 0,
        c >= 0,
    ensures
        a * b <= a * b * c * 2 || c == 0,
        a * b * c <= a * b * c * 2,
        a * b <= a * b * c || c == 0,
        a * b >= 0,
        a * b * c >= 0,
{
    assert(a * b >= 0) by (nonlinear_arith)
        requires
            a >= 0,
            b >= 0,
    ;
    assert(a * b * c >= 0) by (nonlinear_arith)
        requires
            a * b >= 0,
            c >= 0,
    ;
    assert(a * b <= a * b * c || c == 0) by (nonlinear_arith)
        requires
            a * b >= 0,
            c >= 0,
    ;
    assert(a * b * c <= a * b * c * 2) by (nonlinear_arith)
        requires
            a * b * c >= 0,
    ;
}

/// Builder for Mali descriptors.
#[derive(Debug)]
pub struct GpuInfoBuilder {
    pub gpu_name: Option<String>,
    pub architecture: Option<String>,
    pub architecture_major: Option<u8>,
    pub architecture_minor: Option<u8>,
    pub num_shader_cores: Option<u32>,
    pub num_l2_bytes: Option<u64>,
    pub num_bus_bits: Option<u64>,
    pub gpu_id: Option<u32>,
    pub raw_gpu_id: Option<u64>,
    pub shader_core_mask: Option<u64>,
    pub num_l2_slices: Option<u64>,
    pub num_exec_engines: Option<u32>,
    pub num_fp32_fmas_per_core: Option<u32>,
    pub num_fp16_fmas_per_core: Option<u32>,
    pub num_texels_per_core: Option<u32>,
    pub num_pixels_per_core: Option<u32>,
}

impl GpuInfoBuilder {
    /// The builder with nothing set.
    pub open spec fn empty() -> GpuInfoBuilder {
        GpuInfoBuilder {
            gpu_name: None,
            architecture: None,
            architecture_major: None,
            architecture_minor: None,
            num_shader_cores: None,
            num_l2_bytes: None,
            num_bus_bits: None,
            gpu_id: None,
            raw_gpu_id: None,
            shader_core_mask: None,
            num_l2_slices: None,
            num_exec_engines: None,
            num_fp32_fmas_per_core: None,
            num_fp16_fmas_per_core: None,
            num_texels_per_core: None,
            num_pixels_per_core: None,
        }
    }

    /// A builder with nothing set.
    pub fn new() -> (r: GpuInfoBuilder)
        ensures
            r == GpuInfoBuilder::empty(),
    {
        GpuInfoBuilder {
            gpu_name: None,
            architecture: None,
            architecture_major: None,
            architecture_minor: None,
            num_shader_cores: None,
            num_l2_bytes: None,
            num_bus_bits: None,
            gpu_id: None,
            raw_gpu_id: None,
            shader_core_mask: None,
            num_l2_slices: None,
            num_exec_engines: None,
            num_fp32_fmas_per_core: None,
            num_fp16_fmas_per_core: None,
            num_texels_per_core: None,
            num_pixels_per_core: None,
        }
    }

    pub fn gpu_name(self, name: &str) -> (r: Self)
        ensures
            r.gpu_name matches Some(n) && n@ == name@,
            r == (GpuInfoBuilder { gpu_name: r.gpu_name, ..self }),
    {
        GpuInfoBuilder { gpu_name: Some(String::from_str(name)), ..self }
    }

    pub fn architecture(self, arch: &str) -> (r: Self)
        ensures
            r.architecture matches Some(a) && a@ == arch@,
            r == (GpuInfoBuilder { architecture: r.architecture, ..self }),
    {
        GpuInfoBuilder { architecture: Some(String::from_str(arch)), ..self }
    }

    pub fn architecture_major(self, major: u8) -> (r: Self)
        ensures
            r == (GpuInfoBuilder { architecture_major: Some(major), ..self }),
    {
        GpuInfoBuilder { architecture_major: Some(major), ..self }
    }

    pub fn architecture_minor(self, minor: u8) -> (r: Self)
        ensures
            r == (GpuInfoBuilder { architecture_minor: Some(minor), ..self }),
    {
        GpuInfoBuilder { architecture_minor: Some(minor), ..self }
    }

    pub fn gpu_id(self, id: u32) -> (r: Self)
        ensures
            r == (GpuInfoBuilder { gpu_id: Some(id), ..self }),
    {
        GpuInfoBuilder { gpu_id: Some(id), ..self }
    }

    pub fn raw_gpu_id(self, id: u64) -> (r: Self)
        ensures
            r == (GpuInfoBuilder { raw_gpu_id: Some(id), ..self }),
    {
        GpuInfoBuilder { raw_gpu_id: Some(id), ..self }
    }

    pub fn num_shader_cores(self, cores: u32) -> (r: Self)
        ensures
            r == (GpuInfoBuilder { num_shader_cores: Some(cores), ..self }),
    {
        GpuInfoBuilder { num_shader_cores: Some(cores), ..self }
    }

    pub fn shader_core_mask(self, mask: u64) -> (r: Self)
        ensures
            r == (GpuInfoBuilder { shader_core_mask: Some(mask), ..self }),
    {
        GpuInfoBuilder { shader_core_mask: Some(mask), ..self }
    }

    pub fn num_l2_slices(self, slices: u64) -> (r: Self)
        ensures
            r == (GpuInfoBuilder { num_l2_slices: Some(slices), ..self }),
    {
        GpuInfoBuilder { num_l2_slices: Some(slices), ..self }
    }

    pub fn num_l2_bytes(self, bytes: u64) -> (r: Self)
        ensures
            r == (GpuInfoBuilder { num_l2_bytes: Some(bytes), ..self }),
    {
        GpuInfoBuilder { num_l2_bytes: Some(bytes), ..self }
    }

    pub fn num_bus_bits(self, bits: u64) -> (r: Self)
        ensures
            r == (GpuInfoBuilder { num_bus_bits: Some(bits), ..self }),
    {
        GpuInfoBuilder { num_bus_bits: Some(bits), ..self }
    }

    pub fn num_exec_engines(self, engines: u32) -> (r: Self)
        ensures
            r == (GpuInfoBuilder { num_exec_engines: Some(engines), ..self }),
    {
        GpuInfoBuilder { num_exec_engines: Some(engines), ..self }
    }

    pub fn num_fp32_fmas_per_core(self, fmas: u32) -> (r: Self)
        ensures
            r == (GpuInfoBuilder { num_fp32_fmas_per_core: Some(fmas), ..self }),
    {
        GpuInfoBuilder { num_fp32_fmas_per_core: Some(fmas), ..self }
    }

    pub fn num_fp16_fmas_per_core(self, fmas: u32) -> (r: Self)
        ensures
            r == (GpuInfoBuilder { num_fp16_fmas_per_core: Some(fmas), ..self }),
    {
        GpuInfoBuilder { num_fp16_fmas_per_core: Some(fmas), ..self }
    }

    pub fn num_texels_per_core(self, texels: u32) -> (r: Self)
        ensures
            r == (GpuInfoBuilder { num_texels_per_core: Some(texels), ..self }),
    {
        GpuInfoBuilder { num_texels_per_core: Some(texels), ..self }
    }

    pub fn num_pixels_per_core(self, pixels: u32) -> (r: Self)
        ensures
            r == (GpuInfoBuilder { num_pixels_per_core: Some(pixels), ..self }),
    {
        GpuInfoBuilder { num_pixels_per_core: Some(pixels), ..self }
    }

    /// The message of the first required field that is missing, checked in
    /// the order GPU id, raw GPU id, name, architecture, major, minor, core
    /// count, L2 size.
    pub open spec fn missing(&self) -> Option<&'static str> {
        if self.gpu_id is None {
            Some("GPU ID required")
        } else if self.raw_gpu_id is None {
            Some("Raw GPU ID required")
        } else if self.gpu_name is None {
            Some("GPU name required")
        } else if self.architecture is None {
            Some("Architecture required")
        } else if self.architecture_major is None {
            Some("Architecture major required")
        } else if self.architecture_minor is None {
            Some("Architecture minor required")
        } else if self.num_shader_cores is None {
            Some("Number of shader cores required")
        } else if self.num_l2_bytes is None {
            Some("L2 cache size required")
        } else {
            None
        }
    }

    /// Builds a Mali descriptor. Unset optional fields are zero; a missing
    /// required field is an error naming it.
    pub fn build(self) -> (r: Result<GpuInfo, &'static str>)
        ensures
            self.missing() matches Some(m) ==> r == Err::<GpuInfo, &'static str>(m),
            self.missing() is None ==> (r matches Ok(info) && {
                &&& info.vendor == GpuVendor::Mali
                &&& Some(info.gpu_name) == self.gpu_name
                &&& Some(info.architecture) == self.architecture
                &&& Some(info.architecture_major) == self.architecture_major
                &&& Some(info.architecture_minor) == self.architecture_minor
                &&& Some(info.num_shader_cores) == self.num_shader_cores
                &&& Some(info.num_l2_bytes) == self.num_l2_bytes
                &&& info.num_bus_bits == or_zero(self.num_bus_bits)
                &&& info.adreno_data is None
                &&& info.mali_data == Some(
                    (MaliData {
                        gpu_id: self.gpu_id.unwrap(),
                        raw_gpu_id: self.raw_gpu_id.unwrap(),
                        shader_core_mask: or_zero(self.shader_core_mask) as u64,
                        num_l2_slices: or_zero(self.num_l2_slices) as u64,
                        num_exec_engines: or_zero(self.num_exec_engines) as u32,
                        num_fp32_fmas_per_core: or_zero(self.num_fp32_fmas_per_core) as u32,
                        num_fp16_fmas_per_core: or_zero(self.num_fp16_fmas_per_core) as u32,
                        num_texels_per_core: or_zero(self.num_texels_per_core) as u32,
                        num_pixels_per_core: or_zero(self.num_pixels_per_core) as u32,
                    }),
                )
            }),
    {
        let gpu_id = match self.gpu_id {
            Some(v) => v,
            None => return Err("GPU ID required"),
        };
        let raw_gpu_id = match self.raw_gpu_id {
            Some(v) => v,
            None => return Err("Raw GPU ID required"),
        };
        let mali_data = MaliData {
            gpu_id,
            raw_gpu_id,
            shader_core_mask: unwrap_or_zero_u64(self.shader_core_mask),
            num_l2_slices: unwrap_or_zero_u64(self.num_l2_slices),
            num_exec_engines: unwrap_or_zero_u32(self.num_exec_engines),
            num_fp32_fmas_per_core: unwrap_or_zero_u32(self.num_fp32_fmas_per_core),
            num_fp16_fmas_per_core: unwrap_or_zero_u32(self.num_fp16_fmas_per_core),
            num_texels_per_core: unwrap_or_zero_u32(self.num_texels_per_core),
            num_pixels_per_core: unwrap_or_zero_u32(self.num_pixels_per_core),
        };
        let gpu_name = match self.gpu_name {
            Some(v) => v,
            None => return Err("GPU name required"),
        };
        let architecture = match self.architecture {
            Some(v) => v,
            None => return Err("Architecture required"),
        };
        let architecture_major = match self.architecture_major {
            Some(v) => v,
            None => return Err("Architecture major required"),
        };
        let architecture_minor = match self.architecture_minor {
            Some(v) => v,
            None => return Err("Architecture minor required"),
        };
        let num_shader_cores = match self.num_shader_cores {
            Some(v) => v,
            None => return Err("Number of shader cores required"),
        };
        let num_l2_bytes = match self.num_l2_bytes {
            Some(v) => v,
            None => return Err("L2 cache size required"),
        };
        Ok(GpuInfo {
            vendor: GpuVendor::Mali,
            gpu_name,
            architecture,
            architecture_major,
            architecture_minor,
            num_shader_cores,
            num_l2_bytes,
            num_bus_bits: unwrap_or_zero_u64(self.num_bus_bits),
            mali_data: Some(mali_data),
            adreno_data: None,
        })
    }
}

/// The value of an optional integer, zero when absent.
pub open spec fn or_zero<T: Integer>(v: Option<T>) -> int {
    match v {
        Some(x) => x as int,
        None => 0,
    }
}

fn unwrap_or_zero_u64(v: Option<u64>) -> (r: u64)
    ensures
        r == or_zero(v),
{
    match v {
        Some(x) => x,
        None => 0,
    }
}

fn unwrap_or_zero_u32(v: Option<u32>) -> (r: u32)
    ensures
        r == or_zero(v),
{
    match v {
        Some(x) => x,
        None => 0,
    }
}

} // verus!
