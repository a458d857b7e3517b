//! The KGSL device-info record as the driver fills it, and its byte image.
use vstd::prelude::*;
use vstd::bytes::{spec_u32_to_le_bytes, u32_to_le_bytes};

verus! {

/// KGSL property types.
#[derive(Debug, Clone, Copy, PartialEq, Eq, Structural)]
pub enum KgslPropertyType {
    DeviceInfo,
}

impl KgslPropertyType {
    /// The number the driver knows the property by.
    pub fn code(self) -> (r: u32)
        ensures
            r == 1,
    {
        match self {
            KgslPropertyType::DeviceInfo => 1,
        }
    }
}

/// The KGSL device-info record, field by field as the driver lays it out.
#[derive(Debug, Clone, Copy, PartialEq, Eq, Structural)]
pub struct KgslDeviceInfo {
    pub device_id: u32,
    pub chip_id: u32,
    pub mmu_enabled: u32,
    pub gmem_gpubaseaddr: u32,
    pub gmem_sizebytes: u32,
    pub unknown1: u32,
    pub unknown2: u32,
    pub gpu_model: u32,
}

/// Size in bytes of the full device-info record.
pub const KGSL_DEVICE_INFO_SIZE: usize = 32;

impl KgslDeviceInfo {
    /// The record with every field zero.
    pub open spec fn zeroed() -> KgslDeviceInfo {
        KgslDeviceInfo {
            device_id: 0,
            chip_id: 0,
            mmu_enabled: 0,
            gmem_gpubaseaddr: 0,
            gmem_sizebytes: 0,
            unknown1: 0,
            unknown2: 0,
            gpu_model: 0,
        }
    }

    /// The record's fields in layout order.
    pub open spec fn fields(&self) -> Seq<u32> {
        seq![
            self.device_id,
            self.chip_id,
            self.mmu_enabled,
            self.gmem_gpubaseaddr,
            self.gmem_sizebytes,
            self.unknown1,
            self.unknown2,
            self.gpu_model,
        ]
    }

    /// The little-endian byte image of the first `n` fields.
    pub open spec fn image(&self, n: int) -> Seq<u8>
        decreases n,
    {
        if n <= 0 {
            Seq::empty()
        } else {
            self.image(n - 1) + spec_u32_to_le_bytes(self.fields()[n - 1])
        }
    }

    /// The record as the driver writes it into memory on a little-endian
    /// host: each field as four little-endian bytes, in layout order.
    pub fn to_bytes(&self) -> (r: Vec<u8>)
        ensures
            r@ == self.image(8),
    {
        let fields: [u32; 8] = [
            self.device_id,
            self.chip_id,
            self.mmu_enabled,
            self.gmem_gpubaseaddr,
            self.gmem_sizebytes,
            self.unknown1,
            self.unknown2,
            self.gpu_model,
        ];
        let mut r: Vec<u8> = Vec::new();
        let mut i: usize = 0;
        while i < 8
            invariant
                i <= 8,
                fields@ == self.fields(),
                r@ == self.image(i as int),
            decreases 8 - i,
        {
            let mut b = u32_to_le_bytes(fields[i]);
            r.append(&mut b);
            i = i + 1;
        }
        r
    }
}

impl Default for KgslDeviceInfo {
    fn default() -> (r: Self)
        ensures
            r == KgslDeviceInfo::zeroed(),
    {
        KgslDeviceInfo {
            device_id: 0,
            chip_id: 0,
            mmu_enabled: 0,
            gmem_gpubaseaddr: 0,
            gmem_sizebytes: 0,
            unknown1: 0,
            unknown2: 0,
            gpu_model: 0,
        }
    }
}

} // verus!
