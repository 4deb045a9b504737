use vstd::prelude::*;
use crate::endian::Endian;

verus! {

/// The processor of a device.
#[derive(Clone, Debug, PartialEq, Eq)]
pub struct Cpu {
    /// Name of the processor.
    pub name: String,
    /// Hardware revision of the processor.
    pub revision: String,
    /// Byte order.
    pub endian: Endian,
    /// Whether a memory protection unit is present.
    pub mpu_present: bool,
    /// Whether a floating point unit is present.
    pub fpu_present: bool,
    /// Number of bits of an interrupt priority.
    pub nvic_priority_bits: u32,
    /// Whether the system tick timer is the vendor's own.
    pub has_vendor_systick: bool,
}

} // verus!
