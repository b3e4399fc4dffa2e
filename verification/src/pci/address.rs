//! The address of a PCI configuration cycle.

use vstd::prelude::*;

verus! {

/// The target of a configuration cycle: bus, device, function and register, in
/// this order.
///
/// The register is the number of a 32-bit word of the function's configuration
/// space: accesses are aligned, so the two low address bits are never stored.
#[derive(Debug, Copy, Clone, PartialEq, Eq, Structural)]
pub struct Address(pub u8, pub u8, pub u8, pub u8);

impl Address {
    /// What the value `value` of the address port selects.
    ///
    /// Bit 31 switches the mechanism on; with it clear nothing is selected.
    /// With it set, bits 16 to 22 are the bus, bits 11 to 14 the device, bits 8
    /// and 9 the function, and bits 0 to 5 the register.
    pub open spec fn decoded(value: u32) -> Option<Address> {
        if value & 0x8000_0000 != 0 {
            Some(
                Address(
                    ((value >> 16) & 0x7f) as u8,
                    ((value >> 11) & 0xf) as u8,
                    ((value >> 8) & 0x3) as u8,
                    (value & 0x3f) as u8,
                ),
            )
        } else {
            None
        }
    }

    /// Decodes a value of the address port.
    pub fn from(value: u32) -> (address: Option<Address>)
        ensures
            address == Address::decoded(value),
    {
        let enabled: u32 = value >> 31;
        let bus: u32 = (value >> 16) & 0b1111111;
        let device: u32 = (value >> 11) & 0b1111;
        let function: u32 = (value >> 8) & 0b11;
        let register: u32 = value & 0b111111;
        assert(bus < 0x100 && device < 0x100 && function < 0x100 && register < 0x100) by {
            assert((value >> 16) & 0b1111111 < 0x100) by (bit_vector);
            assert((value >> 11) & 0b1111 < 0x100) by (bit_vector);
            assert((value >> 8) & 0b11 < 0x100) by (bit_vector);
            assert(value & 0b111111 < 0x100) by (bit_vector);
        }
        assert((value >> 31 > 0) == (value & 0x8000_0000 != 0)) by (bit_vector);
        if enabled > 0 {
            Some(Address(bus as u8, device as u8, function as u8, register as u8))
        } else {
            None
        }
    }

    /// The bus that the address names.
    pub fn bridge(&self) -> (bus: u8)
        ensures
            bus == self.0,
    {
        self.0
    }

    /// The device on that bus.
    pub fn device(&self) -> (device: u8)
        ensures
            device == self.1,
    {
        self.1
    }

    /// The function of that device.
    pub fn function(&self) -> (function: u8)
        ensures
            function == self.2,
    {
        self.2
    }

    /// The register of that function.
    pub fn register(&self) -> (register: u8)
        ensures
            register == self.3,
    {
        self.3
    }
}

} // verus!
