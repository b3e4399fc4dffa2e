use vmm_core::pci::Address;

#[test]
fn address_with_enable_bit_clear_is_none() {
    assert_eq!(Address::from(0), None);
    assert_eq!(Address::from(0x7fff_ffff), None);
    assert_eq!(Address::from(0x0001_0800), None);
    assert_eq!(Address::from(1), None);
}

#[test]
fn address_fields_are_decoded() {
    assert_eq!(Address::from(0x8000_0000), Some(Address(0, 0, 0, 0)));
    assert_eq!(Address::from(0xffff_ffff), Some(Address(0x7f, 0xf, 0x3, 0x3f)));
    assert_eq!(Address::from(0x8001_0a04), Some(Address(1, 1, 2, 4)));
    assert_eq!(Address::from(0x807f_0000), Some(Address(0x7f, 0, 0, 0)));
    assert_eq!(Address::from(0x8000_7800), Some(Address(0, 0xf, 0, 0)));
    assert_eq!(Address::from(0x8000_0300), Some(Address(0, 0, 3, 0)));
    assert_eq!(Address::from(0x8000_003f), Some(Address(0, 0, 0, 0x3f)));
}

#[test]
fn address_bits_outside_the_fields_are_ignored() {
    // Bits 23 to 30, bit 15, bits 6, 7 and 10 belong to no field.
    assert_eq!(Address::from(0xff80_84c0), Some(Address(0, 0, 0, 0)));
}

#[test]
fn address_parts_are_handed_out() {
    let address = Address(3, 9, 1, 0x10);
    assert_eq!(address.bridge(), 3);
    assert_eq!(address.device(), 9);
    assert_eq!(address.function(), 1);
    assert_eq!(address.register(), 0x10);
}
