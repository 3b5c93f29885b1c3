use dustbox::cpu::Flags;

#[test]
fn can_pack_unpack_flags() {
    let mut flags = Flags::new();
    flags.set_u16(0xFFFF);
    assert_eq!(0x7FD7, flags.u16());
}

#[test]
fn packing_keeps_the_reserved_bit_set() {
    let flags = Flags::new();
    assert_eq!(0x0002, flags.u16());
    let mut flags = Flags::new();
    flags.set_u16(0x0000);
    assert_eq!(0x0002, flags.u16());
}

#[test]
fn unpacking_then_packing_keeps_each_flag() {
    let mut flags = Flags::new();
    flags.set_u16(0x0001 | 0x0040 | 0x0800);
    assert!(flags.carry);
    assert!(flags.zero);
    assert!(flags.overflow);
    assert!(!flags.sign);
    assert_eq!(0x0843, flags.u16());
}
