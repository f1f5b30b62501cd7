use mov_emu::CPURegisters;
use mov_emu::RegisterIdentifier16Bit;
use mov_emu::RegisterIdentifier32Bit;
use mov_emu::RegisterIdentifier64Bit;
use mov_emu::RegisterIdentifier8Bit;

fn identifiers_64() -> Vec<RegisterIdentifier64Bit> {
    vec![
        RegisterIdentifier64Bit::RAX,
        RegisterIdentifier64Bit::RBX,
        RegisterIdentifier64Bit::RCX,
        RegisterIdentifier64Bit::RSP,
        RegisterIdentifier64Bit::RBP,
        RegisterIdentifier64Bit::RDI,
        RegisterIdentifier64Bit::RSI,
        RegisterIdentifier64Bit::RDX,
    ]
}

fn identifiers_32() -> Vec<RegisterIdentifier32Bit> {
    vec![
        RegisterIdentifier32Bit::EAX,
        RegisterIdentifier32Bit::EBX,
        RegisterIdentifier32Bit::ECX,
        RegisterIdentifier32Bit::ESP,
        RegisterIdentifier32Bit::EBP,
        RegisterIdentifier32Bit::EDI,
        RegisterIdentifier32Bit::ESI,
        RegisterIdentifier32Bit::EDX,
    ]
}

fn identifiers_16() -> Vec<RegisterIdentifier16Bit> {
    vec![
        RegisterIdentifier16Bit::AX,
        RegisterIdentifier16Bit::BX,
        RegisterIdentifier16Bit::CX,
        RegisterIdentifier16Bit::SP,
        RegisterIdentifier16Bit::BP,
        RegisterIdentifier16Bit::DI,
        RegisterIdentifier16Bit::SI,
        RegisterIdentifier16Bit::DX,
    ]
}

fn identifiers_8() -> Vec<RegisterIdentifier8Bit> {
    vec![
        RegisterIdentifier8Bit::AH,
        RegisterIdentifier8Bit::AL,
        RegisterIdentifier8Bit::BH,
        RegisterIdentifier8Bit::BL,
        RegisterIdentifier8Bit::CH,
        RegisterIdentifier8Bit::CL,
        RegisterIdentifier8Bit::SPL,
        RegisterIdentifier8Bit::BPL,
        RegisterIdentifier8Bit::DIL,
        RegisterIdentifier8Bit::SIL,
        RegisterIdentifier8Bit::DH,
        RegisterIdentifier8Bit::DL,
    ]
}

#[test]
fn new_register_file_is_zeroed() {
    let regs = CPURegisters::new();
    for id in identifiers_64() {
        assert_eq!(regs.get_64(id), 0);
    }
    for id in identifiers_32() {
        assert_eq!(regs.get_32(id), 0);
    }
    for id in identifiers_16() {
        assert_eq!(regs.get_16(id), 0);
    }
    for id in identifiers_8() {
        assert_eq!(regs.get_8(id), 0);
    }
}

#[test]
fn round_trip_64() {
    let mut regs = CPURegisters::new();
    for (i, id) in identifiers_64().into_iter().enumerate() {
        let v = 0x0123_4567_89AB_CDEF_u64.wrapping_mul(i as u64 + 1);
        regs.set_64(id, v);
        assert_eq!(regs.get_64(id), v);
    }
}

#[test]
fn round_trip_32() {
    let mut regs = CPURegisters::new();
    for (i, id) in identifiers_32().into_iter().enumerate() {
        let v = 0x89AB_CDEF_u32.wrapping_mul(i as u32 + 1);
        regs.set_32(id, v);
        assert_eq!(regs.get_32(id), v);
    }
}

#[test]
fn round_trip_16() {
    let mut regs = CPURegisters::new();
    for (i, id) in identifiers_16().into_iter().enumerate() {
        let v = 0xCDEF_u16.wrapping_mul(i as u16 + 1);
        regs.set_16(id, v);
        assert_eq!(regs.get_16(id), v);
    }
}

#[test]
fn round_trip_8() {
    let mut regs = CPURegisters::new();
    for (i, id) in identifiers_8().into_iter().enumerate() {
        let v = 0x3B_u8.wrapping_mul(i as u8 + 1);
        regs.set_8(id, v);
        assert_eq!(regs.get_8(id), v);
    }
}

#[test]
fn cells_are_independent() {
    let mut regs = CPURegisters::new();
    let ids = identifiers_64();
    for (i, id) in ids.iter().enumerate() {
        regs.set_64(*id, i as u64 + 1);
    }
    for (i, id) in ids.iter().enumerate() {
        assert_eq!(regs.get_64(*id), i as u64 + 1);
    }
}

#[test]
fn narrow_writes_preserve_bits_outside_their_range() {
    let mut regs = CPURegisters::new();
    regs.set_64(RegisterIdentifier64Bit::RBX, 0xFFFF_FFFF_FFFF_FFFF);

    regs.set_32(RegisterIdentifier32Bit::EBX, 0);
    assert_eq!(regs.get_64(RegisterIdentifier64Bit::RBX), 0xFFFF_FFFF_0000_0000);

    regs.set_64(RegisterIdentifier64Bit::RBX, 0xFFFF_FFFF_FFFF_FFFF);
    regs.set_16(RegisterIdentifier16Bit::BX, 0);
    assert_eq!(regs.get_64(RegisterIdentifier64Bit::RBX), 0xFFFF_FFFF_FFFF_0000);

    regs.set_64(RegisterIdentifier64Bit::RBX, 0xFFFF_FFFF_FFFF_FFFF);
    regs.set_8(RegisterIdentifier8Bit::BH, 0);
    assert_eq!(regs.get_64(RegisterIdentifier64Bit::RBX), 0xFFFF_FFFF_FFFF_00FF);

    regs.set_64(RegisterIdentifier64Bit::RBX, 0xFFFF_FFFF_FFFF_FFFF);
    regs.set_8(RegisterIdentifier8Bit::BL, 0);
    assert_eq!(regs.get_64(RegisterIdentifier64Bit::RBX), 0xFFFF_FFFF_FFFF_FF00);
}

#[test]
fn narrow_writes_leave_other_cells_alone() {
    let mut regs = CPURegisters::new();
    regs.set_64(RegisterIdentifier64Bit::RCX, 0x5555_5555_5555_5555);
    regs.set_32(RegisterIdentifier32Bit::EAX, 0xFFFF_FFFF);
    regs.set_16(RegisterIdentifier16Bit::DX, 0xFFFF);
    regs.set_8(RegisterIdentifier8Bit::SIL, 0xFF);
    assert_eq!(regs.get_64(RegisterIdentifier64Bit::RCX), 0x5555_5555_5555_5555);
}

#[test]
fn high_and_low_byte_are_independent() {
    let pairs = vec![
        (
            RegisterIdentifier8Bit::AH,
            RegisterIdentifier8Bit::AL,
            RegisterIdentifier64Bit::RAX,
        ),
        (
            RegisterIdentifier8Bit::BH,
            RegisterIdentifier8Bit::BL,
            RegisterIdentifier64Bit::RBX,
        ),
        (
            RegisterIdentifier8Bit::CH,
            RegisterIdentifier8Bit::CL,
            RegisterIdentifier64Bit::RCX,
        ),
        (
            RegisterIdentifier8Bit::DH,
            RegisterIdentifier8Bit::DL,
            RegisterIdentifier64Bit::RDX,
        ),
    ];
    for (high, low, wide) in pairs {
        let mut regs = CPURegisters::new();
        regs.set_8(low, 0x34);
        regs.set_8(high, 0x12);
        assert_eq!(regs.get_8(low), 0x34);
        assert_eq!(regs.get_8(high), 0x12);
        regs.set_8(low, 0xAB);
        assert_eq!(regs.get_8(high), 0x12);
        assert_eq!(regs.get_8(low), 0xAB);
        assert_eq!(regs.get_64(wide), 0x12AB);
    }
}

#[test]
fn single_byte_aliases_occupy_bits_8_to_16() {
    let aliases = vec![
        (RegisterIdentifier8Bit::SPL, RegisterIdentifier64Bit::RSP),
        (RegisterIdentifier8Bit::BPL, RegisterIdentifier64Bit::RBP),
        (RegisterIdentifier8Bit::DIL, RegisterIdentifier64Bit::RDI),
        (RegisterIdentifier8Bit::SIL, RegisterIdentifier64Bit::RSI),
    ];
    for (byte, wide) in aliases {
        let mut regs = CPURegisters::new();
        regs.set_8(byte, 0xAB);
        assert_eq!(regs.get_64(wide), 0xAB00);
        assert_eq!(regs.get_8(byte), 0xAB);
    }
}

#[test]
fn wide_write_then_narrow_read() {
    let mut regs = CPURegisters::new();
    regs.set_64(RegisterIdentifier64Bit::RAX, 0x1122_3344_5566_7788);
    assert_eq!(regs.get_32(RegisterIdentifier32Bit::EAX), 0x5566_7788);
    assert_eq!(regs.get_16(RegisterIdentifier16Bit::AX), 0x7788);
    assert_eq!(regs.get_8(RegisterIdentifier8Bit::AL), 0x88);
    assert_eq!(regs.get_8(RegisterIdentifier8Bit::AH), 0x77);
}

#[test]
fn sixteen_bit_write_preserves_the_rest_of_the_cell() {
    let mut regs = CPURegisters::new();
    regs.set_64(RegisterIdentifier64Bit::RAX, 0x1122_3344_5566_7788);
    regs.set_16(RegisterIdentifier16Bit::AX, 0xAAAA);
    assert_eq!(regs.get_64(RegisterIdentifier64Bit::RAX), 0x1122_3344_5566_AAAA);
}

#[test]
fn low_byte_write_on_zeroed_file() {
    let mut regs = CPURegisters::new();
    regs.set_8(RegisterIdentifier8Bit::AL, 0xFF);
    assert_eq!(regs.get_64(RegisterIdentifier64Bit::RAX), 0x0000_0000_0000_00FF);
}

#[test]
fn high_byte_write_on_zeroed_file() {
    let mut regs = CPURegisters::new();
    regs.set_8(RegisterIdentifier8Bit::AH, 0xFF);
    assert_eq!(regs.get_64(RegisterIdentifier64Bit::RAX), 0x0000_0000_0000_FF00);
    assert_eq!(regs.get_8(RegisterIdentifier8Bit::AL), 0x00);
}

#[test]
fn thirty_two_bit_write_keeps_the_upper_half() {
    let mut regs = CPURegisters::new();
    regs.set_64(RegisterIdentifier64Bit::RAX, 0xDEAD_BEEF_0000_0000);
    regs.set_32(RegisterIdentifier32Bit::EAX, 0xFFFF_FFFF);
    assert_eq!(regs.get_64(RegisterIdentifier64Bit::RAX), 0xDEAD_BEEF_FFFF_FFFF);
}
