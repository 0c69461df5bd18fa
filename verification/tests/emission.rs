use ral_gen::model::{AccessKind, AccessProperties, BitRange, FieldDef, RegisterDef, ResetValue};

fn field(name: &str, description: Option<&str>, offset: u32, width: u32) -> FieldDef {
    FieldDef {
        name: name.to_string(),
        description: description.map(|d| d.to_string()),
        bit_range: BitRange { offset, width },
    }
}

fn register(access_kind: AccessKind, bit_width: u32, fields: Vec<FieldDef>) -> RegisterDef {
    RegisterDef {
        name: "CTRL".to_string(),
        description: Some("Control".to_string()),
        properties: AccessProperties { access_kind, bit_width },
        fields,
    }
}

#[test]
fn field_without_description() {
    assert_eq!(field("EN", None, 4, 3).generate_code(), EXPECTED_EN);
}

#[test]
fn field_with_description_of_two_lines() {
    let code = field("MODE", Some("Mode\r\nSecond line\n"), 28, 4).generate_code();
    assert_eq!(code, EXPECTED_MODE);
}

#[test]
fn field_of_sixty_four_bits_has_full_mask() {
    let code = field("ALL", None, 0, 64).generate_code();
    assert_eq!(code, EXPECTED_ALL);
    assert!(code.contains("pub const mask: u64 = 0xffffffffffffffff << offset;"));
}

#[test]
fn register_module_joins_its_fields() {
    let code = register(
        AccessKind::ReadWrite,
        32,
        vec![field("EN", None, 4, 3), field("ALL", None, 0, 64)],
    )
    .module_code();
    assert_eq!(code, EXPECTED_REGISTER);
}

#[test]
fn register_module_without_fields() {
    let code = register(AccessKind::ReadOnly, 8, vec![]).module_code();
    assert_eq!(code, "/// Control\npub mod CTRL {\n}\n");
}

#[test]
fn block_entry_names_wrapper_and_integer() {
    assert_eq!(
        register(AccessKind::ReadOnly, 8, vec![]).block_entry(),
        "    /// Control\n    pub CTRL: RORegister<u8>,\n"
    );
    assert_eq!(
        register(AccessKind::WriteOnly, 16, vec![]).block_entry(),
        "    /// Control\n    pub CTRL: WORegister<u16>,\n"
    );
    assert_eq!(
        register(AccessKind::ReadWrite, 64, vec![]).block_entry(),
        "    /// Control\n    pub CTRL: RWRegister<u64>,\n"
    );
}

#[test]
fn reset_entry_names_plain_integer() {
    assert_eq!(register(AccessKind::ReadWrite, 32, vec![]).reset_entry(), "    pub CTRL: u32,");
}

#[test]
fn reset_line_writes_value_in_hexadecimal() {
    let reset = ResetValue { register_name: "CTRL".to_string(), value: 0xdead_beef };
    assert_eq!(reset.table_line(), "        CTRL: 0xdeadbeef,");
}

#[test]
fn width_between_standard_widths_takes_the_wider_type() {
    let wide = AccessProperties { access_kind: AccessKind::ReadWrite, bit_width: 24 };
    assert_eq!(wide.size_type_name(), "u32");
    assert_eq!(wide.access_type_name(), "RWRegister");
    let narrow = AccessProperties { access_kind: AccessKind::ReadOnly, bit_width: 1 };
    assert_eq!(narrow.size_type_name(), "u8");
    assert_eq!(narrow.access_type_name(), "RORegister");
    let widest = AccessProperties { access_kind: AccessKind::WriteOnly, bit_width: 64 };
    assert_eq!(widest.size_type_name(), "u64");
    assert_eq!(widest.access_type_name(), "WORegister");
}

#[test]
fn mask_is_low_bits_shifted_to_the_offset() {
    assert_eq!(BitRange { offset: 0, width: 1 }.mask(), 0x1);
    assert_eq!(BitRange { offset: 4, width: 4 }.mask(), 0xf0);
    assert_eq!(BitRange { offset: 31, width: 1 }.mask(), 0x8000_0000);
    assert_eq!(BitRange { offset: 0, width: 32 }.mask(), 0xffff_ffff);
    assert_eq!(BitRange { offset: 32, width: 32 }.mask(), 0xffff_ffff_0000_0000);
    assert_eq!(BitRange { offset: 0, width: 64 }.mask(), u64::MAX);
    assert_eq!(BitRange { offset: 63, width: 1 }.mask(), 1 << 63);
    assert_eq!(BitRange { offset: 64, width: 0 }.mask(), 0);
    assert_eq!(BitRange { offset: 7, width: 0 }.mask(), 0);
}

#[test]
fn mask_equals_the_shift_formula_for_every_field_of_a_word() {
    for offset in 0..32u32 {
        for width in 0..=(32 - offset) {
            let expected = ((1u64 << width) - 1) << offset;
            assert_eq!(BitRange { offset, width }.mask(), expected);
        }
    }
}

#[test]
fn unshifted_mask_sets_the_low_bits() {
    assert_eq!(BitRange { offset: 9, width: 0 }.unshifted_mask(), 0);
    assert_eq!(BitRange { offset: 9, width: 1 }.unshifted_mask(), 1);
    assert_eq!(BitRange { offset: 9, width: 32 }.unshifted_mask(), 0xffff_ffff);
    assert_eq!(BitRange { offset: 9, width: 63 }.unshifted_mask(), u64::MAX >> 1);
    assert_eq!(BitRange { offset: 9, width: 64 }.unshifted_mask(), u64::MAX);
    assert_eq!(BitRange { offset: 9, width: 200 }.unshifted_mask(), u64::MAX);
}

#[test]
fn mask_of_a_field_within_the_low_word_is_declared_in_32_bits() {
    assert_eq!(field("LOW", None, 0, 32).generate_code(), EXPECTED_LOW_WORD);
    assert_eq!(field("TOP", None, 31, 1).generate_code(), EXPECTED_BIT_31);
    assert!(field("LOW", None, 0, 32)
        .generate_code()
        .contains("pub const mask: u32 = 0xffffffff << offset;"));
    assert!(field("HALF", None, 16, 16)
        .generate_code()
        .contains("pub const mask: u32 = 0xffff << offset;"));
}

#[test]
fn mask_of_a_field_above_bit_31_is_declared_in_64_bits() {
    assert_eq!(field("HIGH", None, 32, 1).generate_code(), EXPECTED_BIT_32);
    assert_eq!(field("ACROSS", Some("Both words"), 31, 2).generate_code(), EXPECTED_ACROSS);
    assert!(field("HIGH", None, 32, 1)
        .generate_code()
        .contains("pub const mask: u64 = 0x1 << offset;"));
    assert!(field("UPPER", None, 32, 32)
        .generate_code()
        .contains("pub const mask: u64 = 0xffffffff << offset;"));
    assert!(field("LAST", None, 60, 4)
        .generate_code()
        .contains("pub const mask: u64 = 0xf << offset;"));
}

#[test]
fn declared_type_holds_every_mask_within_64_bits() {
    for offset in 0..64u32 {
        for width in 1..=(64 - offset) {
            let range = BitRange { offset, width };
            let mask = range.mask();
            match range.mask_type_name() {
                "u32" => assert!(mask <= u64::from(u32::MAX)),
                "u64" => assert!(offset + width > 32),
                other => panic!("unknown type {}", other),
            }
        }
    }
}

const EXPECTED_EN: &str = "    pub mod EN {
        /// Offset (4 bits)
        pub const offset: u32 = 4;
    
        /// Mask (3 bit: 0x7 << 4)
        pub const mask: u32 = 0x7 << offset;
    
        /// Read-only values (empty)
        pub mod R {}
        /// Write-only values (empty)
        pub mod W {}
        /// Read-write values (empty)
        pub mod RW {}
    
    }";

const EXPECTED_MODE: &str = "    /// Mode
    /// Second line
    pub mod MODE {
        /// Offset (28 bits)
        pub const offset: u32 = 28;
    
        /// Mask (4 bit: 0xf << 28)
        pub const mask: u32 = 0xf << offset;
    
        /// Read-only values (empty)
        pub mod R {}
        /// Write-only values (empty)
        pub mod W {}
        /// Read-write values (empty)
        pub mod RW {}
    
    }";

const EXPECTED_ALL: &str = "    pub mod ALL {
        /// Offset (0 bits)
        pub const offset: u32 = 0;
    
        /// Mask (64 bit: 0xffffffffffffffff << 0)
        pub const mask: u64 = 0xffffffffffffffff << offset;
    
        /// Read-only values (empty)
        pub mod R {}
        /// Write-only values (empty)
        pub mod W {}
        /// Read-write values (empty)
        pub mod RW {}
    
    }";

const EXPECTED_REGISTER: &str = "/// Control
pub mod CTRL {
    pub mod EN {
        /// Offset (4 bits)
        pub const offset: u32 = 4;
    
        /// Mask (3 bit: 0x7 << 4)
        pub const mask: u32 = 0x7 << offset;
    
        /// Read-only values (empty)
        pub mod R {}
        /// Write-only values (empty)
        pub mod W {}
        /// Read-write values (empty)
        pub mod RW {}
    
    }
    pub mod ALL {
        /// Offset (0 bits)
        pub const offset: u32 = 0;
    
        /// Mask (64 bit: 0xffffffffffffffff << 0)
        pub const mask: u64 = 0xffffffffffffffff << offset;
    
        /// Read-only values (empty)
        pub mod R {}
        /// Write-only values (empty)
        pub mod W {}
        /// Read-write values (empty)
        pub mod RW {}
    
    }}
";

const EXPECTED_LOW_WORD: &str = "    pub mod LOW {
        /// Offset (0 bits)
        pub const offset: u32 = 0;
    
        /// Mask (32 bit: 0xffffffff << 0)
        pub const mask: u32 = 0xffffffff << offset;
    
        /// Read-only values (empty)
        pub mod R {}
        /// Write-only values (empty)
        pub mod W {}
        /// Read-write values (empty)
        pub mod RW {}
    
    }";

const EXPECTED_BIT_31: &str = "    pub mod TOP {
        /// Offset (31 bits)
        pub const offset: u32 = 31;
    
        /// Mask (1 bit: 0x1 << 31)
        pub const mask: u32 = 0x1 << offset;
    
        /// Read-only values (empty)
        pub mod R {}
        /// Write-only values (empty)
        pub mod W {}
        /// Read-write values (empty)
        pub mod RW {}
    
    }";

const EXPECTED_BIT_32: &str = "    pub mod HIGH {
        /// Offset (32 bits)
        pub const offset: u32 = 32;
    
        /// Mask (1 bit: 0x1 << 32)
        pub const mask: u64 = 0x1 << offset;
    
        /// Read-only values (empty)
        pub mod R {}
        /// Write-only values (empty)
        pub mod W {}
        /// Read-write values (empty)
        pub mod RW {}
    
    }";

const EXPECTED_ACROSS: &str = "    /// Both words
    pub mod ACROSS {
        /// Offset (31 bits)
        pub const offset: u32 = 31;
    
        /// Mask (2 bit: 0x3 << 31)
        pub const mask: u64 = 0x3 << offset;
    
        /// Read-only values (empty)
        pub mod R {}
        /// Write-only values (empty)
        pub mod W {}
        /// Read-write values (empty)
        pub mod RW {}
    
    }";
