use ral_gen::builder::{build, ModelError};
use ral_gen::config::{AddressSize, GeneratorConfig};
use ral_gen::generate::{emit_metadata, emit_model, generate_from_tree, wrap_each};
use ral_gen::instance::emit_instance;
use ral_gen::model::AccessKind;
use ral_gen::peripheral::emit_peripheral;
use ral_gen::tree::{DeviceTree, FieldNode, PeripheralNode, RegisterNode};

fn field(name: &str, description: Option<&str>, bit_offset: u32, bit_width: u32) -> FieldNode {
    FieldNode {
        name: name.to_string(),
        description: description.map(|d| d.to_string()),
        bit_offset,
        bit_width,
    }
}

fn register(
    name: &str,
    description: Option<&str>,
    address_offset: u32,
    size: Option<u32>,
    access: AccessKind,
    reset_value: u64,
    fields: Vec<FieldNode>,
) -> RegisterNode {
    RegisterNode {
        name: name.to_string(),
        description: description.map(|d| d.to_string()),
        address_offset,
        size,
        access,
        reset_value,
        fields,
    }
}

fn peripheral(
    name: &str,
    description: &str,
    base_address: u64,
    registers: Vec<RegisterNode>,
) -> PeripheralNode {
    PeripheralNode {
        name: name.to_string(),
        description: description.to_string(),
        base_address,
        registers,
    }
}

fn device(name: &str, peripherals: Vec<PeripheralNode>) -> DeviceTree {
    DeviceTree { name: name.to_string(), width: 32, peripherals }
}

fn gpio(name: &str, base_address: u64, reset_value: u64) -> PeripheralNode {
    peripheral(
        name,
        "General purpose I/O",
        base_address,
        vec![register(
            "ODR",
            Some("Output data register"),
            0xc,
            Some(32),
            AccessKind::ReadWrite,
            reset_value,
            vec![field("PIN0", Some("Output data bit 0"), 0, 1)],
        )],
    )
}

fn two_gpios() -> DeviceTree {
    device(
        "STM32F103",
        vec![gpio("GPIOA", 0x4001_0800, 0), gpio("GPIOB", 0x4001_0C00, 1)],
    )
}

#[test]
fn two_gpios_share_one_shape() {
    let model = build(&two_gpios()).unwrap();
    assert_eq!(model.shapes.len(), 1);
    assert_eq!(model.instances.len(), 2);
    assert_eq!(model.shapes[0].name, "GPIOA");
    assert_eq!(model.shapes[0].module_name, "gpioa");
    assert_eq!(model.instances[0].name, "GPIOA");
    assert_eq!(model.instances[0].module_name, "gpioa");
    assert_eq!(model.instances[0].shape, 0);
    assert_eq!(model.instances[0].peripheral_module, "gpioa");
    assert_eq!(model.instances[0].base_address, 0x4001_0800);
    assert_eq!(model.instances[1].name, "GPIOB");
    assert_eq!(model.instances[1].module_name, "gpiob");
    assert_eq!(model.instances[1].shape, 0);
    assert_eq!(model.instances[1].peripheral_module, "gpioa");
    assert_eq!(model.instances[1].base_address, 0x4001_0C00);
    assert_eq!(model.instances[1].reset_values[0].register_name, "ODR");
    assert_eq!(model.instances[1].reset_values[0].value, 1);
}

#[test]
fn shape_file_holds_block_and_field_constants() {
    let model = build(&two_gpios()).unwrap();
    let code = emit_peripheral(&model.shapes[0], &GeneratorConfig::default());
    assert_eq!(code, EXPECTED_SHAPE);
    assert!(code.contains("    pub ODR: RWRegister<u32>,\n"));
    assert!(code.contains("pub const offset: u32 = 0;"));
    assert!(code.contains("pub const mask: u32 = 0x1 << offset;"));
}

#[test]
fn instance_file_binds_each_instance_to_its_address() {
    let model = build(&two_gpios()).unwrap();
    let config = GeneratorConfig::default();
    assert_eq!(emit_instance(&model.instances[0], &config), EXPECTED_GPIOA);
    assert_eq!(emit_instance(&model.instances[1], &config), EXPECTED_GPIOB);
}

#[test]
fn instance_file_calls_the_configured_critical_section() {
    let model = build(&two_gpios()).unwrap();
    let config = GeneratorConfig::default().arch_crate("cortex_m");
    let code = emit_instance(&model.instances[0], &config);
    assert_eq!(code, EXPECTED_GPIOA.replace("crate::arch::interrupt", "cortex_m::interrupt"));
    assert_eq!(code.matches("cortex_m::interrupt::free(|_| unsafe {").count(), 2);
}

#[test]
fn handle_address_follows_the_address_size() {
    let model = build(&two_gpios()).unwrap();
    let config = GeneratorConfig::default().address_size(AddressSize::U64);
    let code = emit_peripheral(&model.shapes[0], &config);
    assert_eq!(code, EXPECTED_SHAPE.replace("pub(crate) addr: u32,", "pub(crate) addr: u64,"));
}

#[test]
fn whole_tree_for_two_gpios() {
    let generated = generate_from_tree(&two_gpios(), &GeneratorConfig::default()).unwrap();
    assert_eq!(generated.directory, "stm32f103");
    assert_eq!(generated.module, EXPECTED_DEVICE_MODULE);
    assert_eq!(generated.peripherals_index, "pub mod gpioa;\n");
    assert_eq!(generated.instances_index, "pub mod gpioa;\npub mod gpiob;\n");
    assert_eq!(generated.metadata, EXPECTED_METADATA);
    assert_eq!(generated.peripherals.len(), 1);
    assert_eq!(generated.peripherals[0].file_name, "gpioa.rs");
    assert_eq!(generated.peripherals[0].content, EXPECTED_SHAPE);
    assert_eq!(generated.instances.len(), 2);
    assert_eq!(generated.instances[0].file_name, "gpioa.rs");
    assert_eq!(generated.instances[0].content, EXPECTED_GPIOA);
    assert_eq!(generated.instances[1].file_name, "gpiob.rs");
    assert_eq!(generated.instances[1].content, EXPECTED_GPIOB);
}

#[test]
fn two_runs_give_the_same_bytes() {
    let config = GeneratorConfig::default();
    let first = generate_from_tree(&two_gpios(), &config).unwrap();
    let second = generate_from_tree(&two_gpios(), &config).unwrap();
    assert_eq!(first, second);
}

#[test]
fn ignored_instance_has_no_file_and_no_entry() {
    let config = GeneratorConfig::default().ignore(vec!["GPIOB".to_string()]);
    let generated = generate_from_tree(&two_gpios(), &config).unwrap();
    assert_eq!(generated.peripherals.len(), 1);
    assert_eq!(generated.instances.len(), 1);
    assert_eq!(generated.instances[0].file_name, "gpioa.rs");
    assert_eq!(generated.instances_index, "pub mod gpioa;\n");
    assert!(!generated.module.contains("gpiob"));
    assert_eq!(generated.metadata, EXPECTED_METADATA_WITHOUT_B);
}

#[test]
fn ignored_shape_keeps_its_instances() {
    let config = GeneratorConfig::default().ignore(vec!["GPIOA".to_string()]);
    let generated = generate_from_tree(&two_gpios(), &config).unwrap();
    assert_eq!(generated.peripherals.len(), 0);
    assert_eq!(generated.peripherals_index, "");
    assert_eq!(generated.instances.len(), 1);
    assert_eq!(generated.instances[0].file_name, "gpiob.rs");
    assert_eq!(generated.metadata, EXPECTED_METADATA_WITHOUT_A);
}

#[test]
fn inconsistent_description_gives_no_tree() {
    let mut tree = two_gpios();
    tree.peripherals[1].registers[0].fields[0].bit_offset = 32;
    let error = generate_from_tree(&tree, &GeneratorConfig::default()).unwrap_err();
    assert_eq!(
        error,
        ModelError::InconsistentField {
            peripheral: "GPIOB".to_string(),
            register: "ODR".to_string(),
            field: "PIN0".to_string(),
        }
    );
}

#[test]
fn reset_table_follows_the_register_block() {
    let tree = device("DEV", vec![three_registers("TIM1", 0x1000, [1, 2, 3]), three_registers("TIM2", 0x2000, [4, 5, 6])]);
    let model = build(&tree).unwrap();
    let config = GeneratorConfig::default();
    let shape = emit_peripheral(&model.shapes[0], &config);
    let cr = shape.find("    pub CR: RWRegister<u32>,").unwrap();
    let sr = shape.find("    pub SR: RORegister<u16>,").unwrap();
    let dr = shape.find("    pub DR: WORegister<u8>,").unwrap();
    assert!(cr < sr && sr < dr);
    assert!(shape.contains("pub struct ResetValues {\n    pub CR: u32,\n    pub SR: u16,\n    pub DR: u8,\n}\n"));
    assert!(shape.contains("use ral_registers::{RORegister, RWRegister, WORegister};\n"));
    let second = emit_instance(&model.instances[1], &config);
    assert!(second.contains("pub use super::super::peripherals::tim1::{CR, SR, DR};\n"));
    assert!(second.contains(
        "    pub const reset: ResetValues = ResetValues {\n        CR: 0x4,\n        SR: 0x5,\n        DR: 0x6,\n    };\n"
    ));
}

fn three_registers(name: &str, base_address: u64, resets: [u64; 3]) -> PeripheralNode {
    peripheral(
        name,
        "Timer",
        base_address,
        vec![
            register("CR", None, 0, Some(32), AccessKind::ReadWrite, resets[0], vec![]),
            register("SR", None, 4, Some(16), AccessKind::ReadOnly, resets[1], vec![]),
            register("DR", None, 8, Some(8), AccessKind::WriteOnly, resets[2], vec![]),
        ],
    )
}

#[test]
fn field_in_the_high_word_of_a_wide_register() {
    let tree = device(
        "DEV",
        vec![peripheral(
            "TIMER",
            "Timer",
            0x1000,
            vec![register(
                "COUNT",
                None,
                0,
                Some(64),
                AccessKind::ReadWrite,
                0xffff_ffff_0000_0000,
                vec![field("LOW", None, 0, 32), field("HIGH", None, 32, 32), field("ALL", None, 0, 64)],
            )],
        )],
    );
    let generated = generate_from_tree(&tree, &GeneratorConfig::default()).unwrap();
    let shape = &generated.peripherals[0].content;
    assert!(shape.contains("    pub COUNT: RWRegister<u64>,\n"));
    assert!(shape.contains("        pub const mask: u32 = 0xffffffff << offset;\n"));
    assert!(shape.contains("        pub const mask: u64 = 0xffffffff << offset;\n"));
    assert!(shape.contains("        pub const mask: u64 = 0xffffffffffffffff << offset;\n"));
    assert_eq!(shape.matches("pub const mask: u64").count(), 2);
    assert!(generated.instances[0].content.contains("        COUNT: 0xffffffff00000000,\n"));
}

#[test]
fn shape_without_registers() {
    let tree = device("DEV", vec![peripheral("EMPTY", "", 0x10, vec![])]);
    let model = build(&tree).unwrap();
    let config = GeneratorConfig::default();
    assert_eq!(emit_peripheral(&model.shapes[0], &config), EXPECTED_EMPTY_SHAPE);
    let code = emit_instance(&model.instances[0], &config);
    assert!(code.starts_with(EXPECTED_EMPTY_INSTANCE_HEAD));
}

#[test]
fn metadata_lists_names_in_order() {
    let code = emit_metadata(
        &vec!["gpioa".to_string()],
        &vec!["gpioa".to_string(), "gpiob".to_string()],
        &vec!["GPIOA".to_string(), "GPIOB".to_string()],
    );
    assert_eq!(code, EXPECTED_METADATA);
}

#[test]
fn wrap_each_puts_every_item_between_the_two_texts() {
    assert_eq!(wrap_each(&vec![], "<", ">"), "");
    assert_eq!(wrap_each(&vec!["a".to_string(), "b".to_string()], "<", ">"), "<a><b>");
}

#[test]
fn emit_model_lowers_the_device_name() {
    let model = build(&two_gpios()).unwrap();
    let generated = emit_model(&model, "STM32-F1", &GeneratorConfig::default());
    assert_eq!(generated.directory, "stm32-f1");
}

const EXPECTED_SHAPE: &str = "#![allow(non_snake_case, non_upper_case_globals)]
#![allow(non_camel_case_types)]
//! General purpose I/O

use ral_registers::{RWRegister};
use core::marker::PhantomData;

/// Output data register
pub mod ODR {
    /// Output data bit 0
    pub mod PIN0 {
        /// Offset (0 bits)
        pub const offset: u32 = 0;
    
        /// Mask (1 bit: 0x1 << 0)
        pub const mask: u32 = 0x1 << offset;
    
        /// Read-only values (empty)
        pub mod R {}
        /// Write-only values (empty)
        pub mod W {}
        /// Read-write values (empty)
        pub mod RW {}
    
    }}

pub struct RegisterBlock {
    /// Output data register
    pub ODR: RWRegister<u32>,
}

pub struct ResetValues {
    pub ODR: u32,
}

pub struct Instance {
    pub(crate) addr: u32,
    pub(crate) _marker: PhantomData<*const RegisterBlock>,
}

impl ::core::ops::Deref for Instance {
    type Target = RegisterBlock;
    #[inline(always)]
    fn deref(&self) -> &RegisterBlock {
        unsafe { &*(self.addr as *const _) }
    }
}
";

const EXPECTED_GPIOA: &str = "#![allow(non_snake_case, non_upper_case_globals)]
#![allow(non_camel_case_types)]
//! General purpose I/O

pub use super::super::peripherals::gpioa::Instance;
pub use super::super::peripherals::gpioa::{RegisterBlock, ResetValues};
pub use super::super::peripherals::gpioa::{ODR};


/// Access functions for the GPIOA peripheral instance
pub mod GPIOA {
    use super::ResetValues;
    use super::Instance;

    const INSTANCE: Instance = Instance {
        addr: 0x40010800,
        _marker: ::core::marker::PhantomData,
    };

    /// Reset values for each field in GPIOA
    pub const reset: ResetValues = ResetValues {
        ODR: 0x0,
    };

    #[allow(renamed_and_removed_lints)]
    #[allow(private_no_mangle_statics)]
    #[no_mangle]
    static mut GPIOA_TAKEN: bool = false;

    /// Safe access to GPIOA
    ///
    /// This function returns `Some(Instance)` if this instance is not
    /// currently taken, and `None` if it is. This ensures that if you
    /// do get `Some(Instance)`, you are ensured unique access to
    /// the peripheral and there cannot be data races (unless other
    /// code uses `unsafe`, of course). You can then pass the
    /// `Instance` around to other functions as required. When you're
    /// done with it, you can call `release(instance)` to return it.
    ///
    /// `Instance` itself dereferences to a `RegisterBlock`, which
    /// provides access to the peripheral's registers.
    #[inline]
    pub fn take() -> Option<Instance> {
        crate::arch::interrupt::free(|_| unsafe {
            if GPIOA_TAKEN {
                None
            } else {
                GPIOA_TAKEN = true;
                Some(INSTANCE)
            }
        })
    }

    /// Release exclusive access to GPIOA
    ///
    /// This function allows you to return an `Instance` so that it
    /// is available to `take()` again. This function will panic if
    /// you return a different `Instance` or if this instance is not
    /// already taken.
    #[inline]
    pub fn release(inst: Instance) {
        crate::arch::interrupt::free(|_| unsafe {
            if GPIOA_TAKEN && inst.addr == INSTANCE.addr {
                GPIOA_TAKEN = false;
            } else {
                panic!(\"Released a peripheral which was not taken\");
            }
        });
    }

    /// Unsafely steal GPIOA
    ///
    /// This function is similar to take() but forcibly takes the
    /// Instance, marking it as taken irregardless of its previous
    /// state.
    #[allow(clippy::missing_safety_doc)]
    #[inline]
    pub unsafe fn steal() -> Instance {
        GPIOA_TAKEN = true;
        INSTANCE
    }

    /// Unsafely obtains an instance of GPIOA
    ///
    /// This will not check if `take()` or `steal()` have already been called
    /// before. It is the caller's responsibility to use the returned instance
    /// in a safe way that does not conflict with other instances.
    #[allow(clippy::missing_safety_doc)]
    #[inline]
    pub unsafe fn conjure() -> Instance {
        INSTANCE
    }
}

/// Raw pointer to GPIOA
///
/// Dereferencing this is unsafe because you are not ensured unique
/// access to the peripheral, so you may encounter data races with
/// other users of this peripheral. It is up to you to ensure you
/// will not cause data races.
///
/// This constant is provided for ease of use in unsafe code: you can
/// simply call for example `write_reg!(gpio, GPIOA, ODR, 1);`.
pub const GPIOA: *const RegisterBlock = 0x40010800 as *const _;
";

const EXPECTED_GPIOB: &str = "#![allow(non_snake_case, non_upper_case_globals)]
#![allow(non_camel_case_types)]
//! General purpose I/O

pub use super::super::peripherals::gpioa::Instance;
pub use super::super::peripherals::gpioa::{RegisterBlock, ResetValues};
pub use super::super::peripherals::gpioa::{ODR};


/// Access functions for the GPIOB peripheral instance
pub mod GPIOB {
    use super::ResetValues;
    use super::Instance;

    const INSTANCE: Instance = Instance {
        addr: 0x40010c00,
        _marker: ::core::marker::PhantomData,
    };

    /// Reset values for each field in GPIOB
    pub const reset: ResetValues = ResetValues {
        ODR: 0x1,
    };

    #[allow(renamed_and_removed_lints)]
    #[allow(private_no_mangle_statics)]
    #[no_mangle]
    static mut GPIOB_TAKEN: bool = false;

    /// Safe access to GPIOB
    ///
    /// This function returns `Some(Instance)` if this instance is not
    /// currently taken, and `None` if it is. This ensures that if you
    /// do get `Some(Instance)`, you are ensured unique access to
    /// the peripheral and there cannot be data races (unless other
    /// code uses `unsafe`, of course). You can then pass the
    /// `Instance` around to other functions as required. When you're
    /// done with it, you can call `release(instance)` to return it.
    ///
    /// `Instance` itself dereferences to a `RegisterBlock`, which
    /// provides access to the peripheral's registers.
    #[inline]
    pub fn take() -> Option<Instance> {
        crate::arch::interrupt::free(|_| unsafe {
            if GPIOB_TAKEN {
                None
            } else {
                GPIOB_TAKEN = true;
                Some(INSTANCE)
            }
        })
    }

    /// Release exclusive access to GPIOB
    ///
    /// This function allows you to return an `Instance` so that it
    /// is available to `take()` again. This function will panic if
    /// you return a different `Instance` or if this instance is not
    /// already taken.
    #[inline]
    pub fn release(inst: Instance) {
        crate::arch::interrupt::free(|_| unsafe {
            if GPIOB_TAKEN && inst.addr == INSTANCE.addr {
                GPIOB_TAKEN = false;
            } else {
                panic!(\"Released a peripheral which was not taken\");
            }
        });
    }

    /// Unsafely steal GPIOB
    ///
    /// This function is similar to take() but forcibly takes the
    /// Instance, marking it as taken irregardless of its previous
    /// state.
    #[allow(clippy::missing_safety_doc)]
    #[inline]
    pub unsafe fn steal() -> Instance {
        GPIOB_TAKEN = true;
        INSTANCE
    }

    /// Unsafely obtains an instance of GPIOB
    ///
    /// This will not check if `take()` or `steal()` have already been called
    /// before. It is the caller's responsibility to use the returned instance
    /// in a safe way that does not conflict with other instances.
    #[allow(clippy::missing_safety_doc)]
    #[inline]
    pub unsafe fn conjure() -> Instance {
        INSTANCE
    }
}

/// Raw pointer to GPIOB
///
/// Dereferencing this is unsafe because you are not ensured unique
/// access to the peripheral, so you may encounter data races with
/// other users of this peripheral. It is up to you to ensure you
/// will not cause data races.
///
/// This constant is provided for ease of use in unsafe code: you can
/// simply call for example `write_reg!(gpio, GPIOA, ODR, 1);`.
pub const GPIOB: *const RegisterBlock = 0x40010c00 as *const _;
";

const EXPECTED_DEVICE_MODULE: &str = "
/// Peripherals shared by multiple devices
pub mod peripherals;

/// Peripheral instances shared by multiple devices
pub(crate) mod instances;

/// Metadata
pub mod metadata;

pub use self::instances::gpioa;
pub use self::instances::gpiob;
";

const EXPECTED_METADATA: &str = "pub const PERIPHERAL_MODULES: &[&str] = &[
    \"gpioa\",
];

pub const INSTANCE_MODULES: &[&str] = &[
    \"gpioa\",
    \"gpiob\",
];

pub const INSTANCE_NAMES: &[&str] = &[
    \"GPIOA\",
    \"GPIOB\",
];
";

const EXPECTED_METADATA_WITHOUT_B: &str = "pub const PERIPHERAL_MODULES: &[&str] = &[
    \"gpioa\",
];

pub const INSTANCE_MODULES: &[&str] = &[
    \"gpioa\",
];

pub const INSTANCE_NAMES: &[&str] = &[
    \"GPIOA\",
];
";

const EXPECTED_METADATA_WITHOUT_A: &str = "pub const PERIPHERAL_MODULES: &[&str] = &[
];

pub const INSTANCE_MODULES: &[&str] = &[
    \"gpiob\",
];

pub const INSTANCE_NAMES: &[&str] = &[
    \"GPIOB\",
];
";

const EXPECTED_EMPTY_SHAPE: &str = "#![allow(non_snake_case, non_upper_case_globals)]
#![allow(non_camel_case_types)]

use ral_registers::{};
use core::marker::PhantomData;


pub struct RegisterBlock {
}

pub struct ResetValues {

}

pub struct Instance {
    pub(crate) addr: u32,
    pub(crate) _marker: PhantomData<*const RegisterBlock>,
}

impl ::core::ops::Deref for Instance {
    type Target = RegisterBlock;
    #[inline(always)]
    fn deref(&self) -> &RegisterBlock {
        unsafe { &*(self.addr as *const _) }
    }
}
";

const EXPECTED_EMPTY_INSTANCE_HEAD: &str = "#![allow(non_snake_case, non_upper_case_globals)]
#![allow(non_camel_case_types)]

pub use super::super::peripherals::empty::Instance;
pub use super::super::peripherals::empty::{RegisterBlock, ResetValues};


/// Access functions for the EMPTY peripheral instance
pub mod EMPTY {
    use super::ResetValues;
    use super::Instance;

    const INSTANCE: Instance = Instance {
        addr: 0x10,
        _marker: ::core::marker::PhantomData,
    };

    /// Reset values for each field in EMPTY
    pub const reset: ResetValues = ResetValues {

    };

";
