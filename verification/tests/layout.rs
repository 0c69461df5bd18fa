use ral_gen::consistency::{first_bad_field, first_bad_peripheral, first_bad_register};
use ral_gen::layout::layouts_match;
use ral_gen::model::{standard_width_of, AccessKind};
use ral_gen::tree::{declared_width_of, DeviceTree, FieldNode, PeripheralNode, RegisterNode};

fn field(name: &str, bit_offset: u32, bit_width: u32) -> FieldNode {
    FieldNode { name: name.to_string(), description: None, bit_offset, bit_width }
}

fn register(name: &str, size: Option<u32>, fields: Vec<FieldNode>) -> RegisterNode {
    RegisterNode {
        name: name.to_string(),
        description: None,
        address_offset: 0,
        size,
        access: AccessKind::ReadWrite,
        reset_value: 0,
        fields,
    }
}

fn peripheral(name: &str, registers: Vec<RegisterNode>) -> PeripheralNode {
    PeripheralNode {
        name: name.to_string(),
        description: String::new(),
        base_address: 0,
        registers,
    }
}

#[test]
fn standard_widths() {
    let rounded: Vec<u32> =
        [0, 1, 8, 9, 16, 17, 32, 33, 64, 65, u32::MAX].iter().map(|b| standard_width_of(*b)).collect();
    assert_eq!(rounded, vec![8, 8, 8, 16, 16, 32, 32, 64, 64, 64, 64]);
}

#[test]
fn declared_width_falls_back_to_the_device() {
    assert_eq!(declared_width_of(&register("R", Some(24), vec![]), 32), 24);
    assert_eq!(declared_width_of(&register("R", None, vec![]), 32), 32);
    assert_eq!(declared_width_of(&register("R", Some(0), vec![]), 32), 0);
}

#[test]
fn first_field_beyond_its_register() {
    let fields = vec![field("A", 0, 8), field("B", 8, 8), field("C", 16, 1), field("D", 0, 17)];
    assert_eq!(first_bad_field(&register("R", Some(16), fields.clone()), 32), 2);
    assert_eq!(first_bad_field(&register("R", Some(17), fields.clone()), 32), 4);
    assert_eq!(first_bad_field(&register("R", None, fields.clone()), 8), 1);
    assert_eq!(first_bad_field(&register("R", None, fields), 7), 0);
    assert_eq!(first_bad_field(&register("R", Some(0), vec![]), 0), 0);
    assert_eq!(first_bad_field(&register("R", Some(100), vec![field("X", 60, 5)]), 0), 0);
    assert_eq!(first_bad_field(&register("R", Some(100), vec![field("X", 60, 4)]), 0), 1);
}

#[test]
fn first_register_and_peripheral_with_such_a_field() {
    let good = register("G", Some(8), vec![field("A", 0, 8)]);
    let bad = register("B", Some(8), vec![field("A", 1, 8)]);
    let clean = peripheral("P", vec![good.clone(), good.clone()]);
    let dirty = peripheral("Q", vec![good.clone(), bad.clone(), bad]);
    assert_eq!(first_bad_register(&clean, 32), 2);
    assert_eq!(first_bad_register(&dirty, 32), 1);
    assert_eq!(first_bad_register(&peripheral("E", vec![]), 32), 0);
    let tree = |peripherals: Vec<PeripheralNode>| DeviceTree {
        name: "D".to_string(),
        width: 32,
        peripherals,
    };
    assert_eq!(first_bad_peripheral(&tree(vec![clean.clone(), clean.clone()])), 2);
    assert_eq!(first_bad_peripheral(&tree(vec![clean.clone(), dirty.clone(), dirty])), 1);
    assert_eq!(first_bad_peripheral(&tree(vec![])), 0);
}

#[test]
fn layouts_match_on_registers_in_order_and_fields_as_sets() {
    let a = peripheral(
        "A",
        vec![register("X", Some(32), vec![field("F", 0, 1), field("G", 1, 1)]), register("Y", None, vec![])],
    );
    let same = peripheral(
        "B",
        vec![
            register("X", Some(25), vec![field("G", 1, 1), field("F", 0, 1), field("G", 1, 1)]),
            register("Y", Some(32), vec![]),
        ],
    );
    let mut swapped = a.clone();
    swapped.registers.swap(0, 1);
    let mut fewer = a.clone();
    fewer.registers[0].fields.pop();
    assert!(layouts_match(&a, &a, 32));
    assert!(layouts_match(&a, &same, 32));
    assert!(layouts_match(&same, &a, 32));
    assert!(!layouts_match(&a, &same, 16));
    assert!(!layouts_match(&a, &swapped, 32));
    assert!(!layouts_match(&a, &fewer, 32));
    assert!(!layouts_match(&fewer, &a, 32));
    assert!(layouts_match(&peripheral("E", vec![]), &peripheral("F", vec![]), 8));
}
