use ral_gen::builder::{build, ModelError};
use ral_gen::model::AccessKind;
use ral_gen::tree::{DeviceTree, FieldNode, PeripheralNode, RegisterNode};

fn field(name: &str, bit_offset: u32, bit_width: u32) -> FieldNode {
    FieldNode { name: name.to_string(), description: None, bit_offset, bit_width }
}

fn register(name: &str, address_offset: u32, size: Option<u32>, fields: Vec<FieldNode>) -> RegisterNode {
    RegisterNode {
        name: name.to_string(),
        description: None,
        address_offset,
        size,
        access: AccessKind::ReadWrite,
        reset_value: 0,
        fields,
    }
}

fn peripheral(name: &str, base_address: u64, registers: Vec<RegisterNode>) -> PeripheralNode {
    PeripheralNode {
        name: name.to_string(),
        description: format!("{} description", name),
        base_address,
        registers,
    }
}

fn device(peripherals: Vec<PeripheralNode>) -> DeviceTree {
    DeviceTree { name: "DEV".to_string(), width: 32, peripherals }
}

fn uart(name: &str, base_address: u64) -> PeripheralNode {
    peripheral(
        name,
        base_address,
        vec![
            register("SR", 0, Some(32), vec![field("TXE", 7, 1), field("RXNE", 5, 1)]),
            register("DR", 4, Some(32), vec![field("DATA", 0, 9)]),
        ],
    )
}

fn timer(name: &str, base_address: u64) -> PeripheralNode {
    peripheral(name, base_address, vec![register("CNT", 0, Some(16), vec![field("CNT", 0, 16)])])
}

fn shapes_of(tree: &DeviceTree) -> Vec<usize> {
    build(tree).unwrap().instances.iter().map(|i| i.shape).collect()
}

#[test]
fn empty_device_gives_empty_model() {
    let model = build(&device(vec![])).unwrap();
    assert!(model.shapes.is_empty());
    assert!(model.instances.is_empty());
}

#[test]
fn shapes_come_in_the_order_of_first_occurrence() {
    let tree = device(vec![
        uart("USART1", 0x1000),
        timer("TIM1", 0x2000),
        uart("USART2", 0x3000),
        timer("TIM2", 0x4000),
        uart("USART3", 0x5000),
    ]);
    let model = build(&tree).unwrap();
    let names: Vec<&str> = model.shapes.iter().map(|s| s.name.as_str()).collect();
    assert_eq!(names, vec!["USART1", "TIM1"]);
    assert_eq!(model.shapes[0].description, "USART1 description");
    assert_eq!(shapes_of(&tree), vec![0, 1, 0, 1, 0]);
    let modules: Vec<&str> = model.instances.iter().map(|i| i.peripheral_module.as_str()).collect();
    assert_eq!(modules, vec!["usart1", "tim1", "usart1", "tim1", "usart1"]);
    let own: Vec<&str> = model.instances.iter().map(|i| i.module_name.as_str()).collect();
    assert_eq!(own, vec!["usart1", "tim1", "usart2", "tim2", "usart3"]);
    assert_eq!(model.instances[2].description, "USART2 description");
    assert_eq!(model.instances[4].base_address, 0x5000);
}

#[test]
fn registers_keep_their_order() {
    let model = build(&device(vec![uart("USART1", 0x1000)])).unwrap();
    let names: Vec<&str> = model.shapes[0].registers.iter().map(|r| r.name.as_str()).collect();
    assert_eq!(names, vec!["SR", "DR"]);
    let resets: Vec<&str> =
        model.instances[0].reset_values.iter().map(|r| r.register_name.as_str()).collect();
    assert_eq!(resets, vec!["SR", "DR"]);
    let fields: Vec<&str> =
        model.shapes[0].registers[0].fields.iter().map(|f| f.name.as_str()).collect();
    assert_eq!(fields, vec!["TXE", "RXNE"]);
    assert_eq!(model.shapes[0].registers[0].fields[0].bit_range.offset, 7);
    assert_eq!(model.shapes[0].registers[0].fields[0].bit_range.width, 1);
}

#[test]
fn order_of_registers_tells_layouts_apart() {
    let mut swapped = uart("USART2", 0x3000);
    swapped.registers.swap(0, 1);
    assert_eq!(shapes_of(&device(vec![uart("USART1", 0x1000), swapped])), vec![0, 1]);
}

#[test]
fn order_of_fields_does_not() {
    let mut swapped = uart("USART2", 0x3000);
    swapped.registers[0].fields.swap(0, 1);
    let tree = device(vec![uart("USART1", 0x1000), swapped]);
    assert_eq!(shapes_of(&tree), vec![0, 0]);
    let model = build(&tree).unwrap();
    assert_eq!(model.shapes[0].registers[0].fields[0].name, "TXE");
}

#[test]
fn each_part_of_a_layout_counts() {
    let base = uart("USART1", 0x1000);
    let mut name = uart("A", 0x2000);
    name.registers[1].name = "RDR".to_string();
    let mut offset = uart("B", 0x2000);
    offset.registers[1].address_offset = 8;
    let mut width = uart("C", 0x2000);
    width.registers[1].size = Some(16);
    let mut access = uart("D", 0x2000);
    access.registers[1].access = AccessKind::ReadOnly;
    let mut field_name = uart("E", 0x2000);
    field_name.registers[1].fields[0].name = "DAT".to_string();
    let mut field_offset = uart("F", 0x2000);
    field_offset.registers[1].fields[0].bit_offset = 1;
    let mut field_width = uart("G", 0x2000);
    field_width.registers[1].fields[0].bit_width = 8;
    let mut extra_field = uart("H", 0x2000);
    extra_field.registers[1].fields.push(field("PE", 9, 1));
    let mut extra_register = uart("I", 0x2000);
    extra_register.registers.push(register("BRR", 8, Some(32), vec![]));
    for other in [
        name, offset, width, access, field_name, field_offset, field_width, extra_field,
        extra_register,
    ] {
        assert_eq!(shapes_of(&device(vec![base.clone(), other])), vec![0, 1]);
    }
}

#[test]
fn descriptions_addresses_and_reset_values_do_not_count() {
    let mut other = uart("USART2", 0x9000);
    other.description = "another text".to_string();
    other.registers[0].description = Some("status".to_string());
    other.registers[0].reset_value = 0xc0;
    other.registers[0].fields[0].description = Some("empty".to_string());
    let tree = device(vec![uart("USART1", 0x1000), other]);
    assert_eq!(shapes_of(&tree), vec![0, 0]);
    let model = build(&tree).unwrap();
    assert_eq!(model.shapes[0].registers[0].description, None);
    assert_eq!(model.instances[1].reset_values[0].value, 0xc0);
}

#[test]
fn declared_width_is_rounded_up_to_a_standard_width() {
    let tree = device(vec![peripheral(
        "P",
        0,
        vec![
            register("A", 0, Some(1), vec![]),
            register("B", 1, Some(8), vec![]),
            register("C", 2, Some(9), vec![]),
            register("D", 4, Some(24), vec![field("TOP", 23, 1)]),
            register("E", 8, Some(33), vec![]),
            register("F", 16, Some(64), vec![field("ALL", 0, 64)]),
            register("G", 24, Some(0), vec![]),
        ],
    )]);
    let model = build(&tree).unwrap();
    let widths: Vec<u32> =
        model.shapes[0].registers.iter().map(|r| r.properties.bit_width).collect();
    assert_eq!(widths, vec![8, 8, 16, 32, 64, 64, 8]);
}

#[test]
fn rounded_widths_compare_equal() {
    let narrow = peripheral("P", 0, vec![register("A", 0, Some(24), vec![])]);
    let wide = peripheral("Q", 0, vec![register("A", 0, Some(32), vec![])]);
    assert_eq!(shapes_of(&device(vec![narrow, wide])), vec![0, 0]);
}

#[test]
fn register_without_width_takes_that_of_the_device() {
    let mut tree = device(vec![peripheral("P", 0, vec![register("A", 0, None, vec![field("F", 8, 8)])])]);
    tree.width = 16;
    let model = build(&tree).unwrap();
    assert_eq!(model.shapes[0].registers[0].properties.bit_width, 16);
    tree.width = 8;
    assert_eq!(
        build(&tree),
        Err(ModelError::InconsistentField {
            peripheral: "P".to_string(),
            register: "A".to_string(),
            field: "F".to_string(),
        })
    );
}

#[test]
fn field_beyond_the_declared_width_is_rejected() {
    let tree = device(vec![
        uart("USART1", 0x1000),
        peripheral(
            "BAD",
            0,
            vec![
                register("OK", 0, Some(32), vec![field("F", 0, 32)]),
                register("R", 4, Some(24), vec![field("LOW", 0, 24), field("HIGH", 24, 1), field("WORSE", 40, 1)]),
                register("S", 8, Some(8), vec![field("ALSO", 8, 1)]),
            ],
        ),
        peripheral("LATER", 0, vec![register("T", 0, Some(8), vec![field("X", 7, 2)])]),
    ]);
    let error = build(&tree).unwrap_err();
    assert_eq!(
        error,
        ModelError::InconsistentField {
            peripheral: "BAD".to_string(),
            register: "R".to_string(),
            field: "HIGH".to_string(),
        }
    );
    assert_eq!(error.message(), "field HIGH of register R of peripheral BAD reaches beyond its register");
}

#[test]
fn field_that_ends_at_the_declared_width_is_accepted() {
    let tree = device(vec![peripheral("P", 0, vec![register("R", 0, Some(24), vec![field("TOP", 16, 8), field("NONE", 24, 0)])])]);
    assert!(build(&tree).is_ok());
}

#[test]
fn no_register_holds_bits_beyond_sixty_four() {
    let inside = device(vec![peripheral("P", 0, vec![register("R", 0, Some(128), vec![field("F", 32, 32)])])]);
    assert_eq!(build(&inside).unwrap().shapes[0].registers[0].properties.bit_width, 64);
    let outside = device(vec![peripheral("P", 0, vec![register("R", 0, Some(128), vec![field("F", 64, 1)])])]);
    assert!(matches!(build(&outside), Err(ModelError::InconsistentField { .. })));
    let huge = device(vec![peripheral("P", 0, vec![register("R", 0, Some(u32::MAX), vec![field("F", u32::MAX, u32::MAX)])])]);
    assert!(matches!(build(&huge), Err(ModelError::InconsistentField { .. })));
}

#[test]
fn two_shapes_with_one_module_name_are_rejected() {
    let tree = device(vec![uart("USART1", 0x1000), timer("TIM-1", 0x2000), timer("TIM_2", 0x2100), uart("Usart1", 0x3000), peripheral("tim 1", 0x4000, vec![])]);
    let error = build(&tree).unwrap_err();
    assert_eq!(error, ModelError::DuplicateModuleName { module_name: "tim_1".to_string() });
    assert_eq!(error.message(), "two peripheral shapes share the module name tim_1");
}

#[test]
fn instances_of_one_shape_may_share_a_module_name() {
    let tree = device(vec![uart("USART1", 0x1000), uart("usart1", 0x3000)]);
    let model = build(&tree).unwrap();
    assert_eq!(model.shapes.len(), 1);
    assert_eq!(model.instances[1].module_name, "usart1");
}

#[test]
fn inconsistent_field_is_reported_before_duplicate_names() {
    let tree = device(vec![timer("TIM1", 0x1000), uart("tim1", 0x2000), peripheral("P", 0, vec![register("R", 0, Some(8), vec![field("F", 8, 1)])])]);
    assert!(matches!(build(&tree), Err(ModelError::InconsistentField { .. })));
}

#[test]
fn same_layout_gives_same_shape_and_only_then() {
    let all = vec![
        uart("U1", 1),
        timer("T1", 2),
        peripheral("E1", 3, vec![]),
        uart("U2", 4),
        peripheral("E2", 5, vec![]),
        timer("T2", 6),
        timer("T3", 7),
    ];
    let kinds = [0, 1, 2, 0, 2, 1, 1];
    let shapes = shapes_of(&device(all));
    for i in 0..kinds.len() {
        for j in 0..kinds.len() {
            assert_eq!(kinds[i] == kinds[j], shapes[i] == shapes[j]);
        }
    }
    assert_eq!(shapes.iter().max(), Some(&2));
}
