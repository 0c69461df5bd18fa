use ral_gen::config::{AddressSize, GeneratorConfig};

#[test]
fn default_settings() {
    let config = GeneratorConfig::default();
    assert_eq!(config.address_size, AddressSize::U32);
    assert!(config.ignore.is_empty());
    assert_eq!(config.arch_crate, "crate::arch");
}

#[test]
fn each_builder_replaces_one_setting() {
    let config = GeneratorConfig::default()
        .address_size(AddressSize::U64)
        .ignore(vec!["ADC1".to_string(), "ADC2".to_string()])
        .arch_crate("cortex_m");
    assert_eq!(config.address_size, AddressSize::U64);
    assert_eq!(config.ignore, vec!["ADC1", "ADC2"]);
    assert_eq!(config.arch_crate, "cortex_m");
    let again = config.arch_crate("riscv");
    assert_eq!(again.address_size, AddressSize::U64);
    assert_eq!(again.ignore, vec!["ADC1", "ADC2"]);
    assert_eq!(again.arch_crate, "riscv");
}

#[test]
fn address_type_names() {
    assert_eq!(AddressSize::U32.integer_type_name(), "u32");
    assert_eq!(AddressSize::U64.integer_type_name(), "u64");
}

#[test]
fn ignores_exactly_the_listed_names() {
    let config = GeneratorConfig::default().ignore(vec!["ADC1".to_string(), "".to_string()]);
    assert!(config.ignores(&"ADC1".to_string()));
    assert!(config.ignores(&String::new()));
    assert!(!config.ignores(&"adc1".to_string()));
    assert!(!config.ignores(&"ADC".to_string()));
    assert!(!GeneratorConfig::default().ignores(&"ADC1".to_string()));
}
