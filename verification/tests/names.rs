use ral_gen::names::module_name;

#[test]
fn module_name_is_the_name_in_lower_case() {
    assert_eq!(module_name("GPIOA"), "gpioa");
    assert_eq!(module_name("Usb_Otg2"), "usb_otg2");
    assert_eq!(module_name("already_lower"), "already_lower");
}

#[test]
fn module_name_replaces_what_no_identifier_holds() {
    assert_eq!(module_name("USB-OTG FS"), "usb_otg_fs");
    assert_eq!(module_name("TIM[1]"), "tim_1_");
    assert_eq!(module_name("Größe"), "gr__e");
}

#[test]
fn module_name_never_opens_with_a_digit() {
    assert_eq!(module_name("1WIRE"), "_1wire");
    assert_eq!(module_name("9"), "_9");
}

#[test]
fn module_name_is_never_a_lone_underscore() {
    assert_eq!(module_name(""), "__");
    assert_eq!(module_name("_"), "__");
    assert_eq!(module_name("-"), "__");
    assert_eq!(module_name("--"), "__");
    assert_eq!(module_name("__"), "__");
}

#[test]
fn module_name_is_never_a_reserved_word() {
    assert_eq!(module_name("MOD"), "mod_");
    assert_eq!(module_name("As"), "as_");
    assert_eq!(module_name("in"), "in_");
    assert_eq!(module_name("SELF"), "self_");
    assert_eq!(module_name("Type"), "type_");
    assert_eq!(module_name("yield"), "yield_");
    assert_eq!(module_name("abstract"), "abstract_");
    assert_eq!(module_name("MODE"), "mode");
    assert_eq!(module_name("a"), "a");
    assert_eq!(module_name("mod_"), "mod_");
}

#[test]
fn module_name_is_an_identifier() {
    for name in ["", "A", "a b", "0", "_x", "Ünïcödé", "x-1", "__", "Z9", "_", "FN", "loop"] {
        let module = module_name(name);
        assert_ne!(module, "_");
        assert_ne!(module, "fn");
        assert_ne!(module, "loop");
        let mut chars = module.chars();
        let first = chars.next().unwrap();
        assert!(first == '_' || first.is_ascii_lowercase());
        assert!(chars.all(|c| c == '_' || c.is_ascii_lowercase() || c.is_ascii_digit()));
    }
}
