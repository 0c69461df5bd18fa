//! Emission of the module of one peripheral instance: the handle bound to
//! its address, the table of reset values, and the guard that lets at most
//! one owner hold the handle at a time.

use vstd::prelude::*;
use vstd::string::*;
use crate::config::{ConfigSpec, GeneratorConfig};
use crate::model::{reset_specs, InstanceSpec, PeripheralInstance, ResetSpec, ResetValue};
use crate::text::{
    append_hex, build_doc_comment, doc_comment_text, hex_text, join, join_text, texts,
};

verus! {

/// The line that re-exports the register modules of the shape, named as the
/// reset table names them; nothing where the table is empty.
pub open spec fn register_reexport_text(instance: InstanceSpec) -> Seq<char> {
    if instance.reset_values.len() == 0 {
        Seq::empty()
    } else {
        "pub use super::super::peripherals::"@ + instance.peripheral_module + "::{"@ + join_text(
            instance.reset_names(),
            ", "@,
        ) + "};\n"@
    }
}

/// The head of the file: the types of the shape, re-exported by qualified
/// reference.
pub open spec fn instance_header_text(instance: InstanceSpec) -> Seq<char> {
    "#![allow(non_snake_case, non_upper_case_globals)]\n"@ + "#![allow(non_camel_case_types)]\n"@
        + doc_comment_text("//!"@, instance.description) + "\n"@
        + "pub use super::super::peripherals::"@ + instance.peripheral_module + "::Instance;\n"@
        + "pub use super::super::peripherals::"@ + instance.peripheral_module
        + "::{RegisterBlock, ResetValues};\n"@ + register_reexport_text(instance) + "\n"@
}

/// The opening of the accessor module, with the handle bound to
/// `base_address`.
pub open spec fn accessor_open_text(name: Seq<char>, base_address: nat) -> Seq<char> {
    "
/// Access functions for the "@
        + name
        + " peripheral instance
pub mod "@
        + name
        + " {
    use super::ResetValues;
    use super::Instance;

    const INSTANCE: Instance = Instance {
        addr: "@
        + hex_text(base_address)
        + ",
        _marker: ::core::marker::PhantomData,
    };

"@
}

/// One line of the reset table: the register and its value in hexadecimal.
pub open spec fn reset_line_text(reset: ResetSpec) -> Seq<char> {
    "        "@ + reset.register_name + ": "@ + hex_text(reset.value) + ","@
}

/// The lines of the reset table, in the order of `resets`.
pub open spec fn reset_line_texts(resets: Seq<ResetSpec>) -> Seq<Seq<char>> {
    Seq::new(resets.len(), |j: int| reset_line_text(resets[j]))
}

/// The constant `reset`: one line for each reset value, in their order.
pub open spec fn reset_table_text(name: Seq<char>, resets: Seq<ResetSpec>) -> Seq<char> {
    "    /// Reset values for each field in "@
        + name
        + "
    pub const reset: ResetValues = ResetValues {
"@
        + join_text(reset_line_texts(resets), "\n"@)
        + "
    };

"@
}

/// The flag that records whether the instance is taken; it starts cleared.
pub open spec fn ownership_flag_text(name: Seq<char>) -> Seq<char> {
    "    #[allow(renamed_and_removed_lints)]
    #[allow(private_no_mangle_statics)]
    #[no_mangle]
    static mut "@
        + name
        + "_TAKEN: bool = false;

"@
}

/// The operation `take`: inside the critical section of `arch_crate`, it
/// hands out the handle and sets the flag only where the flag is clear.
pub open spec fn take_text(name: Seq<char>, arch_crate: Seq<char>) -> Seq<char> {
    "    /// Safe access to "@
        + name
        + "
    ///
    /// This function returns `Some(Instance)` if this instance is not
    /// currently taken, and `None` if it is. This ensures that if you
    /// do get `Some(Instance)`, you are ensured unique access to
    /// the peripheral and there cannot be data races (unless other
    /// code uses `unsafe`, of course). You can then pass the
    /// `Instance` around to other functions as required. When you're
    /// done with it, you can call `release(instance)` to return it.
    ///
    /// `Instance` itself dereferences to a `RegisterBlock`, which
    /// provides access to the peripheral's registers.
    #[inline]
    pub fn take() -> Option<Instance> {
        "@
        + arch_crate
        + "::interrupt::free(|_| unsafe {
            if "@
        + name
        + "_TAKEN {
                None
            } else {
                "@
        + name
        + "_TAKEN = true;
                Some(INSTANCE)
            }
        })
    }

"@
}

/// The operation `release`: inside the critical section of `arch_crate`, it
/// clears the flag where the flag is set and the handle is that of this
/// instance, and aborts otherwise.
pub open spec fn release_text(name: Seq<char>, arch_crate: Seq<char>) -> Seq<char> {
    "    /// Release exclusive access to "@
        + name
        + "
    ///
    /// This function allows you to return an `Instance` so that it
    /// is available to `take()` again. This function will panic if
    /// you return a different `Instance` or if this instance is not
    /// already taken.
    #[inline]
    pub fn release(inst: Instance) {
        "@
        + arch_crate
        + "::interrupt::free(|_| unsafe {
            if "@
        + name
        + "_TAKEN && inst.addr == INSTANCE.addr {
                "@
        + name
        + "_TAKEN = false;
            } else {
                panic!(\"Released a peripheral which was not taken\");
            }
        });
    }

"@
}

/// The operation `steal`: it sets the flag and hands out the handle,
/// whatever the flag was.
pub open spec fn steal_text(name: Seq<char>) -> Seq<char> {
    "    /// Unsafely steal "@
        + name
        + "
    ///
    /// This function is similar to take() but forcibly takes the
    /// Instance, marking it as taken irregardless of its previous
    /// state.
    #[allow(clippy::missing_safety_doc)]
    #[inline]
    pub unsafe fn steal() -> Instance {
        "@
        + name
        + "_TAKEN = true;
        INSTANCE
    }

"@
}

/// The operation `conjure`: it hands out the handle and leaves the flag as
/// it is.
pub open spec fn conjure_text(name: Seq<char>) -> Seq<char> {
    "    /// Unsafely obtains an instance of "@
        + name
        + "
    ///
    /// This will not check if `take()` or `steal()` have already been called
    /// before. It is the caller's responsibility to use the returned instance
    /// in a safe way that does not conflict with other instances.
    #[allow(clippy::missing_safety_doc)]
    #[inline]
    pub unsafe fn conjure() -> Instance {
        INSTANCE
    }
"@
}

/// The constant that gives the address of the register block without any
/// guard.
pub open spec fn raw_pointer_text(name: Seq<char>, base_address: nat) -> Seq<char> {
    "/// Raw pointer to "@
        + name
        + "
///
/// Dereferencing this is unsafe because you are not ensured unique
/// access to the peripheral, so you may encounter data races with
/// other users of this peripheral. It is up to you to ensure you
/// will not cause data races.
///
/// This constant is provided for ease of use in unsafe code: you can
/// simply call for example `write_reg!(gpio, GPIOA, ODR, 1);`.
pub const "@
        + name
        + ": *const RegisterBlock = "@
        + hex_text(base_address)
        + " as *const _;
"@
}

/// The source file of one peripheral instance.
pub open spec fn instance_text(instance: InstanceSpec, config: ConfigSpec) -> Seq<char> {
    instance_header_text(instance) + accessor_open_text(instance.name, instance.base_address)
        + reset_table_text(instance.name, instance.reset_values) + ownership_flag_text(
        instance.name,
    ) + take_text(instance.name, config.arch_crate) + release_text(
        instance.name,
        config.arch_crate,
    ) + steal_text(instance.name) + conjure_text(instance.name) + "}\n\n"@ + raw_pointer_text(
        instance.name,
        instance.base_address,
    )
}

fn register_reexport(instance: &PeripheralInstance) -> (code: String)
    ensures
        code@ == register_reexport_text(instance@),
{
    if instance.reset_values.len() == 0 {
        return String::new();
    }
    let mut names: Vec<String> = Vec::new();
    let mut j: usize = 0;
    while j < instance.reset_values.len()
        invariant
            0 <= j <= instance.reset_values.len(),
            names@.len() == j,
            forall|m: int|
                0 <= m < j ==> (#[trigger] names@[m])@ == instance.reset_values@[m].register_name@,
        decreases instance.reset_values.len() - j,
    {
        names.push(instance.reset_values[j].register_name.clone());
        j += 1;
    }
    assert(texts(names@) =~= instance@.reset_names());
    let mut code = String::from_str("pub use super::super::peripherals::");
    code.append(instance.peripheral_module.as_str());
    code.append("::{");
    code.append(join(&names, ", ").as_str());
    code.append("};\n");
    code
}

fn instance_header(instance: &PeripheralInstance) -> (code: String)
    ensures
        code@ == instance_header_text(instance@),
{
    let mut code = String::from_str("#![allow(non_snake_case, non_upper_case_globals)]\n");
    code.append("#![allow(non_camel_case_types)]\n");
    code.append(build_doc_comment("//!", instance.description.as_str()).as_str());
    code.append("\n");
    code.append("pub use super::super::peripherals::");
    code.append(instance.peripheral_module.as_str());
    code.append("::Instance;\n");
    code.append("pub use super::super::peripherals::");
    code.append(instance.peripheral_module.as_str());
    code.append("::{RegisterBlock, ResetValues};\n");
    code.append(register_reexport(instance).as_str());
    code.append("\n");
    code
}

fn accessor_open(name: &str, base_address: u64) -> (code: String)
    ensures
        code@ == accessor_open_text(name@, base_address as nat),
{
    let mut code = String::from_str("
/// Access functions for the ");
    code.append(name);
    code.append(" peripheral instance
pub mod ");
    code.append(name);
    code.append(" {
    use super::ResetValues;
    use super::Instance;

    const INSTANCE: Instance = Instance {
        addr: ");
    append_hex(&mut code, base_address);
    code.append(",
        _marker: ::core::marker::PhantomData,
    };

");
    code
}

impl ResetValue {
    /// Emits the line of the reset table for this register.
    pub fn table_line(&self) -> (code: String)
        ensures
            code@ == reset_line_text(self@),
    {
        let mut code = String::from_str("        ");
        code.append(self.register_name.as_str());
        code.append(": ");
        append_hex(&mut code, self.value);
        code.append(",");
        code
    }
}

fn reset_lines(resets: &Vec<ResetValue>) -> (lines: String)
    ensures
        lines@ == join_text(reset_line_texts(reset_specs(resets@)), "\n"@),
{
    let mut lines: Vec<String> = Vec::new();
    let mut j: usize = 0;
    while j < resets.len()
        invariant
            0 <= j <= resets.len(),
            lines@.len() == j,
            forall|m: int| 0 <= m < j ==> (#[trigger] lines@[m])@ == reset_line_text(resets@[m]@),
        decreases resets.len() - j,
    {
        lines.push(resets[j].table_line());
        j += 1;
    }
    assert(texts(lines@) =~= reset_line_texts(reset_specs(resets@)));
    join(&lines, "\n")
}

fn reset_table(name: &str, resets: &Vec<ResetValue>) -> (code: String)
    ensures
        code@ == reset_table_text(name@, reset_specs(resets@)),
{
    let mut code = String::from_str("    /// Reset values for each field in ");
    code.append(name);
    code.append("
    pub const reset: ResetValues = ResetValues {
");
    code.append(reset_lines(resets).as_str());
    code.append("
    };

");
    code
}

fn ownership_flag(name: &str) -> (code: String)
    ensures
        code@ == ownership_flag_text(name@),
{
    let mut code = String::from_str("    #[allow(renamed_and_removed_lints)]
    #[allow(private_no_mangle_statics)]
    #[no_mangle]
    static mut ");
    code.append(name);
    code.append("_TAKEN: bool = false;

");
    code
}

fn take_code(name: &str, arch_crate: &str) -> (code: String)
    ensures
        code@ == take_text(name@, arch_crate@),
{
    let mut code = String::from_str("    /// Safe access to ");
    code.append(name);
    code.append("
    ///
    /// This function returns `Some(Instance)` if this instance is not
    /// currently taken, and `None` if it is. This ensures that if you
    /// do get `Some(Instance)`, you are ensured unique access to
    /// the peripheral and there cannot be data races (unless other
    /// code uses `unsafe`, of course). You can then pass the
    /// `Instance` around to other functions as required. When you're
    /// done with it, you can call `release(instance)` to return it.
    ///
    /// `Instance` itself dereferences to a `RegisterBlock`, which
    /// provides access to the peripheral's registers.
    #[inline]
    pub fn take() -> Option<Instance> {
        ");
    code.append(arch_crate);
    code.append("::interrupt::free(|_| unsafe {
            if ");
    code.append(name);
    code.append("_TAKEN {
                None
            } else {
                ");
    code.append(name);
    code.append("_TAKEN = true;
                Some(INSTANCE)
            }
        })
    }

");
    code
}

fn release_code(name: &str, arch_crate: &str) -> (code: String)
    ensures
        code@ == release_text(name@, arch_crate@),
{
    let mut code = String::from_str("    /// Release exclusive access to ");
    code.append(name);
    code.append("
    ///
    /// This function allows you to return an `Instance` so that it
    /// is available to `take()` again. This function will panic if
    /// you return a different `Instance` or if this instance is not
    /// already taken.
    #[inline]
    pub fn release(inst: Instance) {
        ");
    code.append(arch_crate);
    code.append("::interrupt::free(|_| unsafe {
            if ");
    code.append(name);
    code.append("_TAKEN && inst.addr == INSTANCE.addr {
                ");
    code.append(name);
    code.append("_TAKEN = false;
            } else {
                panic!(\"Released a peripheral which was not taken\");
            }
        });
    }

");
    code
}

fn steal_code(name: &str) -> (code: String)
    ensures
        code@ == steal_text(name@),
{
    let mut code = String::from_str("    /// Unsafely steal ");
    code.append(name);
    code.append("
    ///
    /// This function is similar to take() but forcibly takes the
    /// Instance, marking it as taken irregardless of its previous
    /// state.
    #[allow(clippy::missing_safety_doc)]
    #[inline]
    pub unsafe fn steal() -> Instance {
        ");
    code.append(name);
    code.append("_TAKEN = true;
        INSTANCE
    }

");
    code
}

fn conjure_code(name: &str) -> (code: String)
    ensures
        code@ == conjure_text(name@),
{
    let mut code = String::from_str("    /// Unsafely obtains an instance of ");
    code.append(name);
    code.append("
    ///
    /// This will not check if `take()` or `steal()` have already been called
    /// before. It is the caller's responsibility to use the returned instance
    /// in a safe way that does not conflict with other instances.
    #[allow(clippy::missing_safety_doc)]
    #[inline]
    pub unsafe fn conjure() -> Instance {
        INSTANCE
    }
");
    code
}

fn raw_pointer(name: &str, base_address: u64) -> (code: String)
    ensures
        code@ == raw_pointer_text(name@, base_address as nat),
{
    let mut code = String::from_str("/// Raw pointer to ");
    code.append(name);
    code.append("
///
/// Dereferencing this is unsafe because you are not ensured unique
/// access to the peripheral, so you may encounter data races with
/// other users of this peripheral. It is up to you to ensure you
/// will not cause data races.
///
/// This constant is provided for ease of use in unsafe code: you can
/// simply call for example `write_reg!(gpio, GPIOA, ODR, 1);`.
pub const ");
    code.append(name);
    code.append(": *const RegisterBlock = ");
    append_hex(&mut code, base_address);
    code.append(" as *const _;
");
    code
}

/// Emits the source file of one peripheral instance.
pub fn emit_instance(instance: &PeripheralInstance, config: &GeneratorConfig) -> (code: String)
    ensures
        code@ == instance_text(instance@, config@),
{
    let name = instance.name.as_str();
    let arch_crate = config.arch_crate.as_str();
    let mut code = instance_header(instance);
    code.append(accessor_open(name, instance.base_address).as_str());
    code.append(reset_table(name, &instance.reset_values).as_str());
    code.append(ownership_flag(name).as_str());
    code.append(take_code(name, arch_crate).as_str());
    code.append(release_code(name, arch_crate).as_str());
    code.append(steal_code(name).as_str());
    code.append(conjure_code(name).as_str());
    code.append("}\n\n");
    code.append(raw_pointer(name, instance.base_address).as_str());
    code
}

} // verus!
