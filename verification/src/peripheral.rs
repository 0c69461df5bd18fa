//! Emission of the types of one peripheral shape: the constants of every
//! field, the register block, the table of reset values and the handle.

use vstd::prelude::*;
use vstd::string::*;
use crate::config::{ConfigSpec, GeneratorConfig};
use crate::model::{
    integer_text, low_bits, mask_type_bits, optional_text, register_specs, AccessKind, FieldDef,
    FieldSpec, PeripheralShape, RegisterDef, RegisterSpec, ShapeSpec,
};
use crate::text::{
    append_decimal, append_hex, build_doc_comment, decimal_text, doc_comment_text, hex_text,
    indent, indent_text, join, join_text, texts,
};

verus! {

/// The comment lines for an optional description; nothing without one.
pub open spec fn optional_doc_text(prefix: Seq<char>, description: Option<Seq<char>>) -> Seq<
    char,
> {
    match description {
        Some(d) => doc_comment_text(prefix, d),
        None => Seq::empty(),
    }
}

/// The module of constants of one field, not yet indented.
///
/// The constant `mask` is written as the lowest `width` bits, in
/// hexadecimal, shifted left by the constant `offset`. It is declared as a
/// 32-bit integer where the field ends at or below bit 32, and as a 64-bit
/// integer beyond, so that the type holds the mask of every field that lies
/// within 64 bits.
pub open spec fn field_module_text(field: FieldSpec) -> Seq<char> {
    let low = hex_text(low_bits(field.width));
    let offset = decimal_text(field.offset);
    optional_doc_text("///"@, field.description) + "pub mod "@ + field.name + " {\n"@
        + "    /// Offset ("@ + offset + " bits)\n"@ + "    pub const offset: u32 = "@ + offset
        + ";\n"@ + "\n    /// Mask ("@ + decimal_text(field.width) + " bit: "@ + low + " << "@
        + offset + ")\n    pub const mask: "@ + integer_text(
        mask_type_bits(field.offset, field.width),
    ) + " = "@ + low + " << offset;\n"@
        + "
    /// Read-only values (empty)
    pub mod R {}
    /// Write-only values (empty)
    pub mod W {}
    /// Read-write values (empty)
    pub mod RW {}

"@
        + "}\n"@
}

/// The module of constants of one field, as it stands inside the module of
/// its register.
pub open spec fn field_text(field: FieldSpec) -> Seq<char> {
    indent_text(field_module_text(field), 1)
}

fn optional_doc(prefix: &str, description: &Option<String>) -> (doc: String)
    ensures
        doc@ == optional_doc_text(prefix@, optional_text(*description)),
{
    match description {
        Some(d) => build_doc_comment(prefix, d.as_str()),
        None => String::new(),
    }
}

impl FieldDef {
    /// Emits the module of constants of this field.
    pub fn generate_code(&self) -> (code: String)
        ensures
            code@ == field_text(self@),
    {
        let low = self.bit_range.unshifted_mask();
        let offset = self.bit_range.offset as u64;
        let mut code = optional_doc("///", &self.description);
        code.append("pub mod ");
        code.append(self.name.as_str());
        code.append(" {\n");
        code.append("    /// Offset (");
        append_decimal(&mut code, offset);
        code.append(" bits)\n");
        code.append("    pub const offset: u32 = ");
        append_decimal(&mut code, offset);
        code.append(";\n");
        code.append("\n    /// Mask (");
        append_decimal(&mut code, self.bit_range.width as u64);
        code.append(" bit: ");
        append_hex(&mut code, low);
        code.append(" << ");
        append_decimal(&mut code, offset);
        code.append(")\n    pub const mask: ");
        code.append(self.bit_range.mask_type_name());
        code.append(" = ");
        append_hex(&mut code, low);
        code.append(" << offset;\n");
        code.append(
            "
    /// Read-only values (empty)
    pub mod R {}
    /// Write-only values (empty)
    pub mod W {}
    /// Read-write values (empty)
    pub mod RW {}

",
        );
        code.append("}\n");
        indent(code.as_str(), 1)
    }
}

/// The modules of constants of `fields`, in order.
pub open spec fn field_texts(fields: Seq<FieldSpec>) -> Seq<Seq<char>> {
    Seq::new(fields.len(), |k: int| field_text(fields[k]))
}

/// The module of one register: the modules of its fields, a line feed
/// between each two of them.
pub open spec fn register_module_text(register: RegisterSpec) -> Seq<char> {
    optional_doc_text("///"@, register.description) + "pub mod "@ + register.name + " {\n"@
        + join_text(field_texts(register.fields), "\n"@) + "}\n"@
}

/// The member of the register block for one register: its access wrapper
/// over the integer type of its width.
pub open spec fn block_entry_text(register: RegisterSpec) -> Seq<char> {
    optional_doc_text("    ///"@, register.description) + "    pub "@ + register.name + ": "@
        + register.access_kind.wrapper_text() + "<"@ + integer_text(register.bit_width)
        + ">,\n"@
}

/// The member of the table of reset values for one register: the plain
/// integer type of its width.
pub open spec fn reset_entry_text(register: RegisterSpec) -> Seq<char> {
    "    pub "@ + register.name + ": "@ + integer_text(register.bit_width) + ","@
}

/// The modules of `registers`, in order.
pub open spec fn register_module_texts(registers: Seq<RegisterSpec>) -> Seq<Seq<char>> {
    Seq::new(registers.len(), |j: int| register_module_text(registers[j]))
}

/// The members of the register block for `registers`, in order.
pub open spec fn block_entry_texts(registers: Seq<RegisterSpec>) -> Seq<Seq<char>> {
    Seq::new(registers.len(), |j: int| block_entry_text(registers[j]))
}

/// The members of the table of reset values for `registers`, in order.
pub open spec fn reset_entry_texts(registers: Seq<RegisterSpec>) -> Seq<Seq<char>> {
    Seq::new(registers.len(), |j: int| reset_entry_text(registers[j]))
}

/// Whether one of `registers` is accessed in the way `kind`.
pub open spec fn uses_access(registers: Seq<RegisterSpec>, kind: AccessKind) -> bool {
    exists|j: int| 0 <= j < registers.len() && (#[trigger] registers[j]).access_kind == kind
}

/// The names of the access wrapper types that `registers` use, each once,
/// in alphabetical order.
pub open spec fn used_wrappers(registers: Seq<RegisterSpec>) -> Seq<Seq<char>> {
    let read_only: Seq<Seq<char>> = if uses_access(registers, AccessKind::ReadOnly) {
        seq![AccessKind::ReadOnly.wrapper_text()]
    } else {
        Seq::empty()
    };
    let read_write: Seq<Seq<char>> = if uses_access(registers, AccessKind::ReadWrite) {
        seq![AccessKind::ReadWrite.wrapper_text()]
    } else {
        Seq::empty()
    };
    let write_only: Seq<Seq<char>> = if uses_access(registers, AccessKind::WriteOnly) {
        seq![AccessKind::WriteOnly.wrapper_text()]
    } else {
        Seq::empty()
    };
    read_only + read_write + write_only
}

/// The source file of one peripheral shape.
///
/// The members of the register block and of the table of reset values
/// follow the order of the registers of the shape. Only the access wrapper
/// types that the shape uses are imported.
pub open spec fn peripheral_text(shape: ShapeSpec, config: ConfigSpec) -> Seq<char> {
    "#![allow(non_snake_case, non_upper_case_globals)]\n"@ + "#![allow(non_camel_case_types)]\n"@
        + doc_comment_text("//!"@, shape.description) + "\n"@ + "use ral_registers::{"@
        + join_text(used_wrappers(shape.registers), ", "@) + "};\n"@
        + "use core::marker::PhantomData;\n\n"@ + join_text(
        register_module_texts(shape.registers),
        "\n"@,
    ) + "\n"@ + "pub struct RegisterBlock {\n"@ + join_text(
        block_entry_texts(shape.registers),
        "\n"@,
    ) + "}\n\n"@ + "pub struct ResetValues {\n"@ + join_text(
        reset_entry_texts(shape.registers),
        "\n"@,
    ) + "\n"@ + "}\n"@ + "\npub struct Instance {\n    pub(crate) addr: "@
        + config.address_size.integer_type_text()
        + ",
    pub(crate) _marker: PhantomData<*const RegisterBlock>,
}

impl ::core::ops::Deref for Instance {
    type Target = RegisterBlock;
    #[inline(always)]
    fn deref(&self) -> &RegisterBlock {
        unsafe { &*(self.addr as *const _) }
    }
}
"@
}

impl RegisterDef {
    /// Emits the module of this register, with the constants of its fields.
    pub fn module_code(&self) -> (code: String)
        ensures
            code@ == register_module_text(self@),
    {
        let mut fields: Vec<String> = Vec::new();
        let mut k: usize = 0;
        while k < self.fields.len()
            invariant
                0 <= k <= self.fields.len(),
                fields@.len() == k,
                forall|m: int|
                    0 <= m < k ==> (#[trigger] fields@[m])@ == field_text(self.fields@[m]@),
            decreases self.fields.len() - k,
        {
            fields.push(self.fields[k].generate_code());
            k += 1;
        }
        assert(texts(fields@) =~= field_texts(self@.fields));
        let mut code = optional_doc("///", &self.description);
        code.append("pub mod ");
        code.append(self.name.as_str());
        code.append(" {\n");
        code.append(join(&fields, "\n").as_str());
        code.append("}\n");
        code
    }

    /// Emits the member of the register block for this register.
    pub fn block_entry(&self) -> (code: String)
        ensures
            code@ == block_entry_text(self@),
    {
        let mut code = optional_doc("    ///", &self.description);
        code.append("    pub ");
        code.append(self.name.as_str());
        code.append(": ");
        code.append(self.properties.access_type_name());
        code.append("<");
        code.append(self.properties.size_type_name());
        code.append(">,\n");
        code
    }

    /// Emits the member of the table of reset values for this register.
    pub fn reset_entry(&self) -> (code: String)
        ensures
            code@ == reset_entry_text(self@),
    {
        let mut code = String::from_str("    pub ");
        code.append(self.name.as_str());
        code.append(": ");
        code.append(self.properties.size_type_name());
        code.append(",");
        code
    }
}

/// Collects the names of the access wrapper types that `registers` use.
fn wrappers_of(registers: &Vec<RegisterDef>) -> (names: Vec<String>)
    ensures
        texts(names@) == used_wrappers(register_specs(registers@)),
{
    let ghost specs = register_specs(registers@);
    let mut read_only = false;
    let mut read_write = false;
    let mut write_only = false;
    let mut j: usize = 0;
    while j < registers.len()
        invariant
            0 <= j <= registers.len(),
            specs == register_specs(registers@),
            read_only <==> exists|m: int|
                0 <= m < j && (#[trigger] specs[m]).access_kind == AccessKind::ReadOnly,
            read_write <==> exists|m: int|
                0 <= m < j && (#[trigger] specs[m]).access_kind == AccessKind::ReadWrite,
            write_only <==> exists|m: int|
                0 <= m < j && (#[trigger] specs[m]).access_kind == AccessKind::WriteOnly,
        decreases registers.len() - j,
    {
        assert(specs[j as int].access_kind == registers@[j as int].properties.access_kind);
        match registers[j].properties.access_kind {
            AccessKind::ReadOnly => {
                read_only = true;
            },
            AccessKind::ReadWrite => {
                read_write = true;
            },
            AccessKind::WriteOnly => {
                write_only = true;
            },
        }
        j += 1;
    }
    let mut names: Vec<String> = Vec::new();
    if read_only {
        names.push(String::from_str(AccessKind::ReadOnly.access_type_name()));
    }
    if read_write {
        names.push(String::from_str(AccessKind::ReadWrite.access_type_name()));
    }
    if write_only {
        names.push(String::from_str(AccessKind::WriteOnly.access_type_name()));
    }
    names
}

/// Emits the source file of one peripheral shape.
pub fn emit_peripheral(shape: &PeripheralShape, config: &GeneratorConfig) -> (code: String)
    ensures
        code@ == peripheral_text(shape@, config@),
{
    let mut modules: Vec<String> = Vec::new();
    let mut block: Vec<String> = Vec::new();
    let mut resets: Vec<String> = Vec::new();
    let mut j: usize = 0;
    while j < shape.registers.len()
        invariant
            0 <= j <= shape.registers.len(),
            modules@.len() == j,
            block@.len() == j,
            resets@.len() == j,
            forall|m: int|
                0 <= m < j ==> (#[trigger] modules@[m])@ == register_module_text(
                    shape.registers@[m]@,
                ),
            forall|m: int|
                0 <= m < j ==> (#[trigger] block@[m])@ == block_entry_text(shape.registers@[m]@),
            forall|m: int|
                0 <= m < j ==> (#[trigger] resets@[m])@ == reset_entry_text(shape.registers@[m]@),
        decreases shape.registers.len() - j,
    {
        let register = &shape.registers[j];
        modules.push(register.module_code());
        block.push(register.block_entry());
        resets.push(register.reset_entry());
        j += 1;
    }
    assert(texts(modules@) =~= register_module_texts(shape@.registers));
    assert(texts(block@) =~= block_entry_texts(shape@.registers));
    assert(texts(resets@) =~= reset_entry_texts(shape@.registers));
    let wrappers = wrappers_of(&shape.registers);

    let mut code = String::from_str("#![allow(non_snake_case, non_upper_case_globals)]\n");
    code.append("#![allow(non_camel_case_types)]\n");
    code.append(build_doc_comment("//!", shape.description.as_str()).as_str());
    code.append("\n");
    code.append("use ral_registers::{");
    code.append(join(&wrappers, ", ").as_str());
    code.append("};\n");
    code.append("use core::marker::PhantomData;\n\n");
    code.append(join(&modules, "\n").as_str());
    code.append("\n");
    code.append("pub struct RegisterBlock {\n");
    code.append(join(&block, "\n").as_str());
    code.append("}\n\n");
    code.append("pub struct ResetValues {\n");
    code.append(join(&resets, "\n").as_str());
    code.append("\n");
    code.append("}\n");
    code.append("\npub struct Instance {\n    pub(crate) addr: ");
    code.append(config.address_size.integer_type_name());
    code.append(
        ",
    pub(crate) _marker: PhantomData<*const RegisterBlock>,
}

impl ::core::ops::Deref for Instance {
    type Target = RegisterBlock;
    #[inline(always)]
    fn deref(&self) -> &RegisterBlock {
        unsafe { &*(self.addr as *const _) }
    }
}
",
    );
    code
}

} // verus!
