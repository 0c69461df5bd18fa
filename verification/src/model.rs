//! The canonical device model: peripheral shapes and their instances.

use vstd::prelude::*;
use vstd::arithmetic::power2::*;
use vstd::bits::*;

verus! {

/// How software may access a register.
#[derive(Clone, Copy, Debug, PartialEq, Eq, Structural)]
pub enum AccessKind {
    ReadOnly,
    WriteOnly,
    ReadWrite,
}

impl AccessKind {
    /// The name of the access wrapper type for this kind of access.
    pub open spec fn wrapper_text(self) -> Seq<char> {
        match self {
            AccessKind::ReadOnly => "RORegister"@,
            AccessKind::WriteOnly => "WORegister"@,
            AccessKind::ReadWrite => "RWRegister"@,
        }
    }

    /// Returns the name of the access wrapper type for this kind of access.
    pub fn access_type_name(&self) -> (name: &'static str)
        ensures
            name@ == self.wrapper_text(),
    {
        match self {
            AccessKind::ReadOnly => "RORegister",
            AccessKind::WriteOnly => "WORegister",
            AccessKind::ReadWrite => "RWRegister",
        }
    }
}

/// The narrowest of the widths 8, 16, 32 and 64 that holds `bits` bits;
/// 64 where none does.
pub open spec fn standard_width(bits: nat) -> nat {
    if bits <= 8 {
        8
    } else if bits <= 16 {
        16
    } else if bits <= 32 {
        32
    } else {
        64
    }
}

/// Whether `bits` is one of the widths 8, 16, 32 and 64.
pub open spec fn is_standard_width(bits: nat) -> bool {
    bits == 8 || bits == 16 || bits == 32 || bits == 64
}

/// Returns the narrowest standard width that holds `bits` bits; 64 where
/// none does.
pub fn standard_width_of(bits: u32) -> (width: u32)
    ensures
        width == standard_width(bits as nat),
{
    if bits <= 8 {
        8
    } else if bits <= 16 {
        16
    } else if bits <= 32 {
        32
    } else {
        64
    }
}

/// The name of the unsigned integer type that holds `bits` bits.
pub open spec fn integer_text(bits: nat) -> Seq<char> {
    if bits <= 8 {
        "u8"@
    } else if bits <= 16 {
        "u16"@
    } else if bits <= 32 {
        "u32"@
    } else {
        "u64"@
    }
}

/// Access kind and width of a register.
#[derive(Clone, Copy, Debug, PartialEq, Eq, Structural)]
pub struct AccessProperties {
    pub access_kind: AccessKind,
    pub bit_width: u32,
}

impl AccessProperties {
    /// Returns the name of the access wrapper type of the register.
    pub fn access_type_name(&self) -> (name: &'static str)
        ensures
            name@ == self.access_kind.wrapper_text(),
    {
        self.access_kind.access_type_name()
    }

    /// Returns the name of the unsigned integer type that holds the
    /// register. A width between two standard widths takes the wider type.
    pub fn size_type_name(&self) -> (name: &'static str)
        ensures
            name@ == integer_text(self.bit_width as nat),
    {
        if self.bit_width <= 8 {
            "u8"
        } else if self.bit_width <= 16 {
            "u16"
        } else if self.bit_width <= 32 {
            "u32"
        } else {
            "u64"
        }
    }
}

/// The value with the lowest `width` bits set, as far as 64 bits reach.
pub open spec fn low_bits(width: nat) -> nat {
    if width >= 64 {
        0xffff_ffff_ffff_ffff
    } else {
        (pow2(width) - 1) as nat
    }
}

/// The mask of a field of `width` bits whose lowest bit is bit `offset`.
pub open spec fn mask_value(offset: nat, width: nat) -> nat {
    low_bits(width) * pow2(offset)
}

/// The width of the integer type in which the mask of a field is declared:
/// 32 bits where the field ends at or below bit 32, and 64 bits beyond.
pub open spec fn mask_type_bits(offset: nat, width: nat) -> nat {
    if offset + width > 32 {
        64
    } else {
        32
    }
}

/// Position of a field in its register.
#[derive(Clone, Copy, Debug, PartialEq, Eq, Structural)]
pub struct BitRange {
    /// Number of the lowest bit of the field.
    pub offset: u32,
    /// Number of bits of the field.
    pub width: u32,
}

impl BitRange {
    /// Whether the field lies within a register of `bit_width` bits.
    pub open spec fn fits(self, bit_width: nat) -> bool {
        self.offset + self.width <= bit_width
    }

    /// Returns the mask of the field before it is shifted to its offset: the
    /// lowest `width` bits set.
    pub fn unshifted_mask(&self) -> (mask: u64)
        ensures
            mask == low_bits(self.width as nat),
    {
        if self.width >= 64 {
            u64::MAX
        } else {
            let width: u64 = self.width as u64;
            proof {
                lemma_shift_is_power(width);
            }
            (1u64 << width) - 1
        }
    }

    /// Returns the name of the integer type in which the mask of the field
    /// is declared.
    pub fn mask_type_name(&self) -> (name: &'static str)
        ensures
            name@ == integer_text(mask_type_bits(self.offset as nat, self.width as nat)),
    {
        if self.offset as u64 + self.width as u64 > 32 {
            "u64"
        } else {
            "u32"
        }
    }

    /// Returns the mask of the field: `width` bits set, the lowest of them
    /// bit `offset`.
    pub fn mask(&self) -> (mask: u64)
        requires
            self.fits(64),
        ensures
            mask == mask_value(self.offset as nat, self.width as nat),
    {
        let low = self.unshifted_mask();
        if self.offset >= 64 {
            proof {
                lemma2_to64();
                assert(low_bits(self.width as nat) * pow2(self.offset as nat) == 0)
                    by (nonlinear_arith)
                    requires
                        low_bits(self.width as nat) == 0,
                ;
            }
            0
        } else {
            let offset: u64 = self.offset as u64;
            proof {
                lemma_mask_fits(self.offset as nat, self.width as nat);
                lemma_u64_shl_is_mul(low, offset);
            }
            low << offset
        }
    }
}

/// Shifting one to the left by `width` bits gives two to the power `width`.
pub proof fn lemma_shift_is_power(width: u64)
    requires
        width < 64,
    ensures
        (1u64 << width) == pow2(width as nat),
        1 <= pow2(width as nat) <= 0x8000_0000_0000_0000,
{
    lemma_u64_pow2_no_overflow(width as nat);
    lemma_u64_shl_is_mul(1, width);
    lemma_pow2_pos(width as nat);
    lemma2_to64_rest();
    if width < 63 {
        lemma_pow2_strictly_increases(width as nat, 63);
    }
}

/// The mask of a field is its lowest `width` bits set and then shifted left
/// by `offset` bits, computed in 64 bits.
pub proof fn lemma_mask_is_shifted_low_bits(offset: u64, width: u64)
    requires
        offset + width <= 64,
        width < 64,
        offset < 64,
    ensures
        mask_value(offset as nat, width as nat) == ((((1u64 << width) - 1) as u64) << offset),
        mask_value(offset as nat, width as nat) <= u64::MAX,
{
    lemma_shift_is_power(width);
    lemma_mask_fits(offset as nat, width as nat);
    let low = ((1u64 << width) - 1) as u64;
    lemma_u64_shl_is_mul(low, offset);
}

/// The mask of a field that lies within 64 bits fits into 64 bits.
pub proof fn lemma_mask_fits(offset: nat, width: nat)
    requires
        offset + width <= 64,
    ensures
        mask_value(offset, width) <= u64::MAX,
        mask_value(offset, width) == pow2(offset + width) - pow2(offset),
{
    lemma_pow2_adds(width, offset);
    lemma_pow2_pos(offset);
    lemma2_to64();
    lemma2_to64_rest();
    if offset + width < 64 {
        lemma_pow2_strictly_increases(offset + width, 64);
    }
    if width < 64 {
        assert((pow2(width) - 1) * pow2(offset) == pow2(width) * pow2(offset) - pow2(offset))
            by (nonlinear_arith);
    }
}

/// The mask of a field that lies within 64 bits fits into the integer type
/// in which it is declared.
pub proof fn lemma_mask_fits_declared_type(offset: nat, width: nat)
    requires
        offset + width <= 64,
    ensures
        mask_value(offset, width) < pow2(mask_type_bits(offset, width)),
        mask_type_bits(offset, width) == 32 ==> mask_value(offset, width) <= u32::MAX,
        mask_type_bits(offset, width) == 64 ==> mask_value(offset, width) <= u64::MAX,
{
    lemma_mask_fits(offset, width);
    lemma_pow2_pos(offset);
    lemma2_to64();
    lemma2_to64_rest();
    if offset + width < 32 {
        lemma_pow2_strictly_increases(offset + width, 32);
    }
}

/// The text of an optional string.
pub open spec fn optional_text(value: Option<String>) -> Option<Seq<char>> {
    match value {
        Some(s) => Some(s@),
        None => None,
    }
}

/// What a `FieldDef` says, as mathematical values.
pub struct FieldSpec {
    pub name: Seq<char>,
    pub description: Option<Seq<char>>,
    pub offset: nat,
    pub width: nat,
}

/// A bit field of a register.
#[derive(Clone, Debug, PartialEq, Eq)]
pub struct FieldDef {
    pub name: String,
    pub description: Option<String>,
    pub bit_range: BitRange,
}

impl View for FieldDef {
    type V = FieldSpec;

    open spec fn view(&self) -> FieldSpec {
        FieldSpec {
            name: self.name@,
            description: optional_text(self.description),
            offset: self.bit_range.offset as nat,
            width: self.bit_range.width as nat,
        }
    }
}

/// What each field of `fields` says, in order.
pub open spec fn field_specs(fields: Seq<FieldDef>) -> Seq<FieldSpec> {
    fields.map_values(|f: FieldDef| f@)
}

/// What a `RegisterDef` says, as mathematical values.
pub struct RegisterSpec {
    pub name: Seq<char>,
    pub description: Option<Seq<char>>,
    pub access_kind: AccessKind,
    pub bit_width: nat,
    pub fields: Seq<FieldSpec>,
}

impl RegisterSpec {
    /// The width is a standard one and every field lies within it.
    pub open spec fn wf(self) -> bool {
        &&& is_standard_width(self.bit_width)
        &&& forall|k: int|
            0 <= k < self.fields.len() ==> (#[trigger] self.fields[k]).offset
                + self.fields[k].width <= self.bit_width
    }
}

/// A register of a peripheral.
#[derive(Clone, Debug, PartialEq, Eq)]
pub struct RegisterDef {
    pub name: String,
    pub description: Option<String>,
    pub properties: AccessProperties,
    pub fields: Vec<FieldDef>,
}

impl View for RegisterDef {
    type V = RegisterSpec;

    open spec fn view(&self) -> RegisterSpec {
        RegisterSpec {
            name: self.name@,
            description: optional_text(self.description),
            access_kind: self.properties.access_kind,
            bit_width: self.properties.bit_width as nat,
            fields: field_specs(self.fields@),
        }
    }
}

/// What each register of `registers` says, in order.
pub open spec fn register_specs(registers: Seq<RegisterDef>) -> Seq<RegisterSpec> {
    registers.map_values(|r: RegisterDef| r@)
}

/// What a `PeripheralShape` says, as mathematical values.
pub struct ShapeSpec {
    pub name: Seq<char>,
    pub module_name: Seq<char>,
    pub description: Seq<char>,
    pub registers: Seq<RegisterSpec>,
}

impl ShapeSpec {
    /// Every register is well formed.
    pub open spec fn wf(self) -> bool {
        forall|j: int| 0 <= j < self.registers.len() ==> (#[trigger] self.registers[j]).wf()
    }

    /// The names of the registers, in the order of the register block.
    pub open spec fn register_names(self) -> Seq<Seq<char>> {
        Seq::new(self.registers.len(), |j: int| self.registers[j].name)
    }
}

/// A register layout that one or more peripherals of the device share.
#[derive(Clone, Debug, PartialEq, Eq)]
pub struct PeripheralShape {
    /// Name of the first peripheral that has this layout.
    pub name: String,
    /// Name of the module that holds the emitted types.
    pub module_name: String,
    pub description: String,
    /// The registers, in the order of their addresses.
    pub registers: Vec<RegisterDef>,
}

impl View for PeripheralShape {
    type V = ShapeSpec;

    open spec fn view(&self) -> ShapeSpec {
        ShapeSpec {
            name: self.name@,
            module_name: self.module_name@,
            description: self.description@,
            registers: register_specs(self.registers@),
        }
    }
}

/// What each shape of `shapes` says, in order.
pub open spec fn shape_specs(shapes: Seq<PeripheralShape>) -> Seq<ShapeSpec> {
    shapes.map_values(|s: PeripheralShape| s@)
}

/// What a `ResetValue` says, as mathematical values.
pub struct ResetSpec {
    pub register_name: Seq<char>,
    pub value: nat,
}

/// Content of one register after a reset of the device.
#[derive(Clone, Debug, PartialEq, Eq)]
pub struct ResetValue {
    pub register_name: String,
    pub value: u64,
}

impl View for ResetValue {
    type V = ResetSpec;

    open spec fn view(&self) -> ResetSpec {
        ResetSpec { register_name: self.register_name@, value: self.value as nat }
    }
}

/// What each reset value of `values` says, in order.
pub open spec fn reset_specs(values: Seq<ResetValue>) -> Seq<ResetSpec> {
    values.map_values(|v: ResetValue| v@)
}

/// What a `PeripheralInstance` says, as mathematical values.
pub struct InstanceSpec {
    pub name: Seq<char>,
    pub module_name: Seq<char>,
    pub shape: nat,
    pub peripheral_module: Seq<char>,
    pub description: Seq<char>,
    pub base_address: nat,
    pub reset_values: Seq<ResetSpec>,
}

impl InstanceSpec {
    /// The names of the registers of the reset table, in its order.
    pub open spec fn reset_names(self) -> Seq<Seq<char>> {
        Seq::new(self.reset_values.len(), |j: int| self.reset_values[j].register_name)
    }
}

/// One peripheral of the device: a shape bound to an address.
#[derive(Clone, Debug, PartialEq, Eq)]
pub struct PeripheralInstance {
    pub name: String,
    /// Name of the module that holds the emitted accessors.
    pub module_name: String,
    /// Index, among the shapes of the model, of the shape of this instance.
    pub shape: usize,
    /// Module name of the shape of this instance.
    pub peripheral_module: String,
    pub description: String,
    pub base_address: u64,
    /// One reset value for each register of the shape, in the same order.
    pub reset_values: Vec<ResetValue>,
}

impl View for PeripheralInstance {
    type V = InstanceSpec;

    open spec fn view(&self) -> InstanceSpec {
        InstanceSpec {
            name: self.name@,
            module_name: self.module_name@,
            shape: self.shape as nat,
            peripheral_module: self.peripheral_module@,
            description: self.description@,
            base_address: self.base_address as nat,
            reset_values: reset_specs(self.reset_values@),
        }
    }
}

/// What each instance of `instances` says, in order.
pub open spec fn instance_specs(instances: Seq<PeripheralInstance>) -> Seq<InstanceSpec> {
    instances.map_values(|i: PeripheralInstance| i@)
}

/// What a `DeviceModel` says, as mathematical values.
pub struct ModelSpec {
    pub shapes: Seq<ShapeSpec>,
    pub instances: Seq<InstanceSpec>,
}

impl ModelSpec {
    /// Instance `i` names a shape of the model, by index and by module name,
    /// and lists a reset value for each register of it, in the same order.
    pub open spec fn instance_wf(self, i: int) -> bool {
        let instance = self.instances[i];
        &&& instance.shape < self.shapes.len()
        &&& instance.peripheral_module == self.shapes[instance.shape as int].module_name
        &&& instance.reset_names() == self.shapes[instance.shape as int].register_names()
    }

    /// Every shape is well formed, no two shapes share a module name, and
    /// every instance fits its shape.
    pub open spec fn wf(self) -> bool {
        &&& forall|k: int| 0 <= k < self.shapes.len() ==> (#[trigger] self.shapes[k]).wf()
        &&& forall|a: int, b: int|
            0 <= a < b < self.shapes.len() ==> (#[trigger] self.shapes[a]).module_name
                != (#[trigger] self.shapes[b]).module_name
        &&& forall|i: int| 0 <= i < self.instances.len() ==> #[trigger] self.instance_wf(i)
    }
}

/// The canonical model of a device.
#[derive(Clone, Debug, PartialEq, Eq)]
pub struct DeviceModel {
    /// One entry for each distinct register layout, in the order in which
    /// the layouts first occur.
    pub shapes: Vec<PeripheralShape>,
    /// One entry for each peripheral of the device, in its order.
    pub instances: Vec<PeripheralInstance>,
}

impl View for DeviceModel {
    type V = ModelSpec;

    open spec fn view(&self) -> ModelSpec {
        ModelSpec {
            shapes: shape_specs(self.shapes@),
            instances: instance_specs(self.instances@),
        }
    }
}

} // verus!
