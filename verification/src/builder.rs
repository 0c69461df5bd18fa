//! Construction of the canonical model from a device description.
//!
//! Peripherals with the same register layout share one shape; every
//! peripheral becomes an instance of its shape. The first peripheral with a
//! layout gives the shape its name and description.

use vstd::prelude::*;
use vstd::string::*;
use crate::consistency::{
    bad_field, bad_peripheral, bad_register, first_bad_field, first_bad_peripheral,
    first_bad_register, register_consistent, tree_consistent,
};
use crate::layout::{layout, layouts_match, same_layout};
use crate::model::{
    field_specs, instance_specs, optional_text, register_specs, reset_specs, shape_specs,
    standard_width, standard_width_of, AccessProperties, BitRange, DeviceModel, FieldDef,
    InstanceSpec, ModelSpec, PeripheralInstance, PeripheralShape, RegisterDef, RegisterSpec,
    ResetSpec, ResetValue, ShapeSpec,
};
use crate::names::{module_name, module_name_text};
use crate::search::{first_such, lemma_first_such, lemma_first_such_is};
use crate::tree::{
    declared_width, declared_width_of, DeviceTree, DeviceTreeSpec, FieldNode, PeripheralNode,
    PeripheralNodeSpec, RegisterNode, RegisterNodeSpec,
};

verus! {

/// What a `ModelError` says, as mathematical values.
pub enum ModelErrorSpec {
    InconsistentField { peripheral: Seq<char>, register: Seq<char>, field: Seq<char> },
    DuplicateModuleName { module_name: Seq<char> },
}

/// The error for the first field of the device, in the order of the
/// description, that reaches beyond its register.
pub open spec fn inconsistent_field(tree: DeviceTreeSpec) -> ModelErrorSpec {
    let peripheral = tree.peripherals[first_such(
        bad_peripheral(tree),
        0,
        tree.peripherals.len() as int,
    )];
    let register = peripheral.registers[first_such(
        bad_register(peripheral, tree.width),
        0,
        peripheral.registers.len() as int,
    )];
    let field = register.fields[first_such(
        bad_field(register, tree.width),
        0,
        register.fields.len() as int,
    )];
    ModelErrorSpec::InconsistentField {
        peripheral: peripheral.name,
        register: register.name,
        field: field.name,
    }
}

/// Marks the peripherals with the layout of peripheral `i`.
pub open spec fn layout_matcher(
    peripherals: Seq<PeripheralNodeSpec>,
    device_width: nat,
    i: int,
) -> spec_fn(int) -> bool {
    |k: int| same_layout(peripherals[k], peripherals[i], device_width)
}

/// The first peripheral with the layout of peripheral `i`; `i` itself where
/// none comes before it.
pub open spec fn first_with_layout(
    peripherals: Seq<PeripheralNodeSpec>,
    device_width: nat,
    i: int,
) -> int {
    first_such(layout_matcher(peripherals, device_width, i), 0, i)
}

/// The peripherals before position `n` that are the first with their
/// layout, in order: those that define a shape.
pub open spec fn shape_sources(
    peripherals: Seq<PeripheralNodeSpec>,
    device_width: nat,
    n: int,
) -> Seq<int>
    decreases n,
{
    if n <= 0 {
        Seq::empty()
    } else if first_with_layout(peripherals, device_width, n - 1) == n - 1 {
        shape_sources(peripherals, device_width, n - 1).push(n - 1)
    } else {
        shape_sources(peripherals, device_width, n - 1)
    }
}

/// The register of a shape for `register`. A declared width between two
/// standard widths is rounded up to the wider one.
pub open spec fn register_from(register: RegisterNodeSpec, device_width: nat) -> RegisterSpec {
    RegisterSpec {
        name: register.name,
        description: register.description,
        access_kind: register.access,
        bit_width: standard_width(declared_width(register, device_width)),
        fields: register.fields,
    }
}

/// The shape that `peripheral` defines.
pub open spec fn shape_from(peripheral: PeripheralNodeSpec, device_width: nat) -> ShapeSpec {
    ShapeSpec {
        name: peripheral.name,
        module_name: module_name_text(peripheral.name),
        description: peripheral.description,
        registers: Seq::new(
            peripheral.registers.len(),
            |j: int| register_from(peripheral.registers[j], device_width),
        ),
    }
}

/// The reset value of `register`.
pub open spec fn reset_from(register: RegisterNodeSpec) -> ResetSpec {
    ResetSpec { register_name: register.name, value: register.reset_value }
}

/// The instance for peripheral `i`. Its shape is the one that the first
/// peripheral with its layout defines.
pub open spec fn instance_from(
    peripherals: Seq<PeripheralNodeSpec>,
    device_width: nat,
    i: int,
) -> InstanceSpec {
    let first = first_with_layout(peripherals, device_width, i);
    InstanceSpec {
        name: peripherals[i].name,
        module_name: module_name_text(peripherals[i].name),
        shape: shape_sources(peripherals, device_width, first).len(),
        peripheral_module: module_name_text(peripherals[first].name),
        description: peripherals[i].description,
        base_address: peripherals[i].base_address,
        reset_values: Seq::new(
            peripherals[i].registers.len(),
            |j: int| reset_from(peripherals[i].registers[j]),
        ),
    }
}

/// The shapes of the device: one for each layout, in the order in which the
/// layouts first occur.
pub open spec fn shapes_from(tree: DeviceTreeSpec) -> Seq<ShapeSpec> {
    let sources = shape_sources(tree.peripherals, tree.width, tree.peripherals.len() as int);
    Seq::new(sources.len(), |s: int| shape_from(tree.peripherals[sources[s]], tree.width))
}

/// The model of the device: its shapes, and one instance for each
/// peripheral, in the order of the description.
pub open spec fn model_from(tree: DeviceTreeSpec) -> ModelSpec {
    ModelSpec {
        shapes: shapes_from(tree),
        instances: Seq::new(
            tree.peripherals.len(),
            |i: int| instance_from(tree.peripherals, tree.width, i),
        ),
    }
}

/// Marks the shapes whose module name an earlier shape has already.
pub open spec fn repeated_module(shapes: Seq<ShapeSpec>) -> spec_fn(int) -> bool {
    |b: int|
        exists|a: int|
            0 <= a < b && (#[trigger] shapes[a]).module_name == shapes[b].module_name
}

/// The first shape whose module name an earlier shape has already;
/// `shapes.len()` where the module names are distinct.
pub open spec fn first_repeated_module(shapes: Seq<ShapeSpec>) -> int {
    first_such(repeated_module(shapes), 0, shapes.len() as int)
}

/// What `build` returns for `tree`.
///
/// A field that reaches beyond its register is reported before anything
/// else; then two shapes with one module name; otherwise the model stands.
pub open spec fn build_outcome(tree: DeviceTreeSpec) -> Result<ModelSpec, ModelErrorSpec> {
    let model = model_from(tree);
    let repeated = first_repeated_module(model.shapes);
    if !tree_consistent(tree) {
        Err(inconsistent_field(tree))
    } else if repeated < model.shapes.len() {
        Err(ModelErrorSpec::DuplicateModuleName { module_name: model.shapes[repeated].module_name })
    } else {
        Ok(model)
    }
}

/// Why no model could be built from a device description.
#[derive(Clone, Debug, PartialEq, Eq)]
pub enum ModelError {
    /// A field reaches beyond the register that holds it.
    InconsistentField { peripheral: String, register: String, field: String },
    /// Two shapes would be emitted under one module name.
    DuplicateModuleName { module_name: String },
}

impl View for ModelError {
    type V = ModelErrorSpec;

    open spec fn view(&self) -> ModelErrorSpec {
        match self {
            ModelError::InconsistentField { peripheral, register, field } => {
                ModelErrorSpec::InconsistentField {
                    peripheral: peripheral@,
                    register: register@,
                    field: field@,
                }
            },
            ModelError::DuplicateModuleName { module_name } => {
                ModelErrorSpec::DuplicateModuleName { module_name: module_name@ }
            },
        }
    }
}

/// The sentence that reports `error`.
pub open spec fn error_text(error: ModelErrorSpec) -> Seq<char> {
    match error {
        ModelErrorSpec::InconsistentField { peripheral, register, field } => {
            "field "@ + field + " of register "@ + register + " of peripheral "@ + peripheral
                + " reaches beyond its register"@
        },
        ModelErrorSpec::DuplicateModuleName { module_name } => {
            "two peripheral shapes share the module name "@ + module_name
        },
    }
}

impl ModelError {
    /// Returns the sentence that reports this error.
    pub fn message(&self) -> (message: String)
        ensures
            message@ == error_text(self@),
    {
        match self {
            ModelError::InconsistentField { peripheral, register, field } => {
                let mut message = String::from_str("field ");
                message.append(field.as_str());
                message.append(" of register ");
                message.append(register.as_str());
                message.append(" of peripheral ");
                message.append(peripheral.as_str());
                message.append(" reaches beyond its register");
                message
            },
            ModelError::DuplicateModuleName { module_name } => {
                let mut message = String::from_str("two peripheral shapes share the module name ");
                message.append(module_name.as_str());
                message
            },
        }
    }
}

/// Looks for a field that reaches beyond its register, and names the first.
fn check_fields(tree: &DeviceTree) -> (error: Option<ModelError>)
    ensures
        error is None <==> tree_consistent(tree@),
        error matches Some(e) ==> e@ == inconsistent_field(tree@),
{
    let i = first_bad_peripheral(tree);
    if i == tree.peripherals.len() {
        return None;
    }
    let peripheral = &tree.peripherals[i];
    let j = first_bad_register(peripheral, tree.width);
    let register = &peripheral.registers[j];
    let k = first_bad_field(register, tree.width);
    let field = &register.fields[k];
    Some(
        ModelError::InconsistentField {
            peripheral: peripheral.name.clone(),
            register: register.name.clone(),
            field: field.name.clone(),
        },
    )
}

/// Finds the first peripheral of `tree` with the layout of peripheral `i`.
fn first_match(tree: &DeviceTree, i: usize) -> (first: usize)
    requires
        i < tree.peripherals.len(),
    ensures
        first == first_with_layout(tree@.peripherals, tree@.width, i as int),
        first <= i,
{
    let ghost pred = layout_matcher(tree@.peripherals, tree@.width, i as int);
    let mut k: usize = 0;
    while k < i
        invariant
            0 <= k <= i < tree.peripherals.len(),
            pred == layout_matcher(tree@.peripherals, tree@.width, i as int),
            forall|m: int| 0 <= m < k ==> !(#[trigger] pred(m)),
        decreases i - k,
    {
        if layouts_match(&tree.peripherals[k], &tree.peripherals[i], tree.width) {
            proof {
                lemma_first_such_is(pred, 0, i as int, k as int);
            }
            return k;
        }
        k += 1;
    }
    proof {
        lemma_first_such_is(pred, 0, i as int, i as int);
    }
    i
}

fn copy_of(value: &Option<String>) -> (copy: Option<String>)
    ensures
        optional_text(copy) == optional_text(*value),
{
    match value {
        Some(s) => Some(s.clone()),
        None => None,
    }
}

fn field_of(field: &FieldNode) -> (def: FieldDef)
    ensures
        def@ == field@,
{
    FieldDef {
        name: field.name.clone(),
        description: copy_of(&field.description),
        bit_range: BitRange { offset: field.bit_offset, width: field.bit_width },
    }
}

fn register_of(register: &RegisterNode, device_width: u32) -> (def: RegisterDef)
    ensures
        def@ == register_from(register@, device_width as nat),
{
    let mut fields: Vec<FieldDef> = Vec::new();
    let mut k: usize = 0;
    while k < register.fields.len()
        invariant
            0 <= k <= register.fields.len(),
            fields@.len() == k,
            forall|m: int| 0 <= m < k ==> (#[trigger] fields@[m])@ == register.fields@[m]@,
        decreases register.fields.len() - k,
    {
        fields.push(field_of(&register.fields[k]));
        k += 1;
    }
    assert(field_specs(fields@) =~= register@.fields);
    RegisterDef {
        name: register.name.clone(),
        description: copy_of(&register.description),
        properties: AccessProperties {
            access_kind: register.access,
            bit_width: standard_width_of(declared_width_of(register, device_width)),
        },
        fields,
    }
}

fn shape_of(peripheral: &PeripheralNode, device_width: u32) -> (shape: PeripheralShape)
    ensures
        shape@ == shape_from(peripheral@, device_width as nat),
{
    let mut registers: Vec<RegisterDef> = Vec::new();
    let mut j: usize = 0;
    while j < peripheral.registers.len()
        invariant
            0 <= j <= peripheral.registers.len(),
            registers@.len() == j,
            forall|m: int|
                0 <= m < j ==> (#[trigger] registers@[m])@ == register_from(
                    peripheral.registers@[m]@,
                    device_width as nat,
                ),
        decreases peripheral.registers.len() - j,
    {
        registers.push(register_of(&peripheral.registers[j], device_width));
        j += 1;
    }
    assert(register_specs(registers@) =~= shape_from(peripheral@, device_width as nat).registers);
    PeripheralShape {
        name: peripheral.name.clone(),
        module_name: module_name(peripheral.name.as_str()),
        description: peripheral.description.clone(),
        registers,
    }
}

fn resets_of(peripheral: &PeripheralNode) -> (resets: Vec<ResetValue>)
    ensures
        reset_specs(resets@) == Seq::new(
            peripheral@.registers.len(),
            |j: int| reset_from(peripheral@.registers[j]),
        ),
{
    let mut resets: Vec<ResetValue> = Vec::new();
    let mut j: usize = 0;
    while j < peripheral.registers.len()
        invariant
            0 <= j <= peripheral.registers.len(),
            resets@.len() == j,
            forall|m: int|
                0 <= m < j ==> (#[trigger] resets@[m])@ == reset_from(peripheral.registers@[m]@),
        decreases peripheral.registers.len() - j,
    {
        let register = &peripheral.registers[j];
        resets.push(
            ResetValue { register_name: register.name.clone(), value: register.reset_value },
        );
        j += 1;
    }
    resets
}

/// The first peripheral with the layout of peripheral `i` has that layout,
/// is the first with its own layout, and none before it has the layout.
pub proof fn lemma_first_with_layout(
    peripherals: Seq<PeripheralNodeSpec>,
    device_width: nat,
    i: int,
)
    requires
        0 <= i < peripherals.len(),
    ensures
        0 <= first_with_layout(peripherals, device_width, i) <= i,
        same_layout(
            peripherals[first_with_layout(peripherals, device_width, i)],
            peripherals[i],
            device_width,
        ),
        first_with_layout(
            peripherals,
            device_width,
            first_with_layout(peripherals, device_width, i),
        ) == first_with_layout(peripherals, device_width, i),
        forall|k: int|
            0 <= k < first_with_layout(peripherals, device_width, i) ==> !same_layout(
                #[trigger] peripherals[k],
                peripherals[i],
                device_width,
            ),
{
    let pred = layout_matcher(peripherals, device_width, i);
    lemma_first_such(pred, 0, i);
    let first = first_such(pred, 0, i);
    let again = layout_matcher(peripherals, device_width, first);
    assert forall|k: int| 0 <= k < first implies !(#[trigger] again(k)) by {
        assert(!pred(k));
    }
    lemma_first_such_is(again, 0, first, first);
    assert forall|k: int| 0 <= k < first implies !same_layout(
        #[trigger] peripherals[k],
        peripherals[i],
        device_width,
    ) by {
        assert(!pred(k));
    }
}

/// Every entry of `shape_sources` is a peripheral before `n` that is the
/// first with its layout, and stands at the position that counts the
/// entries before it.
pub proof fn lemma_shape_sources(peripherals: Seq<PeripheralNodeSpec>, device_width: nat, n: int)
    requires
        0 <= n <= peripherals.len(),
    ensures
        shape_sources(peripherals, device_width, n).len() <= n,
        forall|s: int|
            0 <= s < shape_sources(peripherals, device_width, n).len() ==> {
                let source = #[trigger] shape_sources(peripherals, device_width, n)[s];
                &&& 0 <= source < n
                &&& first_with_layout(peripherals, device_width, source) == source
                &&& shape_sources(peripherals, device_width, source).len() == s
            },
    decreases n,
{
    if n > 0 {
        lemma_shape_sources(peripherals, device_width, n - 1);
    }
}

/// A peripheral before `n` that is the first with its layout stands in
/// `shape_sources`, at the position that counts the entries before it.
pub proof fn lemma_source_position(
    peripherals: Seq<PeripheralNodeSpec>,
    device_width: nat,
    source: int,
    n: int,
)
    requires
        0 <= source < n <= peripherals.len(),
        first_with_layout(peripherals, device_width, source) == source,
    ensures
        shape_sources(peripherals, device_width, source).len() < shape_sources(
            peripherals,
            device_width,
            n,
        ).len(),
        shape_sources(peripherals, device_width, n)[shape_sources(
            peripherals,
            device_width,
            source,
        ).len() as int] == source,
    decreases n,
{
    if source < n - 1 {
        lemma_source_position(peripherals, device_width, source, n - 1);
    }
}

/// The model that `build` returns is well formed.
pub proof fn lemma_model_well_formed(tree: DeviceTreeSpec)
    requires
        build_outcome(tree) is Ok,
    ensures
        model_from(tree).wf(),
{
    let peripherals = tree.peripherals;
    let n = peripherals.len() as int;
    let model = model_from(tree);
    let sources = shape_sources(peripherals, tree.width, n);
    lemma_shape_sources(peripherals, tree.width, n);
    assert forall|s: int| 0 <= s < model.shapes.len() implies (#[trigger] model.shapes[s]).wf() by {
        let shape = model.shapes[s];
        assert forall|j: int| 0 <= j < shape.registers.len() implies (
        #[trigger] shape.registers[j]).wf() by {
            assert(register_consistent(peripherals[sources[s]].registers[j], tree.width));
        }
    }
    let repeated = repeated_module(model.shapes);
    lemma_first_such(repeated, 0, model.shapes.len() as int);
    assert forall|a: int, b: int| 0 <= a < b < model.shapes.len() implies (
    #[trigger] model.shapes[a]).module_name != (#[trigger] model.shapes[b]).module_name by {
        assert(!repeated(b));
    }
    assert forall|i: int| 0 <= i < model.instances.len() implies #[trigger] model.instance_wf(
        i,
    ) by {
        lemma_first_with_layout(peripherals, tree.width, i);
        let first = first_with_layout(peripherals, tree.width, i);
        lemma_source_position(peripherals, tree.width, first, n);
        let instance = model.instances[i];
        let shape = model.shapes[instance.shape as int];
        assert(layout(peripherals[first], tree.width).len() == layout(
            peripherals[i],
            tree.width,
        ).len());
        assert forall|j: int| 0 <= j < instance.reset_values.len() implies instance.reset_names()[j]
            == shape.register_names()[j] by {
            assert(layout(peripherals[first], tree.width)[j] == layout(
                peripherals[i],
                tree.width,
            )[j]);
        }
        assert(instance.reset_names() =~= shape.register_names());
    }
}

fn repeats_earlier(shapes: &Vec<PeripheralShape>, b: usize) -> (repeats: bool)
    requires
        b < shapes.len(),
    ensures
        repeats == repeated_module(shape_specs(shapes@))(b as int),
{
    let ghost specs = shape_specs(shapes@);
    let mut a: usize = 0;
    while a < b
        invariant
            0 <= a <= b < shapes.len(),
            specs == shape_specs(shapes@),
            forall|m: int|
                0 <= m < a ==> (#[trigger] specs[m]).module_name != specs[b as int].module_name,
        decreases b - a,
    {
        assert(specs[a as int] == shapes@[a as int]@);
        if shapes[a].module_name == shapes[b].module_name {
            return true;
        }
        a += 1;
    }
    false
}

/// Finds the first shape whose module name an earlier shape has already.
fn first_repeated(shapes: &Vec<PeripheralShape>) -> (b: usize)
    ensures
        b == first_repeated_module(shape_specs(shapes@)),
        b <= shapes.len(),
{
    let ghost pred = repeated_module(shape_specs(shapes@));
    let mut b: usize = 0;
    while b < shapes.len()
        invariant
            0 <= b <= shapes.len(),
            pred == repeated_module(shape_specs(shapes@)),
            forall|m: int| 0 <= m < b ==> !(#[trigger] pred(m)),
        decreases shapes.len() - b,
    {
        if repeats_earlier(shapes, b) {
            proof {
                lemma_first_such_is(pred, 0, shapes.len() as int, b as int);
            }
            return b;
        }
        b += 1;
    }
    proof {
        lemma_first_such_is(pred, 0, shapes.len() as int, b as int);
    }
    b
}

/// Builds the canonical model of the device that `tree` describes.
///
/// Every peripheral becomes an instance, in the order of the description;
/// peripherals with the same layout share the shape that the first of them
/// defines.
pub fn build(tree: &DeviceTree) -> (outcome: Result<DeviceModel, ModelError>)
    ensures
        match outcome {
            Ok(model) => build_outcome(tree@) == Ok::<ModelSpec, ModelErrorSpec>(model@)
                && model@.wf(),
            Err(error) => build_outcome(tree@) == Err::<ModelSpec, ModelErrorSpec>(error@),
        },
{
    match check_fields(tree) {
        Some(error) => {
            return Err(error);
        },
        None => {},
    }
    let ghost peripherals = tree@.peripherals;
    let ghost width = tree@.width;
    let n = tree.peripherals.len();
    let mut shapes: Vec<PeripheralShape> = Vec::new();
    let mut instances: Vec<PeripheralInstance> = Vec::new();
    let mut i: usize = 0;
    while i < n
        invariant
            0 <= i <= n,
            n == tree.peripherals.len(),
            peripherals == tree@.peripherals,
            width == tree@.width,
            shapes@.len() == shape_sources(peripherals, width, i as int).len(),
            forall|s: int|
                0 <= s < shapes@.len() ==> (#[trigger] shapes@[s])@ == shape_from(
                    peripherals[shape_sources(peripherals, width, i as int)[s]],
                    width,
                ),
            instances@.len() == i,
            forall|j: int|
                0 <= j < i ==> (#[trigger] instances@[j])@ == instance_from(peripherals, width, j),
        decreases n - i,
    {
        let first = first_match(tree, i);
        let peripheral = &tree.peripherals[i];
        proof {
            lemma_first_with_layout(peripherals, width, i as int);
        }
        let shape = if first == i {
            let index = shapes.len();
            shapes.push(shape_of(peripheral, tree.width));
            index
        } else {
            instances[first].shape
        };
        let resets = resets_of(peripheral);
        let instance = PeripheralInstance {
            name: peripheral.name.clone(),
            module_name: module_name(peripheral.name.as_str()),
            shape,
            peripheral_module: module_name(tree.peripherals[first].name.as_str()),
            description: peripheral.description.clone(),
            base_address: peripheral.base_address,
            reset_values: resets,
        };
        instances.push(instance);
        i += 1;
    }
    let repeated = first_repeated(&shapes);
    proof {
        assert(shape_specs(shapes@) =~= shapes_from(tree@));
        assert(instance_specs(instances@) =~= model_from(tree@).instances);
    }
    if repeated < shapes.len() {
        return Err(
            ModelError::DuplicateModuleName { module_name: shapes[repeated].module_name.clone() },
        );
    }
    proof {
        lemma_model_well_formed(tree@);
    }
    Ok(DeviceModel { shapes, instances })
}

} // verus!
