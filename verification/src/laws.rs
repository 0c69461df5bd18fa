//! What holds of the generator as a whole, stated over the models
//! of its parts.

use vstd::arithmetic::power2::pow2;
use vstd::prelude::*;
use crate::builder::{
    build_outcome, first_with_layout, lemma_first_with_layout, lemma_model_well_formed,
    lemma_shape_sources, lemma_source_position, model_from, shape_sources,
};
use crate::consistency::tree_consistent;
use crate::layout::same_layout;
use crate::config::{ConfigSpec, GeneratorConfig};
use crate::document::{
    check_outcome, document_is_safe, document_verdict, DocumentError, Verdict,
};
use crate::generate::{
    checked_outcome, document_outcome, emitted_instances, emitted_shapes, generate_outcome,
    generated_from, instance_names, kept, shape_modules, shape_names,
};
use crate::svd::{parsed_description, tree_of};
use crate::instance::{instance_text, reset_line_texts};
use crate::model::{
    integer_text, lemma_mask_fits, lemma_mask_fits_declared_type,
    lemma_mask_is_shifted_low_bits, mask_type_bits, mask_value, ModelSpec, PeripheralInstance,
    PeripheralShape,
};
use crate::peripheral::{block_entry_texts, peripheral_text, reset_entry_texts};
use crate::tree::{DeviceTree, DeviceTreeSpec};

verus! {

/// The file of a shape depends on nothing but what the shape and the
/// settings say: two emissions of equal inputs give the same text.
pub proof fn lemma_peripheral_text_is_determined(
    first: PeripheralShape,
    second: PeripheralShape,
    first_config: GeneratorConfig,
    second_config: GeneratorConfig,
)
    requires
        first@ == second@,
        first_config@ == second_config@,
    ensures
        peripheral_text(first@, first_config@) == peripheral_text(second@, second_config@),
{
}

/// The file of an instance depends on nothing but what the instance and the
/// settings say: two emissions of equal inputs give the same text.
pub proof fn lemma_instance_text_is_determined(
    first: PeripheralInstance,
    second: PeripheralInstance,
    first_config: GeneratorConfig,
    second_config: GeneratorConfig,
)
    requires
        first@ == second@,
        first_config@ == second_config@,
    ensures
        instance_text(first@, first_config@) == instance_text(second@, second_config@),
{
}

/// Two runs on equal descriptions with equal settings end alike: with the
/// same error, or with the same text in every file.
pub proof fn lemma_generation_is_determined(
    first: DeviceTree,
    second: DeviceTree,
    first_config: GeneratorConfig,
    second_config: GeneratorConfig,
)
    requires
        first@ == second@,
        first_config@ == second_config@,
    ensures
        generate_outcome(first@, first_config@) == generate_outcome(second@, second_config@),
{
}

/// Two runs on the same document with equal settings end alike.
pub proof fn lemma_generation_from_document_is_determined(
    first: &str,
    second: &str,
    first_config: GeneratorConfig,
    second_config: GeneratorConfig,
)
    requires
        first@ == second@,
        first_config@ == second_config@,
    ensures
        checked_outcome(first@, first_config@) == checked_outcome(second@, second_config@),
        document_outcome(first@, first_config@) == document_outcome(second@, second_config@),
{
}

/// A run refuses a document for the test alone: a document that passes the
/// test gets what the parser and the builder make of it, their errors
/// included.
pub proof fn lemma_generation_hands_on(xml: Seq<char>, config: ConfigSpec)
    requires
        document_is_safe(xml),
    ensures
        checked_outcome(xml, config) == document_outcome(xml, config),
{
}

/// A run succeeds on every document that passes the test, that the parser
/// takes, and from whose description a model is built; it gives the tree
/// of that description.
pub proof fn lemma_generation_succeeds(xml: Seq<char>, config: ConfigSpec)
    requires
        document_is_safe(xml),
        parsed_description(xml) is Some,
        generate_outcome(tree_of(parsed_description(xml)->Some_0), config) is Ok,
    ensures
        checked_outcome(xml, config) is Ok,
        checked_outcome(xml, config)->Ok_0 == generate_outcome(
            tree_of(parsed_description(xml)->Some_0),
            config,
        )->Ok_0,
{
}

/// A document is refused only for one of two reasons, and never for its
/// markup: a document that is followed to a fault of its markup is safe.
pub proof fn lemma_refusals(xml: Seq<char>)
    ensures
        check_outcome(xml) is Ok <==> document_is_safe(xml),
        check_outcome(xml) == Err::<(), DocumentError>(DocumentError::TooDeep)
            <==> document_verdict(xml) == Verdict::TooDeep,
        check_outcome(xml) == Err::<(), DocumentError>(DocumentError::UnsafeValue)
            <==> document_verdict(xml) == Verdict::UnsafeValue,
{
}

/// In a model that was built, every field lies within its register and no
/// register is wider than 64 bits. So the mask of every field fits into 64
/// bits, and is the value with the lowest `width` bits set, shifted left by
/// `offset` bits.
pub proof fn lemma_built_fields_fit(tree: DeviceTreeSpec, s: int, j: int, k: int)
    requires
        build_outcome(tree) is Ok,
        0 <= s < model_from(tree).shapes.len(),
        0 <= j < model_from(tree).shapes[s].registers.len(),
        0 <= k < model_from(tree).shapes[s].registers[j].fields.len(),
    ensures
        ({
            let register = model_from(tree).shapes[s].registers[j];
            let field = register.fields[k];
            &&& field.offset + field.width <= register.bit_width <= 64
            &&& mask_value(field.offset, field.width) <= u64::MAX
            &&& field.width < 64 && field.offset < 64 ==> mask_value(field.offset, field.width) == (
            (((1u64 << (field.width as u64)) - 1) as u64) << (field.offset as u64))
        }),
{
    lemma_model_well_formed(tree);
    let shape = model_from(tree).shapes[s];
    let register = shape.registers[j];
    let field = register.fields[k];
    lemma_mask_fits(field.offset, field.width);
    if field.width < 64 && field.offset < 64 {
        lemma_mask_is_shifted_low_bits(field.offset as u64, field.width as u64);
    }
}

/// In a model that was built, the mask of every field fits into the
/// integer type in which the emitted constant `mask` is declared: into 32
/// bits where the declaration says `u32`, and into 64 bits where it says
/// `u64`.
pub proof fn lemma_built_masks_fit_declared_type(tree: DeviceTreeSpec, s: int, j: int, k: int)
    requires
        build_outcome(tree) is Ok,
        0 <= s < model_from(tree).shapes.len(),
        0 <= j < model_from(tree).shapes[s].registers.len(),
        0 <= k < model_from(tree).shapes[s].registers[j].fields.len(),
    ensures
        ({
            let field = model_from(tree).shapes[s].registers[j].fields[k];
            let bits = mask_type_bits(field.offset, field.width);
            &&& bits == 32 || bits == 64
            &&& integer_text(bits) == if bits == 32 {
                "u32"@
            } else {
                "u64"@
            }
            &&& mask_value(field.offset, field.width) < pow2(bits)
            &&& bits == 32 ==> mask_value(field.offset, field.width) <= u32::MAX
            &&& bits == 64 ==> mask_value(field.offset, field.width) <= u64::MAX
        }),
{
    lemma_built_fields_fit(tree, s, j, k);
    let field = model_from(tree).shapes[s].registers[j].fields[k];
    lemma_mask_fits_declared_type(field.offset, field.width);
}

/// A description with a field that reaches beyond its register gives no
/// model and no file.
pub proof fn lemma_inconsistent_field_is_rejected(tree: DeviceTreeSpec, config: ConfigSpec)
    requires
        !tree_consistent(tree),
    ensures
        build_outcome(tree) is Err,
        build_outcome(tree)->Err_0 is InconsistentField,
        generate_outcome(tree, config) is Err,
{
}

/// Every peripheral becomes one instance, and two peripherals are
/// instances of the same shape exactly where they have the same layout.
pub proof fn lemma_same_layout_shares_shape(tree: DeviceTreeSpec, i: int, j: int)
    requires
        0 <= i < tree.peripherals.len(),
        0 <= j < tree.peripherals.len(),
    ensures
        model_from(tree).instances.len() == tree.peripherals.len(),
        same_layout(tree.peripherals[i], tree.peripherals[j], tree.width) <==> model_from(
            tree,
        ).instances[i].shape == model_from(tree).instances[j].shape,
{
    let peripherals = tree.peripherals;
    let width = tree.width;
    lemma_first_with_layout(peripherals, width, i);
    lemma_first_with_layout(peripherals, width, j);
    let first_i = first_with_layout(peripherals, width, i);
    let first_j = first_with_layout(peripherals, width, j);
    if first_i < first_j {
        lemma_source_position(peripherals, width, first_i, first_j);
    } else if first_j < first_i {
        lemma_source_position(peripherals, width, first_j, first_i);
    }
}

/// No two shapes of the model have the same layout: each layout of the
/// device has exactly one shape.
pub proof fn lemma_one_shape_for_each_layout(tree: DeviceTreeSpec, a: int, b: int)
    requires
        0 <= a < b < model_from(tree).shapes.len(),
    ensures
        ({
            let sources = shape_sources(
                tree.peripherals,
                tree.width,
                tree.peripherals.len() as int,
            );
            &&& 0 <= sources[a] < sources[b] < tree.peripherals.len()
            &&& !same_layout(
                tree.peripherals[sources[a]],
                tree.peripherals[sources[b]],
                tree.width,
            )
        }),
{
    let peripherals = tree.peripherals;
    let n = peripherals.len() as int;
    let sources = shape_sources(peripherals, tree.width, n);
    lemma_shape_sources(peripherals, tree.width, n);
    let low = sources[a];
    let high = sources[b];
    if low >= high {
        if low > high {
            lemma_source_position(peripherals, tree.width, high, low);
        }
    }
    lemma_first_with_layout(peripherals, tree.width, high);
}

/// The reset table of an instance lists the registers of its shape, in the
/// order of the register block.
pub proof fn lemma_reset_table_follows_register_block(model: ModelSpec, i: int)
    requires
        model.wf(),
        0 <= i < model.instances.len(),
    ensures
        ({
            let instance = model.instances[i];
            let shape = model.shapes[instance.shape as int];
            &&& instance.shape < model.shapes.len()
            &&& reset_line_texts(instance.reset_values).len() == block_entry_texts(
                shape.registers,
            ).len()
            &&& reset_line_texts(instance.reset_values).len() == reset_entry_texts(
                shape.registers,
            ).len()
            &&& forall|j: int|
                0 <= j < shape.registers.len() ==> (
                #[trigger] instance.reset_values[j]).register_name == shape.registers[j].name
        }),
{
    assert(model.instance_wf(i));
    let instance = model.instances[i];
    let shape = model.shapes[instance.shape as int];
    assert(instance.reset_names().len() == shape.register_names().len());
    assert forall|j: int| 0 <= j < shape.registers.len() implies (
    #[trigger] instance.reset_values[j]).register_name == shape.registers[j].name by {
        assert(instance.reset_names()[j] == shape.register_names()[j]);
    }
}

/// The positions that `kept` lists lie before `n`, ascend, and hold names
/// that are not ignored; every such position is listed.
pub proof fn lemma_kept(names: Seq<Seq<char>>, ignore: Set<Seq<char>>, n: int)
    requires
        0 <= n <= names.len(),
    ensures
        forall|s: int|
            0 <= s < kept(names, ignore, n).len() ==> {
                let position = #[trigger] kept(names, ignore, n)[s];
                &&& 0 <= position < n
                &&& !ignore.contains(names[position])
            },
        forall|s: int, t: int|
            0 <= s < t < kept(names, ignore, n).len() ==> (#[trigger] kept(names, ignore, n)[s])
                < (#[trigger] kept(names, ignore, n)[t]),
        forall|position: int|
            0 <= position < n && !ignore.contains(#[trigger] names[position]) ==> kept(
                names,
                ignore,
                n,
            ).contains(position),
    decreases n,
{
    if n > 0 {
        lemma_kept(names, ignore, n - 1);
        let before = kept(names, ignore, n - 1);
        let all = kept(names, ignore, n);
        assert forall|position: int|
            0 <= position < n && !ignore.contains(#[trigger] names[position]) implies all.contains(
            position,
        ) by {
            if position < n - 1 {
                let s = choose|s: int| 0 <= s < before.len() && before[s] == position;
                assert(all[s] == position);
            } else {
                assert(all[all.len() - 1] == position);
            }
        }
    }
}

/// Nothing is emitted for an ignored name: no shape and no instance with
/// that name has an artifact, each index and each list of the metadata
/// holds one entry for each emitted item and no other, and the list of
/// instance names does not hold the name.
pub proof fn lemma_ignored_names_are_left_out(
    model: ModelSpec,
    device_name: Seq<char>,
    config: ConfigSpec,
    name: Seq<char>,
)
    requires
        config.ignore.contains(name),
    ensures
        forall|s: int|
            0 <= s < emitted_shapes(model, config).len() ==> (#[trigger] emitted_shapes(
                model,
                config,
            )[s]).name != name,
        forall|s: int|
            0 <= s < emitted_instances(model, config).len() ==> (#[trigger] emitted_instances(
                model,
                config,
            )[s]).name != name,
        generated_from(model, device_name, config).peripherals.len() == emitted_shapes(
            model,
            config,
        ).len(),
        generated_from(model, device_name, config).instances.len() == emitted_instances(
            model,
            config,
        ).len(),
        !instance_names(emitted_instances(model, config)).contains(name),
{
    lemma_kept(shape_names(model.shapes), config.ignore, model.shapes.len() as int);
    lemma_kept(instance_names(model.instances), config.ignore, model.instances.len() as int);
}

/// In a well-formed model, the module of an ignored shape stands in no
/// index and in no list: no emitted shape has its module name.
pub proof fn lemma_ignored_shape_module_is_left_out(model: ModelSpec, config: ConfigSpec, k: int)
    requires
        model.wf(),
        0 <= k < model.shapes.len(),
        config.ignore.contains(model.shapes[k].name),
    ensures
        !shape_modules(emitted_shapes(model, config)).contains(model.shapes[k].module_name),
{
    lemma_kept(shape_names(model.shapes), config.ignore, model.shapes.len() as int);
}

} // verus!
