//! The whole run: from a device description to the text of every file of
//! the generated tree.
//!
//! Nothing here touches the file system; the caller writes the files.

use vstd::prelude::*;
use vstd::string::*;
use crate::builder::{build, build_outcome, ModelError, ModelErrorSpec};
use crate::config::{ConfigSpec, GeneratorConfig};
use crate::document::{check_document, check_outcome, document_is_safe, DocumentError};
use crate::instance::{emit_instance, instance_text};
use crate::model::{DeviceModel, InstanceSpec, ModelSpec, ShapeSpec};
use crate::peripheral::{emit_peripheral, peripheral_text};
use crate::svd::{parsed_description, read_document, tree_of};
use crate::text::{ascii_lowercase_text, texts, to_ascii_lowercase};
use crate::tree::{DeviceTree, DeviceTreeSpec};

verus! {

/// The positions before `n` of the names that are not ignored, in order.
pub open spec fn kept(names: Seq<Seq<char>>, ignore: Set<Seq<char>>, n: int) -> Seq<int>
    decreases n,
{
    if n <= 0 {
        Seq::empty()
    } else if ignore.contains(names[n - 1]) {
        kept(names, ignore, n - 1)
    } else {
        kept(names, ignore, n - 1).push(n - 1)
    }
}

/// The names of `shapes`, in order.
pub open spec fn shape_names(shapes: Seq<ShapeSpec>) -> Seq<Seq<char>> {
    Seq::new(shapes.len(), |k: int| shapes[k].name)
}

/// The names of `instances`, in order.
pub open spec fn instance_names(instances: Seq<InstanceSpec>) -> Seq<Seq<char>> {
    Seq::new(instances.len(), |k: int| instances[k].name)
}

/// The shapes that are emitted: those whose name is not ignored, in order.
pub open spec fn emitted_shapes(model: ModelSpec, config: ConfigSpec) -> Seq<ShapeSpec> {
    let positions = kept(shape_names(model.shapes), config.ignore, model.shapes.len() as int);
    Seq::new(positions.len(), |s: int| model.shapes[positions[s]])
}

/// The instances that are emitted: those whose name is not ignored, in
/// order.
pub open spec fn emitted_instances(model: ModelSpec, config: ConfigSpec) -> Seq<InstanceSpec> {
    let positions = kept(
        instance_names(model.instances),
        config.ignore,
        model.instances.len() as int,
    );
    Seq::new(positions.len(), |s: int| model.instances[positions[s]])
}

/// Each of `items` between `before` and `after`, one after the other.
pub open spec fn each_text(items: Seq<Seq<char>>, before: Seq<char>, after: Seq<char>) -> Seq<
    char,
>
    decreases items.len(),
{
    if items.len() == 0 {
        Seq::empty()
    } else {
        each_text(items.drop_last(), before, after) + before + items.last() + after
    }
}

/// Writes each of `items` between `before` and `after`.
pub fn wrap_each(items: &Vec<String>, before: &str, after: &str) -> (code: String)
    ensures
        code@ == each_text(texts(items@), before@, after@),
{
    let mut code = String::new();
    let mut i: usize = 0;
    while i < items.len()
        invariant
            0 <= i <= items.len(),
            code@ == each_text(texts(items@).take(i as int), before@, after@),
        decreases items.len() - i,
    {
        code.append(before);
        code.append(items[i].as_str());
        code.append(after);
        proof {
            let upto = texts(items@).take(i + 1);
            assert(upto.drop_last() =~= texts(items@).take(i as int));
        }
        i += 1;
    }
    assert(texts(items@).take(items.len() as int) =~= texts(items@));
    code
}

/// The file that lists what was emitted: the module names of the shapes,
/// the module names of the instances, and the names of the instances as the
/// description gives them, each list in the order of emission.
pub open spec fn metadata_text(
    peripheral_modules: Seq<Seq<char>>,
    instance_modules: Seq<Seq<char>>,
    instance_names: Seq<Seq<char>>,
) -> Seq<char> {
    "pub const PERIPHERAL_MODULES: &[&str] = &[\n"@ + each_text(
        peripheral_modules,
        "    \""@,
        "\",\n"@,
    ) + "];\n\n"@ + "pub const INSTANCE_MODULES: &[&str] = &[\n"@ + each_text(
        instance_modules,
        "    \""@,
        "\",\n"@,
    ) + "];\n\n"@ + "pub const INSTANCE_NAMES: &[&str] = &[\n"@ + each_text(
        instance_names,
        "    \""@,
        "\",\n"@,
    ) + "];\n"@
}

/// Emits the file that lists what was emitted.
pub fn emit_metadata(
    peripheral_modules: &Vec<String>,
    instance_modules: &Vec<String>,
    instance_names: &Vec<String>,
) -> (code: String)
    ensures
        code@ == metadata_text(
            texts(peripheral_modules@),
            texts(instance_modules@),
            texts(instance_names@),
        ),
{
    let mut code = String::from_str("pub const PERIPHERAL_MODULES: &[&str] = &[\n");
    code.append(wrap_each(peripheral_modules, "    \"", "\",\n").as_str());
    code.append("];\n\n");
    code.append("pub const INSTANCE_MODULES: &[&str] = &[\n");
    code.append(wrap_each(instance_modules, "    \"", "\",\n").as_str());
    code.append("];\n\n");
    code.append("pub const INSTANCE_NAMES: &[&str] = &[\n");
    code.append(wrap_each(instance_names, "    \"", "\",\n").as_str());
    code.append("];\n");
    code
}

/// The module file of the device: its three submodules, and a re-export of
/// the module of every emitted instance.
pub open spec fn device_module_text(instance_modules: Seq<Seq<char>>) -> Seq<char> {
    "
/// Peripherals shared by multiple devices
pub mod peripherals;

/// Peripheral instances shared by multiple devices
pub(crate) mod instances;

/// Metadata
pub mod metadata;

"@ + each_text(instance_modules, "pub use self::instances::"@, ";\n"@)
}

/// The module file of a directory: one declaration for each module.
pub open spec fn index_text(modules: Seq<Seq<char>>) -> Seq<char> {
    each_text(modules, "pub mod "@, ";\n"@)
}

/// What an `Artifact` says, as mathematical values.
pub struct ArtifactSpec {
    pub file_name: Seq<char>,
    pub content: Seq<char>,
}

/// One generated source file.
#[derive(Clone, Debug, PartialEq, Eq)]
pub struct Artifact {
    /// Name of the file within its directory.
    pub file_name: String,
    pub content: String,
}

impl View for Artifact {
    type V = ArtifactSpec;

    open spec fn view(&self) -> ArtifactSpec {
        ArtifactSpec { file_name: self.file_name@, content: self.content@ }
    }
}

/// What each artifact of `artifacts` says, in order.
pub open spec fn artifact_specs(artifacts: Seq<Artifact>) -> Seq<ArtifactSpec> {
    artifacts.map_values(|a: Artifact| a@)
}

/// The file of the module `module`.
pub open spec fn file_name_text(module: Seq<char>) -> Seq<char> {
    module + ".rs"@
}

/// The artifact for `shape`.
pub open spec fn shape_artifact(shape: ShapeSpec, config: ConfigSpec) -> ArtifactSpec {
    ArtifactSpec {
        file_name: file_name_text(shape.module_name),
        content: peripheral_text(shape, config),
    }
}

/// The artifact for `instance`.
pub open spec fn instance_artifact(instance: InstanceSpec, config: ConfigSpec) -> ArtifactSpec {
    ArtifactSpec {
        file_name: file_name_text(instance.module_name),
        content: instance_text(instance, config),
    }
}

/// What a `Generated` says, as mathematical values.
pub struct GeneratedSpec {
    pub directory: Seq<char>,
    pub module: Seq<char>,
    pub peripherals_index: Seq<char>,
    pub instances_index: Seq<char>,
    pub metadata: Seq<char>,
    pub peripherals: Seq<ArtifactSpec>,
    pub instances: Seq<ArtifactSpec>,
}

/// The generated tree of one device.
#[derive(Clone, Debug, PartialEq, Eq)]
pub struct Generated {
    /// Name of the directory of the device.
    pub directory: String,
    /// Content of `mod.rs` in the directory of the device.
    pub module: String,
    /// Content of `mod.rs` in the subdirectory `peripherals`.
    pub peripherals_index: String,
    /// Content of `mod.rs` in the subdirectory `instances`.
    pub instances_index: String,
    /// Content of `metadata.rs` in the directory of the device.
    pub metadata: String,
    /// The files of the subdirectory `peripherals`, one for each shape.
    pub peripherals: Vec<Artifact>,
    /// The files of the subdirectory `instances`, one for each instance.
    pub instances: Vec<Artifact>,
}

impl View for Generated {
    type V = GeneratedSpec;

    open spec fn view(&self) -> GeneratedSpec {
        GeneratedSpec {
            directory: self.directory@,
            module: self.module@,
            peripherals_index: self.peripherals_index@,
            instances_index: self.instances_index@,
            metadata: self.metadata@,
            peripherals: artifact_specs(self.peripherals@),
            instances: artifact_specs(self.instances@),
        }
    }
}

/// The module names of `shapes`, in order.
pub open spec fn shape_modules(shapes: Seq<ShapeSpec>) -> Seq<Seq<char>> {
    Seq::new(shapes.len(), |k: int| shapes[k].module_name)
}

/// The module names of `instances`, in order.
pub open spec fn instance_modules(instances: Seq<InstanceSpec>) -> Seq<Seq<char>> {
    Seq::new(instances.len(), |k: int| instances[k].module_name)
}

/// The generated tree for `model`: one artifact for each shape and each
/// instance whose name is not ignored, and the files that list them.
pub open spec fn generated_from(
    model: ModelSpec,
    device_name: Seq<char>,
    config: ConfigSpec,
) -> GeneratedSpec {
    let shapes = emitted_shapes(model, config);
    let instances = emitted_instances(model, config);
    GeneratedSpec {
        directory: ascii_lowercase_text(device_name),
        module: device_module_text(instance_modules(instances)),
        peripherals_index: index_text(shape_modules(shapes)),
        instances_index: index_text(instance_modules(instances)),
        metadata: metadata_text(
            shape_modules(shapes),
            instance_modules(instances),
            instance_names(instances),
        ),
        peripherals: Seq::new(shapes.len(), |s: int| shape_artifact(shapes[s], config)),
        instances: Seq::new(instances.len(), |s: int| instance_artifact(instances[s], config)),
    }
}

fn file_name(module: &String) -> (name: String)
    ensures
        name@ == file_name_text(module@),
{
    let mut name = module.clone();
    name.append(".rs");
    name
}

/// Emits every file for `model`, leaving out what `config` ignores.
pub fn emit_model(model: &DeviceModel, device_name: &str, config: &GeneratorConfig) -> (generated:
    Generated)
    ensures
        generated@ == generated_from(model@, device_name@, config@),
{
    let ghost shapes = emitted_shapes(model@, config@);
    let ghost names = shape_names(model@.shapes);
    let mut peripherals: Vec<Artifact> = Vec::new();
    let mut peripheral_modules: Vec<String> = Vec::new();
    let mut i: usize = 0;
    while i < model.shapes.len()
        invariant
            0 <= i <= model.shapes.len(),
            names == shape_names(model@.shapes),
            peripherals@.len() == kept(names, config@.ignore, i as int).len(),
            peripheral_modules@.len() == peripherals@.len(),
            forall|s: int|
                0 <= s < peripherals@.len() ==> 0 <= #[trigger] kept(
                    names,
                    config@.ignore,
                    i as int,
                )[s] < i,
            forall|s: int|
                0 <= s < peripherals@.len() ==> (#[trigger] peripherals@[s])@ == shape_artifact(
                    model@.shapes[kept(names, config@.ignore, i as int)[s]],
                    config@,
                ),
            forall|s: int|
                0 <= s < peripherals@.len() ==> (#[trigger] peripheral_modules@[s])@
                    == model@.shapes[kept(names, config@.ignore, i as int)[s]].module_name,
        decreases model.shapes.len() - i,
    {
        let shape = &model.shapes[i];
        if !config.ignores(&shape.name) {
            peripherals.push(
                Artifact {
                    file_name: file_name(&shape.module_name),
                    content: emit_peripheral(shape, config),
                },
            );
            peripheral_modules.push(shape.module_name.clone());
        }
        i += 1;
    }
    let ghost instances = emitted_instances(model@, config@);
    let ghost instance_names_all = instance_names(model@.instances);
    let mut instance_files: Vec<Artifact> = Vec::new();
    let mut modules: Vec<String> = Vec::new();
    let mut given_names: Vec<String> = Vec::new();
    let mut j: usize = 0;
    while j < model.instances.len()
        invariant
            0 <= j <= model.instances.len(),
            instance_names_all == instance_names(model@.instances),
            instance_files@.len() == kept(instance_names_all, config@.ignore, j as int).len(),
            modules@.len() == instance_files@.len(),
            given_names@.len() == instance_files@.len(),
            forall|s: int|
                0 <= s < instance_files@.len() ==> 0 <= #[trigger] kept(
                    instance_names_all,
                    config@.ignore,
                    j as int,
                )[s] < j,
            forall|s: int|
                0 <= s < instance_files@.len() ==> (#[trigger] instance_files@[s])@
                    == instance_artifact(
                    model@.instances[kept(instance_names_all, config@.ignore, j as int)[s]],
                    config@,
                ),
            forall|s: int|
                0 <= s < instance_files@.len() ==> (#[trigger] modules@[s])@
                    == model@.instances[kept(
                    instance_names_all,
                    config@.ignore,
                    j as int,
                )[s]].module_name,
            forall|s: int|
                0 <= s < instance_files@.len() ==> (#[trigger] given_names@[s])@
                    == model@.instances[kept(instance_names_all, config@.ignore, j as int)[s]].name,
        decreases model.instances.len() - j,
    {
        let instance = &model.instances[j];
        if !config.ignores(&instance.name) {
            instance_files.push(
                Artifact {
                    file_name: file_name(&instance.module_name),
                    content: emit_instance(instance, config),
                },
            );
            modules.push(instance.module_name.clone());
            given_names.push(instance.name.clone());
        }
        j += 1;
    }
    proof {
        assert(texts(peripheral_modules@) =~= shape_modules(shapes));
        assert(texts(modules@) =~= instance_modules(instances));
        assert(texts(given_names@) =~= instance_names(instances));
        assert(artifact_specs(peripherals@) =~= generated_from(
            model@,
            device_name@,
            config@,
        ).peripherals);
        assert(artifact_specs(instance_files@) =~= generated_from(
            model@,
            device_name@,
            config@,
        ).instances);
    }
    let mut module = String::from_str(
        "
/// Peripherals shared by multiple devices
pub mod peripherals;

/// Peripheral instances shared by multiple devices
pub(crate) mod instances;

/// Metadata
pub mod metadata;

",
    );
    module.append(wrap_each(&modules, "pub use self::instances::", ";\n").as_str());
    Generated {
        directory: to_ascii_lowercase(device_name),
        module,
        peripherals_index: wrap_each(&peripheral_modules, "pub mod ", ";\n"),
        instances_index: wrap_each(&modules, "pub mod ", ";\n"),
        metadata: emit_metadata(&peripheral_modules, &modules, &given_names),
        peripherals,
        instances: instance_files,
    }
}

/// What `generate_from_tree` returns for `tree` and `config`.
pub open spec fn generate_outcome(tree: DeviceTreeSpec, config: ConfigSpec) -> Result<
    GeneratedSpec,
    ModelErrorSpec,
> {
    match build_outcome(tree) {
        Ok(model) => Ok(generated_from(model, tree.name, config)),
        Err(error) => Err(error),
    }
}

/// Generates the tree of source files for the device that `tree` describes.
///
/// Nothing is emitted for a description from which no model can be built.
pub fn generate_from_tree(tree: &DeviceTree, config: &GeneratorConfig) -> (outcome: Result<
    Generated,
    ModelError,
>)
    ensures
        match outcome {
            Ok(generated) => generate_outcome(tree@, config@) == Ok::<
                GeneratedSpec,
                ModelErrorSpec,
            >(generated@),
            Err(error) => generate_outcome(tree@, config@) == Err::<GeneratedSpec, ModelErrorSpec>(
                error@,
            ),
        },
{
    match build(tree) {
        Ok(model) => Ok(emit_model(&model, tree.name.as_str(), config)),
        Err(error) => Err(error),
    }
}

/// What a `GenerateError` says, as mathematical values.
pub enum GenerateErrorSpec {
    Document(DocumentError),
    Parse,
    Model(ModelErrorSpec),
}

/// Why nothing was generated from a document.
#[derive(Debug)]
pub enum GenerateError {
    /// The document was not handed to the parser.
    Document(DocumentError),
    /// The parser rejected the document; the error is the parser's own.
    Parse(anyhow::Error),
    /// No model could be built from the description.
    Model(ModelError),
}

impl View for GenerateError {
    type V = GenerateErrorSpec;

    open spec fn view(&self) -> GenerateErrorSpec {
        match self {
            GenerateError::Document(error) => GenerateErrorSpec::Document(*error),
            GenerateError::Parse(_) => GenerateErrorSpec::Parse,
            GenerateError::Model(error) => GenerateErrorSpec::Model(error@),
        }
    }
}

/// What `generate_from_document` returns for the document `xml` and
/// `config`.
pub open spec fn document_outcome(xml: Seq<char>, config: ConfigSpec) -> Result<
    GeneratedSpec,
    GenerateErrorSpec,
> {
    match parsed_description(xml) {
        Some(document) => match generate_outcome(tree_of(document), config) {
            Ok(generated) => Ok(generated),
            Err(error) => Err(GenerateErrorSpec::Model(error)),
        },
        None => Err(GenerateErrorSpec::Parse),
    }
}

/// Generates the tree of source files for the device that the document
/// `xml` describes.
///
/// Nothing is emitted for a document that the parser rejects, nor for one
/// from which no model can be built.
///
/// The document must have passed `check_document`; `generate` makes that
/// test itself.
pub fn generate_from_document(xml: &str, config: &GeneratorConfig) -> (outcome: Result<
    Generated,
    GenerateError,
>)
    requires
        document_is_safe(xml@),
    ensures
        match outcome {
            Ok(generated) => document_outcome(xml@, config@) == Ok::<
                GeneratedSpec,
                GenerateErrorSpec,
            >(generated@),
            Err(error) => document_outcome(xml@, config@) == Err::<
                GeneratedSpec,
                GenerateErrorSpec,
            >(error@),
        },
{
    let tree = match read_document(xml) {
        Ok(tree) => tree,
        Err(error) => {
            return Err(GenerateError::Parse(error));
        },
    };
    match generate_from_tree(&tree, config) {
        Ok(generated) => Ok(generated),
        Err(error) => Err(GenerateError::Model(error)),
    }
}

/// What `generate` returns for the document `xml` and `config`.
pub open spec fn checked_outcome(xml: Seq<char>, config: ConfigSpec) -> Result<
    GeneratedSpec,
    GenerateErrorSpec,
> {
    match check_outcome(xml) {
        Ok(_) => document_outcome(xml, config),
        Err(error) => Err(GenerateErrorSpec::Document(error)),
    }
}

/// Generates the tree of source files for the device that the document
/// `xml` describes.
///
/// The document is tested first. One on which the parser would leave the
/// bounds of the machine is not handed to it, and is refused with the
/// reason of the test. Any other document gets what the parser and the
/// builder make of it: the tree, the error of the parser, or the error of
/// the model.
pub fn generate(xml: &str, config: &GeneratorConfig) -> (outcome: Result<Generated, GenerateError>)
    ensures
        match outcome {
            Ok(generated) => checked_outcome(xml@, config@) == Ok::<
                GeneratedSpec,
                GenerateErrorSpec,
            >(generated@),
            Err(error) => checked_outcome(xml@, config@) == Err::<
                GeneratedSpec,
                GenerateErrorSpec,
            >(error@),
        },
{
    match check_document(xml) {
        Ok(_) => generate_from_document(xml, config),
        Err(error) => Err(GenerateError::Document(error)),
    }
}

} // verus!
