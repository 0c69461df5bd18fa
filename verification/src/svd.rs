//! Reading of a CMSIS-SVD document into the device description.
//!
//! The document is parsed by the crate `svd_parser`. What it parsed is read
//! here, one entry at a time, and brought into the form that the builder
//! takes: every register with the properties that it has of its own or from
//! what encloses it, every derived peripheral with the registers of its
//! base.

use vstd::prelude::*;
use svd_parser::svd::Device;
use crate::document::document_is_safe;
use crate::model::{optional_text, AccessKind, FieldSpec};
use crate::search::{first_such, lemma_first_such_is};
use crate::tree::{
    field_node_specs, peripheral_node_specs, register_node_specs, DeviceTree, DeviceTreeSpec,
    FieldNode, PeripheralNode, PeripheralNodeSpec, RegisterNode, RegisterNodeSpec,
};

verus! {

/// A parsed document, as `svd_parser` holds it.
#[verifier::external_type_specification]
#[verifier::external_body]
pub struct ExDevice(svd_parser::svd::Device);

/// The error with which `svd_parser` rejects a document.
#[verifier::external_type_specification]
#[verifier::external_body]
pub struct ExParseError(anyhow::Error);

/// Whether a register may be read, and whether it may be written.
#[derive(Clone, Copy, Debug, PartialEq, Eq, Structural)]
pub struct Rights {
    pub read: bool,
    pub write: bool,
}

/// What a `Properties` says, as mathematical values.
pub struct PropertiesSpec {
    pub size: Option<nat>,
    pub access: Option<Rights>,
    pub reset_value: Option<nat>,
}

/// The properties that the document states at one level: for one register,
/// or as the default for the registers of a peripheral or of the device.
#[derive(Clone, Copy, Debug, PartialEq, Eq)]
pub struct Properties {
    /// Width in bits.
    pub size: Option<u32>,
    pub access: Option<Rights>,
    /// Content after a reset.
    pub reset_value: Option<u64>,
}

impl View for Properties {
    type V = PropertiesSpec;

    open spec fn view(&self) -> PropertiesSpec {
        PropertiesSpec {
            size: match self.size {
                Some(bits) => Some(bits as nat),
                None => None,
            },
            access: self.access,
            reset_value: match self.reset_value {
                Some(value) => Some(value as nat),
                None => None,
            },
        }
    }
}

/// What a `DeviceHead` says, as mathematical values.
pub struct DeviceHeadSpec {
    pub name: Seq<char>,
    pub width: nat,
    pub defaults: PropertiesSpec,
}

/// What the document states of the device itself.
#[derive(Clone, Debug, PartialEq, Eq)]
pub struct DeviceHead {
    pub name: String,
    /// Width in bits of the widest transfer on the bus.
    pub width: u32,
    pub defaults: Properties,
}

impl View for DeviceHead {
    type V = DeviceHeadSpec;

    open spec fn view(&self) -> DeviceHeadSpec {
        DeviceHeadSpec { name: self.name@, width: self.width as nat, defaults: self.defaults@ }
    }
}

/// What a `PeripheralHead` says, as mathematical values.
pub struct PeripheralHeadSpec {
    pub name: Seq<char>,
    pub description: Option<Seq<char>>,
    pub base_address: nat,
    pub derived_from: Option<Seq<char>>,
    pub defaults: PropertiesSpec,
}

/// What the document states of a peripheral itself.
#[derive(Clone, Debug, PartialEq, Eq)]
pub struct PeripheralHead {
    pub name: String,
    pub description: Option<String>,
    pub base_address: u64,
    /// Name of the peripheral that this one is derived from.
    pub derived_from: Option<String>,
    pub defaults: Properties,
}

impl View for PeripheralHead {
    type V = PeripheralHeadSpec;

    open spec fn view(&self) -> PeripheralHeadSpec {
        PeripheralHeadSpec {
            name: self.name@,
            description: optional_text(self.description),
            base_address: self.base_address as nat,
            derived_from: optional_text(self.derived_from),
            defaults: self.defaults@,
        }
    }
}

/// What a `RegisterHead` says, as mathematical values.
pub struct RegisterHeadSpec {
    pub name: Seq<char>,
    pub description: Option<Seq<char>>,
    pub address_offset: nat,
    pub properties: PropertiesSpec,
}

/// What the document states of a register itself.
#[derive(Clone, Debug, PartialEq, Eq)]
pub struct RegisterHead {
    pub name: String,
    pub description: Option<String>,
    pub address_offset: u32,
    pub properties: Properties,
}

impl View for RegisterHead {
    type V = RegisterHeadSpec;

    open spec fn view(&self) -> RegisterHeadSpec {
        RegisterHeadSpec {
            name: self.name@,
            description: optional_text(self.description),
            address_offset: self.address_offset as nat,
            properties: self.properties@,
        }
    }
}

/// A register of a parsed document, with its fields.
pub struct DescribedRegister {
    pub head: RegisterHeadSpec,
    pub fields: Seq<FieldSpec>,
}

/// A peripheral of a parsed document, with its registers: those inside
/// clusters too, in the order of the document.
pub struct DescribedPeripheral {
    pub head: PeripheralHeadSpec,
    pub registers: Seq<DescribedRegister>,
}

/// A parsed document, as far as it is read here.
pub struct Described {
    pub head: DeviceHeadSpec,
    pub peripherals: Seq<DescribedPeripheral>,
}

/// What `device` holds.
pub uninterp spec fn described(device: Device) -> Described;

/// What `svd_parser::parse` makes of the document `xml`: `None` where it
/// rejects the document.
pub uninterp spec fn parsed_description(xml: Seq<char>) -> Option<Described>;

/// Parses the document `xml`.
///
/// Trusted: calls `svd_parser::parse`. The contract claims that the call
/// returns for every document that passes the test of `document`, and that
/// the outcome depends on nothing but the text of the document. The test
/// leaves out the documents on which the parser is known not to return:
/// - more than `MAX_DEPTH` elements open at once: the parser descends one
///   level for each, first when it divides the text into tags and again
///   for the clusters, and so exhausts the stack;
/// - a `field` in a `fields` whose first `bitRange`, or else whose first
///   `msb` and `lsb`, give an upper end of 4294967295 and a lower end of
///   0: the parser computes the width, upper end less lower end plus one,
///   in 32 bits without a check;
/// - elements `peripheral`, `cluster`, `register` and `field` with a
///   `dimIncrement` whose first `dimIndex` are ranges of more than
///   `MAX_MEMBERS` members together: the parser writes out every member;
/// - a `register` or a `field` whose first `writeConstraint` has no
///   element as a child: the parser unwraps the first such child.
///
/// `MAX_DEPTH` is chosen for a stack of 2 MiB, the least that a thread has
/// unless it asks for less.
///
/// The test reads the text of `bitRange`, `msb`, `lsb` and `dimIndex` as
/// the parser gets it: the text and the sections of character data with
/// which the element starts, joined, with every reference replaced by its
/// character.
#[verifier::external_body]
fn parse_document(xml: &str) -> (outcome: Result<Device, anyhow::Error>)
    requires
        document_is_safe(xml@),
    ensures
        match outcome {
            Ok(device) => parsed_description(xml@) == Some(described(device)),
            Err(_) => parsed_description(xml@) is None,
        },
{
    svd_parser::parse(xml)
}

/// Reads what `device` states of the device itself: the fields `name` and
/// `width` and, of `default_register_properties`, `size`, `access` and
/// `reset_value`.
///
/// Trusted: reads public fields of `svd_parser::svd::Device`, and asks
/// `Access::can_read` and `Access::can_write`.
#[verifier::external_body]
fn device_head(device: &Device) -> (head: DeviceHead)
    ensures
        head@ == described(*device).head,
{
    let defaults = &device.default_register_properties;
    let access = match defaults.access {
        Some(a) => Some(Rights { read: a.can_read(), write: a.can_write() }),
        None => None,
    };
    DeviceHead {
        name: device.name.clone(),
        width: device.width,
        defaults: Properties { size: defaults.size, access, reset_value: defaults.reset_value },
    }
}

/// Counts the peripherals of `device`: the entries of its field
/// `peripherals`.
///
/// Trusted: reads a public field of `svd_parser::svd::Device`.
#[verifier::external_body]
fn peripheral_count(device: &Device) -> (count: usize)
    ensures
        count == described(*device).peripherals.len(),
{
    device.peripherals.len()
}

/// Reads what `device` states of its peripheral `i` itself: the fields
/// `name`, `description`, `base_address` and `derived_from` and, of
/// `default_register_properties`, `size`, `access` and `reset_value`. Of an
/// array of peripherals it reads the one description that the array
/// shares.
///
/// Trusted: reads public fields of `svd_parser::svd::PeripheralInfo`, and
/// asks `Access::can_read` and `Access::can_write`.
#[verifier::external_body]
fn peripheral_head(device: &Device, i: usize) -> (head: PeripheralHead)
    requires
        i < described(*device).peripherals.len(),
    ensures
        head@ == described(*device).peripherals[i as int].head,
{
    let p = &device.peripherals[i];
    let defaults = &p.default_register_properties;
    let access = match defaults.access {
        Some(a) => Some(Rights { read: a.can_read(), write: a.can_write() }),
        None => None,
    };
    PeripheralHead {
        name: p.name.clone(),
        description: p.description.clone(),
        base_address: p.base_address,
        derived_from: p.derived_from.clone(),
        defaults: Properties { size: defaults.size, access, reset_value: defaults.reset_value },
    }
}

/// Counts the registers of peripheral `i` of `device`: what
/// `PeripheralInfo::all_registers` yields, which enters clusters.
///
/// Trusted: calls `svd_parser::svd::PeripheralInfo::all_registers`.
#[verifier::external_body]
fn register_count(device: &Device, i: usize) -> (count: usize)
    requires
        i < described(*device).peripherals.len(),
    ensures
        count == described(*device).peripherals[i as int].registers.len(),
{
    device.peripherals[i].all_registers().count()
}

/// Reads what `device` states of register `j` of its peripheral `i`: the
/// fields `name`, `description` and `address_offset` and, of `properties`,
/// `size`, `access` and `reset_value`. Registers are counted as
/// `PeripheralInfo::all_registers` yields them.
///
/// Trusted: calls `svd_parser::svd::PeripheralInfo::all_registers`, reads
/// public fields of `svd_parser::svd::RegisterInfo`, and asks
/// `Access::can_read` and `Access::can_write`.
#[verifier::external_body]
fn register_head(device: &Device, i: usize, j: usize) -> (head: RegisterHead)
    requires
        i < described(*device).peripherals.len(),
        j < described(*device).peripherals[i as int].registers.len(),
    ensures
        head@ == described(*device).peripherals[i as int].registers[j as int].head,
{
    let r = device.peripherals[i].all_registers().nth(j).unwrap();
    let own = &r.properties;
    let access = match own.access {
        Some(a) => Some(Rights { read: a.can_read(), write: a.can_write() }),
        None => None,
    };
    RegisterHead {
        name: r.name.clone(),
        description: r.description.clone(),
        address_offset: r.address_offset,
        properties: Properties { size: own.size, access, reset_value: own.reset_value },
    }
}

/// Counts the fields of register `j` of peripheral `i` of `device`: what
/// `RegisterInfo::fields` yields.
///
/// Trusted: calls `svd_parser::svd::PeripheralInfo::all_registers` and
/// `svd_parser::svd::RegisterInfo::fields`.
#[verifier::external_body]
fn field_count(device: &Device, i: usize, j: usize) -> (count: usize)
    requires
        i < described(*device).peripherals.len(),
        j < described(*device).peripherals[i as int].registers.len(),
    ensures
        count == described(*device).peripherals[i as int].registers[j as int].fields.len(),
{
    device.peripherals[i].all_registers().nth(j).unwrap().fields().count()
}

/// Reads field `k` of register `j` of peripheral `i` of `device`: the
/// fields `name` and `description` and, of `bit_range`, `offset` and
/// `width`.
///
/// Trusted: calls `svd_parser::svd::PeripheralInfo::all_registers` and
/// `svd_parser::svd::RegisterInfo::fields`, and reads public fields of
/// `svd_parser::svd::FieldInfo`.
#[verifier::external_body]
fn field_at(device: &Device, i: usize, j: usize, k: usize) -> (field: FieldNode)
    requires
        i < described(*device).peripherals.len(),
        j < described(*device).peripherals[i as int].registers.len(),
        k < described(*device).peripherals[i as int].registers[j as int].fields.len(),
    ensures
        field@ == described(*device).peripherals[i as int].registers[j as int].fields[k as int],
{
    let r = device.peripherals[i].all_registers().nth(j).unwrap();
    let f = r.fields().nth(k).unwrap();
    FieldNode {
        name: f.name.clone(),
        description: f.description.clone(),
        bit_offset: f.bit_range.offset,
        bit_width: f.bit_range.width,
    }
}

/// What is stated at the inner level, or else at the outer one.
pub open spec fn inherited<T>(own: Option<T>, outer: Option<T>) -> Option<T> {
    if own is Some {
        own
    } else {
        outer
    }
}

/// The properties of a register: each as the register states it, or else
/// its peripheral, or else the device.
pub open spec fn effective(
    register: PropertiesSpec,
    peripheral: PropertiesSpec,
    device: PropertiesSpec,
) -> PropertiesSpec {
    PropertiesSpec {
        size: inherited(inherited(register.size, peripheral.size), device.size),
        access: inherited(inherited(register.access, peripheral.access), device.access),
        reset_value: inherited(
            inherited(register.reset_value, peripheral.reset_value),
            device.reset_value,
        ),
    }
}

/// The kind of access for the stated rights: read-only where the register
/// cannot be written, write-only where it cannot be read, and read-write
/// otherwise and where nothing is stated.
pub open spec fn access_kind_of(access: Option<Rights>) -> AccessKind {
    match access {
        Some(rights) => if !rights.write {
            AccessKind::ReadOnly
        } else if !rights.read {
            AccessKind::WriteOnly
        } else {
            AccessKind::ReadWrite
        },
        None => AccessKind::ReadWrite,
    }
}

/// The register of the description for `register`, inside a peripheral and
/// a device with the given defaults. A register without a reset value
/// resets to zero.
pub open spec fn register_node_of(
    register: DescribedRegister,
    peripheral: PropertiesSpec,
    device: PropertiesSpec,
) -> RegisterNodeSpec {
    let properties = effective(register.head.properties, peripheral, device);
    RegisterNodeSpec {
        name: register.head.name,
        description: register.head.description,
        address_offset: register.head.address_offset,
        size: properties.size,
        access: access_kind_of(properties.access),
        reset_value: match properties.reset_value {
            Some(value) => value,
            None => 0,
        },
        fields: register.fields,
    }
}

/// Marks the peripherals with the name `name`.
pub open spec fn named(peripherals: Seq<DescribedPeripheral>, name: Seq<char>) -> spec_fn(
    int,
) -> bool {
    |k: int| peripherals[k].head.name == name
}

/// The peripheral whose registers peripheral `i` has: the first peripheral
/// with the name that `i` is derived from, where `i` is derived, has no
/// registers of its own, and the name is that of a peripheral; else `i`
/// itself.
pub open spec fn base_of(peripherals: Seq<DescribedPeripheral>, i: int) -> int {
    match peripherals[i].head.derived_from {
        Some(name) => {
            let base = first_such(named(peripherals, name), 0, peripherals.len() as int);
            if peripherals[i].registers.len() == 0 && base < peripherals.len() {
                base
            } else {
                i
            }
        },
        None => i,
    }
}

/// The peripheral of the description for peripheral `i` of `document`. A
/// peripheral without a description has the empty one.
pub open spec fn peripheral_node_of(document: Described, i: int) -> PeripheralNodeSpec {
    let peripheral = document.peripherals[i];
    let base = document.peripherals[base_of(document.peripherals, i)];
    PeripheralNodeSpec {
        name: peripheral.head.name,
        description: match peripheral.head.description {
            Some(text) => text,
            None => Seq::empty(),
        },
        base_address: peripheral.head.base_address,
        registers: Seq::new(
            base.registers.len(),
            |j: int|
                register_node_of(base.registers[j], base.head.defaults, document.head.defaults),
        ),
    }
}

/// The device description for `document`.
pub open spec fn tree_of(document: Described) -> DeviceTreeSpec {
    DeviceTreeSpec {
        name: document.head.name,
        width: document.head.width,
        peripherals: Seq::new(
            document.peripherals.len(),
            |i: int| peripheral_node_of(document, i),
        ),
    }
}

fn or_outer<T: Copy>(own: Option<T>, outer: Option<T>) -> (stated: Option<T>)
    ensures
        stated == inherited(own, outer),
{
    match own {
        Some(_) => own,
        None => outer,
    }
}

fn access_kind(access: Option<Rights>) -> (kind: AccessKind)
    ensures
        kind == access_kind_of(access),
{
    match access {
        Some(rights) => {
            if !rights.write {
                AccessKind::ReadOnly
            } else if !rights.read {
                AccessKind::WriteOnly
            } else {
                AccessKind::ReadWrite
            }
        },
        None => AccessKind::ReadWrite,
    }
}

fn read_register(
    device: &Device,
    i: usize,
    j: usize,
    peripheral: &Properties,
    defaults: &Properties,
) -> (node: RegisterNode)
    requires
        i < described(*device).peripherals.len(),
        j < described(*device).peripherals[i as int].registers.len(),
    ensures
        node@ == register_node_of(
            described(*device).peripherals[i as int].registers[j as int],
            peripheral@,
            defaults@,
        ),
{
    let head = register_head(device, i, j);
    let count = field_count(device, i, j);
    let mut fields: Vec<FieldNode> = Vec::new();
    let mut k: usize = 0;
    while k < count
        invariant
            0 <= k <= count,
            i < described(*device).peripherals.len(),
            j < described(*device).peripherals[i as int].registers.len(),
            count == described(*device).peripherals[i as int].registers[j as int].fields.len(),
            fields@.len() == k,
            forall|m: int|
                0 <= m < k ==> (#[trigger] fields@[m])@ == described(
                    *device,
                ).peripherals[i as int].registers[j as int].fields[m],
        decreases count - k,
    {
        fields.push(field_at(device, i, j, k));
        k += 1;
    }
    assert(field_node_specs(fields@) =~= described(
        *device,
    ).peripherals[i as int].registers[j as int].fields);
    let own = head.properties;
    let size = or_outer(or_outer(own.size, peripheral.size), defaults.size);
    let access = or_outer(or_outer(own.access, peripheral.access), defaults.access);
    let reset = or_outer(or_outer(own.reset_value, peripheral.reset_value), defaults.reset_value);
    RegisterNode {
        name: head.name,
        description: head.description,
        address_offset: head.address_offset,
        size,
        access: access_kind(access),
        reset_value: match reset {
            Some(value) => value,
            None => 0,
        },
        fields,
    }
}

/// Finds the peripheral whose registers peripheral `i` has.
fn find_base(device: &Device, i: usize, head: &PeripheralHead) -> (base: usize)
    requires
        i < described(*device).peripherals.len(),
        head@ == described(*device).peripherals[i as int].head,
    ensures
        base == base_of(described(*device).peripherals, i as int),
        base < described(*device).peripherals.len(),
{
    let name = match &head.derived_from {
        Some(name) => name,
        None => {
            return i;
        },
    };
    if register_count(device, i) != 0 {
        return i;
    }
    let count = peripheral_count(device);
    let ghost pred = named(described(*device).peripherals, name@);
    let mut k: usize = 0;
    while k < count
        invariant
            0 <= k <= count,
            count == described(*device).peripherals.len(),
            i < count,
            described(*device).peripherals[i as int].head.derived_from == Some(name@),
            described(*device).peripherals[i as int].registers.len() == 0,
            pred == named(described(*device).peripherals, name@),
            forall|m: int| 0 <= m < k ==> !(#[trigger] pred(m)),
        decreases count - k,
    {
        let other = peripheral_head(device, k);
        if other.name == *name {
            proof {
                lemma_first_such_is(pred, 0, count as int, k as int);
            }
            return k;
        }
        k += 1;
    }
    proof {
        lemma_first_such_is(pred, 0, count as int, count as int);
    }
    i
}

fn read_peripheral(device: &Device, i: usize, defaults: &Properties) -> (node: PeripheralNode)
    requires
        i < described(*device).peripherals.len(),
        defaults@ == described(*device).head.defaults,
    ensures
        node@ == peripheral_node_of(described(*device), i as int),
{
    let head = peripheral_head(device, i);
    let base = find_base(device, i, &head);
    let base_defaults = if base == i {
        head.defaults
    } else {
        peripheral_head(device, base).defaults
    };
    let count = register_count(device, base);
    let mut registers: Vec<RegisterNode> = Vec::new();
    let mut j: usize = 0;
    while j < count
        invariant
            0 <= j <= count,
            base < described(*device).peripherals.len(),
            count == described(*device).peripherals[base as int].registers.len(),
            registers@.len() == j,
            forall|m: int|
                0 <= m < j ==> (#[trigger] registers@[m])@ == register_node_of(
                    described(*device).peripherals[base as int].registers[m],
                    base_defaults@,
                    defaults@,
                ),
        decreases count - j,
    {
        registers.push(read_register(device, base, j, &base_defaults, defaults));
        j += 1;
    }
    assert(register_node_specs(registers@) =~= peripheral_node_of(
        described(*device),
        i as int,
    ).registers);
    PeripheralNode {
        name: head.name,
        description: match head.description {
            Some(text) => text,
            None => String::new(),
        },
        base_address: head.base_address,
        registers,
    }
}

/// Reads the device description out of a parsed document.
pub fn read_tree(device: &Device) -> (tree: DeviceTree)
    ensures
        tree@ == tree_of(described(*device)),
{
    let head = device_head(device);
    let count = peripheral_count(device);
    let mut peripherals: Vec<PeripheralNode> = Vec::new();
    let mut i: usize = 0;
    while i < count
        invariant
            0 <= i <= count,
            count == described(*device).peripherals.len(),
            head@ == described(*device).head,
            peripherals@.len() == i,
            forall|m: int|
                0 <= m < i ==> (#[trigger] peripherals@[m])@ == peripheral_node_of(
                    described(*device),
                    m,
                ),
        decreases count - i,
    {
        peripherals.push(read_peripheral(device, i, &head.defaults));
        i += 1;
    }
    assert(peripheral_node_specs(peripherals@) =~= tree_of(described(*device)).peripherals);
    DeviceTree { name: head.name, width: head.width, peripherals }
}

/// Parses the document `xml` and reads the device description out of it.
/// The error is that of the parser.
///
/// The document must have passed `check_document`.
pub fn read_document(xml: &str) -> (outcome: Result<DeviceTree, anyhow::Error>)
    requires
        document_is_safe(xml@),
    ensures
        match outcome {
            Ok(tree) => parsed_description(xml@) matches Some(document) && tree@ == tree_of(
                document,
            ),
            Err(_) => parsed_description(xml@) is None,
        },
{
    match parse_document(xml) {
        Ok(device) => Ok(read_tree(&device)),
        Err(error) => Err(error),
    }
}

} // verus!
