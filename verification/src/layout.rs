//! Comparison of the register layouts of two peripherals.

use vstd::prelude::*;
use crate::model::{standard_width, standard_width_of, AccessKind, FieldSpec};
use crate::tree::{
    declared_width, declared_width_of, field_node_specs, FieldNode, PeripheralNode,
    PeripheralNodeSpec, RegisterNode, RegisterNodeSpec,
};

verus! {

/// What tells one field from another when layouts are compared.
pub struct FieldKey {
    pub name: Seq<char>,
    pub offset: nat,
    pub width: nat,
}

/// The key of `field`.
pub open spec fn field_key(field: FieldSpec) -> FieldKey {
    FieldKey { name: field.name, offset: field.offset, width: field.width }
}

/// The keys of `fields`, as a set: their order does not count.
pub open spec fn field_keys(fields: Seq<FieldSpec>) -> Set<FieldKey> {
    Set::new(|key: FieldKey| exists|k: int| 0 <= k < fields.len() && field_key(fields[k]) == key)
}

/// What tells one register from another when layouts are compared.
pub struct RegisterKey {
    pub name: Seq<char>,
    pub address_offset: nat,
    pub bit_width: nat,
    pub access: AccessKind,
    pub fields: Set<FieldKey>,
}

/// The key of `register`: name, offset, standard width, access and fields.
pub open spec fn register_key(register: RegisterNodeSpec, device_width: nat) -> RegisterKey {
    RegisterKey {
        name: register.name,
        address_offset: register.address_offset,
        bit_width: standard_width(declared_width(register, device_width)),
        access: register.access,
        fields: field_keys(register.fields),
    }
}

/// The layout of `peripheral`: the keys of its registers, in order.
pub open spec fn layout(peripheral: PeripheralNodeSpec, device_width: nat) -> Seq<RegisterKey> {
    Seq::new(
        peripheral.registers.len(),
        |j: int| register_key(peripheral.registers[j], device_width),
    )
}

/// Whether `a` and `b` have the same register layout.
pub open spec fn same_layout(
    a: PeripheralNodeSpec,
    b: PeripheralNodeSpec,
    device_width: nat,
) -> bool {
    layout(a, device_width) == layout(b, device_width)
}

fn has_field_key(fields: &Vec<FieldNode>, field: &FieldNode) -> (found: bool)
    ensures
        found == field_keys(field_node_specs(fields@)).contains(field_key(field@)),
{
    let ghost specs = field_node_specs(fields@);
    let mut k: usize = 0;
    while k < fields.len()
        invariant
            0 <= k <= fields.len(),
            specs == field_node_specs(fields@),
            forall|m: int| 0 <= m < k ==> field_key(#[trigger] specs[m]) != field_key(field@),
        decreases fields.len() - k,
    {
        let other = &fields[k];
        assert(specs[k as int] == other@);
        if other.name == field.name && other.bit_offset == field.bit_offset && other.bit_width
            == field.bit_width {
            return true;
        }
        k += 1;
    }
    false
}

fn fields_within(a: &Vec<FieldNode>, b: &Vec<FieldNode>) -> (within: bool)
    ensures
        within == field_keys(field_node_specs(a@)).subset_of(field_keys(field_node_specs(b@))),
{
    let ghost left = field_node_specs(a@);
    let ghost right = field_keys(field_node_specs(b@));
    let mut k: usize = 0;
    while k < a.len()
        invariant
            0 <= k <= a.len(),
            left == field_node_specs(a@),
            right == field_keys(field_node_specs(b@)),
            forall|m: int| 0 <= m < k ==> right.contains(field_key(#[trigger] left[m])),
        decreases a.len() - k,
    {
        assert(left[k as int] == a@[k as int]@);
        if !has_field_key(b, &a[k]) {
            return false;
        }
        k += 1;
    }
    true
}

fn registers_match(a: &RegisterNode, b: &RegisterNode, device_width: u32) -> (same: bool)
    ensures
        same == (register_key(a@, device_width as nat) == register_key(b@, device_width as nat)),
{
    let width_a = standard_width_of(declared_width_of(a, device_width));
    let width_b = standard_width_of(declared_width_of(b, device_width));
    if !(a.name == b.name && a.address_offset == b.address_offset && width_a == width_b && a.access
        == b.access) {
        return false;
    }
    let within = fields_within(&a.fields, &b.fields) && fields_within(&b.fields, &a.fields);
    proof {
        if within {
            assert(field_keys(a@.fields) =~= field_keys(b@.fields));
        }
    }
    within
}

/// Whether `a` and `b` have the same register layout.
pub fn layouts_match(a: &PeripheralNode, b: &PeripheralNode, device_width: u32) -> (same: bool)
    ensures
        same == same_layout(a@, b@, device_width as nat),
{
    if a.registers.len() != b.registers.len() {
        assert(layout(a@, device_width as nat).len() != layout(b@, device_width as nat).len());
        return false;
    }
    let mut j: usize = 0;
    while j < a.registers.len()
        invariant
            0 <= j <= a.registers.len(),
            a.registers.len() == b.registers.len(),
            forall|m: int|
                0 <= m < j ==> register_key(
                    #[trigger] a.registers@[m]@,
                    device_width as nat,
                ) == register_key(b.registers@[m]@, device_width as nat),
        decreases a.registers.len() - j,
    {
        if !registers_match(&a.registers[j], &b.registers[j], device_width) {
            proof {
                assert(layout(a@, device_width as nat)[j as int] == register_key(
                    a.registers@[j as int]@,
                    device_width as nat,
                ));
            }
            return false;
        }
        j += 1;
    }
    assert(layout(a@, device_width as nat) =~= layout(b@, device_width as nat));
    true
}

} // verus!
