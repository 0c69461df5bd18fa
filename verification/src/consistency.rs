//! The check that every field lies within its register.

use vstd::prelude::*;
use crate::model::FieldSpec;
use crate::search::{first_such, lemma_first_such_is};
use crate::tree::{
    declared_width, declared_width_of, DeviceTree, DeviceTreeSpec, FieldNode, PeripheralNode,
    PeripheralNodeSpec, RegisterNode, RegisterNodeSpec,
};

verus! {

/// Whether `field` lies within a register that declares `declared` bits.
/// No register is taken to be wider than 64 bits.
pub open spec fn field_fits(field: FieldSpec, declared: nat) -> bool {
    field.offset + field.width <= declared && field.offset + field.width <= 64
}

/// Whether every field of `register` lies within it.
pub open spec fn register_consistent(register: RegisterNodeSpec, device_width: nat) -> bool {
    forall|k: int|
        0 <= k < register.fields.len() ==> field_fits(
            #[trigger] register.fields[k],
            declared_width(register, device_width),
        )
}

/// Whether every field of `peripheral` lies within its register.
pub open spec fn peripheral_consistent(peripheral: PeripheralNodeSpec, device_width: nat) -> bool {
    forall|j: int|
        0 <= j < peripheral.registers.len() ==> register_consistent(
            #[trigger] peripheral.registers[j],
            device_width,
        )
}

/// Whether every field of the device lies within its register.
pub open spec fn tree_consistent(tree: DeviceTreeSpec) -> bool {
    forall|i: int|
        0 <= i < tree.peripherals.len() ==> peripheral_consistent(
            #[trigger] tree.peripherals[i],
            tree.width,
        )
}

/// Marks the fields of `register` that reach beyond it.
pub open spec fn bad_field(register: RegisterNodeSpec, device_width: nat) -> spec_fn(int) -> bool {
    |k: int| !field_fits(register.fields[k], declared_width(register, device_width))
}

/// Marks the registers of `peripheral` with a field that reaches beyond
/// them.
pub open spec fn bad_register(peripheral: PeripheralNodeSpec, device_width: nat) -> spec_fn(
    int,
) -> bool {
    |j: int| !register_consistent(peripheral.registers[j], device_width)
}

/// Marks the peripherals of `tree` with a field that reaches beyond its
/// register.
pub open spec fn bad_peripheral(tree: DeviceTreeSpec) -> spec_fn(int) -> bool {
    |i: int| !peripheral_consistent(tree.peripherals[i], tree.width)
}

fn fits_within(field: &FieldNode, declared: u32) -> (fits: bool)
    ensures
        fits == field_fits(field@, declared as nat),
{
    let end: u64 = field.bit_offset as u64 + field.bit_width as u64;
    end <= declared as u64 && end <= 64
}

/// Finds the first field of `register` that reaches beyond it.
pub fn first_bad_field(register: &RegisterNode, device_width: u32) -> (k: usize)
    ensures
        k == first_such(
            bad_field(register@, device_width as nat),
            0,
            register.fields.len() as int,
        ),
        k <= register.fields.len(),
        k == register.fields.len() <==> register_consistent(register@, device_width as nat),
        k < register.fields.len() ==> !field_fits(
            register.fields@[k as int]@,
            declared_width(register@, device_width as nat),
        ),
{
    let declared = declared_width_of(register, device_width);
    let ghost pred = bad_field(register@, device_width as nat);
    let mut k: usize = 0;
    while k < register.fields.len()
        invariant
            0 <= k <= register.fields.len(),
            declared == declared_width(register@, device_width as nat),
            pred == bad_field(register@, device_width as nat),
            forall|m: int| 0 <= m < k ==> !(#[trigger] pred(m)),
        decreases register.fields.len() - k,
    {
        assert(register@.fields[k as int] == register.fields@[k as int]@);
        if !fits_within(&register.fields[k], declared) {
            proof {
                lemma_first_such_is(pred, 0, register.fields.len() as int, k as int);
            }
            return k;
        }
        assert(!pred(k as int));
        k += 1;
    }
    proof {
        lemma_first_such_is(pred, 0, register.fields.len() as int, k as int);
        assert forall|m: int| 0 <= m < register@.fields.len() implies field_fits(
            #[trigger] register@.fields[m],
            declared_width(register@, device_width as nat),
        ) by {
            assert(!pred(m));
        }
    }
    k
}

/// Finds the first register of `peripheral` with a field that reaches
/// beyond it.
pub fn first_bad_register(peripheral: &PeripheralNode, device_width: u32) -> (j: usize)
    ensures
        j == first_such(
            bad_register(peripheral@, device_width as nat),
            0,
            peripheral.registers.len() as int,
        ),
        j <= peripheral.registers.len(),
        j == peripheral.registers.len() <==> peripheral_consistent(
            peripheral@,
            device_width as nat,
        ),
        j < peripheral.registers.len() ==> !register_consistent(
            peripheral.registers@[j as int]@,
            device_width as nat,
        ),
{
    let ghost pred = bad_register(peripheral@, device_width as nat);
    let mut j: usize = 0;
    while j < peripheral.registers.len()
        invariant
            0 <= j <= peripheral.registers.len(),
            pred == bad_register(peripheral@, device_width as nat),
            forall|m: int| 0 <= m < j ==> !(#[trigger] pred(m)),
        decreases peripheral.registers.len() - j,
    {
        assert(peripheral@.registers[j as int] == peripheral.registers@[j as int]@);
        let register = &peripheral.registers[j];
        if first_bad_field(register, device_width) < register.fields.len() {
            proof {
                lemma_first_such_is(pred, 0, peripheral.registers.len() as int, j as int);
            }
            return j;
        }
        j += 1;
    }
    proof {
        lemma_first_such_is(pred, 0, peripheral.registers.len() as int, j as int);
        assert forall|m: int| 0 <= m < peripheral@.registers.len() implies register_consistent(
            #[trigger] peripheral@.registers[m],
            device_width as nat,
        ) by {
            assert(!pred(m));
        }
    }
    j
}

/// Finds the first peripheral of `tree` with a field that reaches beyond
/// its register.
pub fn first_bad_peripheral(tree: &DeviceTree) -> (i: usize)
    ensures
        i == first_such(bad_peripheral(tree@), 0, tree.peripherals.len() as int),
        i <= tree.peripherals.len(),
        i == tree.peripherals.len() <==> tree_consistent(tree@),
        i < tree.peripherals.len() ==> !peripheral_consistent(
            tree.peripherals@[i as int]@,
            tree.width as nat,
        ),
{
    let ghost pred = bad_peripheral(tree@);
    let mut i: usize = 0;
    while i < tree.peripherals.len()
        invariant
            0 <= i <= tree.peripherals.len(),
            pred == bad_peripheral(tree@),
            forall|m: int| 0 <= m < i ==> !(#[trigger] pred(m)),
        decreases tree.peripherals.len() - i,
    {
        let peripheral = &tree.peripherals[i];
        if first_bad_register(peripheral, tree.width) < peripheral.registers.len() {
            proof {
                lemma_first_such_is(pred, 0, tree.peripherals.len() as int, i as int);
            }
            return i;
        }
        i += 1;
    }
    proof {
        lemma_first_such_is(pred, 0, tree.peripherals.len() as int, i as int);
        assert forall|m: int| 0 <= m < tree@.peripherals.len() implies peripheral_consistent(
            #[trigger] tree@.peripherals[m],
            tree@.width,
        ) by {
            assert(!pred(m));
        }
    }
    i
}

} // verus!
