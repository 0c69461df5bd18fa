//! The device description as a parser delivers it: peripherals with their
//! registers and fields, one entry for each peripheral at its address.

use vstd::prelude::*;
use crate::model::{optional_text, AccessKind, FieldSpec};

verus! {

/// A bit field as the description gives it.
#[derive(Clone, Debug, PartialEq, Eq)]
pub struct FieldNode {
    pub name: String,
    pub description: Option<String>,
    /// Number of the lowest bit of the field.
    pub bit_offset: u32,
    /// Number of bits of the field.
    pub bit_width: u32,
}

impl View for FieldNode {
    type V = FieldSpec;

    open spec fn view(&self) -> FieldSpec {
        FieldSpec {
            name: self.name@,
            description: optional_text(self.description),
            offset: self.bit_offset as nat,
            width: self.bit_width as nat,
        }
    }
}

/// What each field of `fields` says, in order.
pub open spec fn field_node_specs(fields: Seq<FieldNode>) -> Seq<FieldSpec> {
    fields.map_values(|f: FieldNode| f@)
}

/// What a `RegisterNode` says, as mathematical values.
pub struct RegisterNodeSpec {
    pub name: Seq<char>,
    pub description: Option<Seq<char>>,
    pub address_offset: nat,
    pub size: Option<nat>,
    pub access: AccessKind,
    pub reset_value: nat,
    pub fields: Seq<FieldSpec>,
}

/// A register as the description gives it.
#[derive(Clone, Debug, PartialEq, Eq)]
pub struct RegisterNode {
    pub name: String,
    pub description: Option<String>,
    /// Distance of the register from the base address of its peripheral.
    pub address_offset: u32,
    /// Declared width in bits; the width of the device where it is absent.
    pub size: Option<u32>,
    pub access: AccessKind,
    /// Content of the register after a reset.
    pub reset_value: u64,
    pub fields: Vec<FieldNode>,
}

impl View for RegisterNode {
    type V = RegisterNodeSpec;

    open spec fn view(&self) -> RegisterNodeSpec {
        RegisterNodeSpec {
            name: self.name@,
            description: optional_text(self.description),
            address_offset: self.address_offset as nat,
            size: match self.size {
                Some(bits) => Some(bits as nat),
                None => None,
            },
            access: self.access,
            reset_value: self.reset_value as nat,
            fields: field_node_specs(self.fields@),
        }
    }
}

/// What each register of `registers` says, in order.
pub open spec fn register_node_specs(registers: Seq<RegisterNode>) -> Seq<RegisterNodeSpec> {
    registers.map_values(|r: RegisterNode| r@)
}

/// What a `PeripheralNode` says, as mathematical values.
pub struct PeripheralNodeSpec {
    pub name: Seq<char>,
    pub description: Seq<char>,
    pub base_address: nat,
    pub registers: Seq<RegisterNodeSpec>,
}

/// A peripheral as the description gives it.
#[derive(Clone, Debug, PartialEq, Eq)]
pub struct PeripheralNode {
    pub name: String,
    pub description: String,
    pub base_address: u64,
    /// The registers, in the order of their addresses.
    pub registers: Vec<RegisterNode>,
}

impl View for PeripheralNode {
    type V = PeripheralNodeSpec;

    open spec fn view(&self) -> PeripheralNodeSpec {
        PeripheralNodeSpec {
            name: self.name@,
            description: self.description@,
            base_address: self.base_address as nat,
            registers: register_node_specs(self.registers@),
        }
    }
}

/// What each peripheral of `peripherals` says, in order.
pub open spec fn peripheral_node_specs(peripherals: Seq<PeripheralNode>) -> Seq<
    PeripheralNodeSpec,
> {
    peripherals.map_values(|p: PeripheralNode| p@)
}

/// What a `DeviceTree` says, as mathematical values.
pub struct DeviceTreeSpec {
    pub name: Seq<char>,
    pub width: nat,
    pub peripherals: Seq<PeripheralNodeSpec>,
}

/// A device as the description gives it.
#[derive(Clone, Debug, PartialEq, Eq)]
pub struct DeviceTree {
    pub name: String,
    /// Width in bits of the registers that declare none.
    pub width: u32,
    pub peripherals: Vec<PeripheralNode>,
}

impl View for DeviceTree {
    type V = DeviceTreeSpec;

    open spec fn view(&self) -> DeviceTreeSpec {
        DeviceTreeSpec {
            name: self.name@,
            width: self.width as nat,
            peripherals: peripheral_node_specs(self.peripherals@),
        }
    }
}

/// The width that a register declares, or that of the device.
pub open spec fn declared_width(register: RegisterNodeSpec, device_width: nat) -> nat {
    match register.size {
        Some(bits) => bits,
        None => device_width,
    }
}

/// Returns the width that `register` declares, or that of the device.
pub fn declared_width_of(register: &RegisterNode, device_width: u32) -> (bits: u32)
    ensures
        bits == declared_width(register@, device_width as nat),
{
    match register.size {
        Some(bits) => bits,
        None => device_width,
    }
}

} // verus!
