//! Modules with their register groups, registers and bit fields.

use vstd::prelude::*;
use crate::device::property_group::PropertyValue;

verus! {

/// A module of a device with its register groups and value groups.
#[derive(Debug, Clone)]
pub struct Module {
    pub caption: Option<String>,
    pub name: String,
    pub register_group: Vec<ModuleRegisterGroup>,
    pub value_grop: Vec<ValueGroup>,
}

/// A group of registers of a module.
#[derive(Debug, Clone)]
pub struct ModuleRegisterGroup {
    pub caption: Option<String>,
    pub name: String,
    pub register: Vec<Register>,
}

/// One register.
#[derive(Debug, Clone)]
pub struct Register {
    pub caption: Option<String>,
    pub name: String,
    /// Where the register stands in the data space.
    pub offset: u64,
    /// Its size in bytes.
    pub size: u64,
    pub initval: u64,
    pub bitfields: Option<Vec<BitField>>,
}

/// One field of a register: the bits that the mask selects.
#[derive(Debug, Clone)]
pub struct BitField {
    pub caption: Option<String>,
    pub mask: u64,
    pub name: String,
    pub values: Option<String>,
}

/// The named values that a bit field takes.
#[derive(Debug, Clone)]
pub struct ValueGroup {
    pub name: String,
    pub values: Vec<Value>,
}

/// One named value of a bit field.
#[derive(Debug, Clone)]
pub struct Value {
    pub caption: String,
    pub name: String,
    pub value: PropertyValue,
}

} // verus!
