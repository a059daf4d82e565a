//! The instances of a device's modules.

use vstd::prelude::*;

verus! {

/// A module as the device has it: by its instances.
#[derive(Debug, Clone)]
pub struct Module {
    pub name: String,
    pub instances: Vec<Instance>,
}

/// One instance of a module.
#[derive(Debug, Clone)]
pub struct Instance {
    pub name: String,
    pub caption: String,
    pub register_group: RegisterGroup,
    pub signals: Option<Vec<Signal>>,
    pub parameters: Option<Vec<Param>>,
}

/// Where the registers of an instance stand.
#[derive(Debug, Clone)]
pub struct RegisterGroup {
    pub name: String,
    pub name_in_module: String,
    pub offset: u64,
    pub address_space: String,
    pub caption: String,
}

/// One signal of an instance and the pad it is led to.
#[derive(Debug, Clone)]
pub struct Signal {
    pub group: String,
    pub function: String,
    pub pad: String,
    pub index: Option<i64>,
}

/// One parameter of an instance.
#[derive(Debug, Clone)]
pub struct Param {
    pub name: String,
    pub value: String,
}

} // verus!
