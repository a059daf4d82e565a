//! The device itself: its name and what it is made of.

use vstd::prelude::*;
use crate::device::address_space::AddressSpace;
use crate::device::interface::Interface;
use crate::device::interrupt::Interrupt;
use crate::device::peripherals::Module;
use crate::device::property_group::PropertyGroup;

verus! {

/// A device: its name, family and architecture, and what it is made of.
#[derive(Debug, Clone)]
pub struct Device {
    pub name: String,
    pub architecture: String,
    pub family: String,
    pub address_spaces: Vec<AddressSpace>,
    pub peripherals: Vec<Module>,
    pub interrupts: Vec<Interrupt>,
    pub interfaces: Vec<Interface>,
    pub propery_groups: Vec<PropertyGroup>,
}

} // verus!
