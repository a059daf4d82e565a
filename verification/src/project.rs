//! The settings of a project.

use vstd::prelude::*;
use vstd::string::*;
use crate::device::AvrDeviceFile;
use crate::error::Error;

verus! {

/// The tables of a stored project.
#[derive(Clone, Copy, Debug, PartialEq, Eq, Structural)]
#[allow(non_camel_case_types)]
pub enum Tables {
    instruction,
    project,
}

/// The name, the device and the clock frequency of a project.
#[derive(Debug)]
pub struct ProjectState {
    pub name: String,
    pub mcu: String,
    pub freq: u32,
}

impl Tables {
    /// The name of the table.
    pub fn name(self) -> (r: &'static str)
        ensures
            r@ == (match self {
                Tables::instruction => "instruction"@,
                Tables::project => "project"@,
            }),
    {
        match self {
            Tables::instruction => "instruction",
            Tables::project => "project",
        }
    }
}

/// Whether a list of names holds a name.
pub open spec fn holds_name(list: Seq<String>, name: Seq<char>) -> bool {
    exists|k: int| 0 <= k < list.len() && (#[trigger] list[k])@ == name
}

/// The names of the devices of a table, in the order of the table.
pub fn get_mcu_list(table: &Vec<AvrDeviceFile>) -> (r: Vec<String>)
    ensures
        r@.len() == table@.len(),
        forall|k: int| 0 <= k < table@.len() ==> (#[trigger] r@[k])@ == table@[k].devices.name@,
{
    let mut list: Vec<String> = Vec::new();
    let mut k: usize = 0;
    while k < table.len()
        invariant
            k <= table@.len(),
            list@.len() == k,
            forall|j: int| 0 <= j < k ==> (#[trigger] list@[j])@ == table@[j].devices.name@,
        decreases table@.len() - k,
    {
        list.push(table[k].devices.name.clone());
        k = k + 1;
    }
    list
}

/// The first device of a table with the given name.
pub fn get_tree_map_entry<'a>(table: &'a Vec<AvrDeviceFile>, name: &String) -> (r: Option<
    &'a AvrDeviceFile,
>)
    ensures
        match r {
            Some(device) => exists|k: int|
                0 <= k < table@.len() && *device == #[trigger] table@[k] && table@[k].devices.name@
                    == name@ && forall|j: int|
                    0 <= j < k ==> (#[trigger] table@[j]).devices.name@ != name@,
            None => forall|j: int|
                0 <= j < table@.len() ==> (#[trigger] table@[j]).devices.name@ != name@,
        },
{
    let mut k: usize = 0;
    while k < table.len()
        invariant
            k <= table@.len(),
            forall|j: int| 0 <= j < k ==> (#[trigger] table@[j]).devices.name@ != name@,
        decreases table@.len() - k,
    {
        if table[k].devices.name == *name {
            return Some(&table[k]);
        }
        k = k + 1;
    }
    None
}

impl ProjectState {
    /// Chooses the device of the project: a name of the device list. Fails,
    /// and changes nothing, for any other name.
    pub fn set_mcu(&mut self, mcu: String, devices: &Vec<String>) -> (r: Result<(), Error>)
        ensures
            match r {
                Ok(()) => {
                    &&& holds_name(devices@, mcu@)
                    &&& final(self).mcu@ == mcu@
                    &&& final(self).name == old(self).name
                    &&& final(self).freq == old(self).freq
                },
                Err(e) => !holds_name(devices@, mcu@) && e == Error::InvalidMcu && *final(self)
                    == *old(self),
            },
    {
        let mut k: usize = 0;
        while k < devices.len()
            invariant
                k <= devices@.len(),
                *self == *old(self),
                forall|j: int| 0 <= j < k ==> (#[trigger] devices@[j])@ != mcu@,
            decreases devices@.len() - k,
        {
            if devices[k] == mcu {
                assert(devices@[k as int]@ == mcu@);
                self.mcu = mcu;
                return Ok(());
            }
            k = k + 1;
        }
        Err(Error::InvalidMcu)
    }
}

} // verus!
