//! The description of a device: the geometry of its address spaces and the
//! registers of its modules. A description is plain data that is handed to
//! the library; nothing here reads a file.

pub mod address_space;
pub mod info;
pub mod ingest;
pub mod interface;
pub mod interrupt;
pub mod module;
pub mod package;
pub mod peripherals;
pub mod property_group;
pub mod register_map;
pub mod xml;

use vstd::prelude::*;
use vstd::string::*;
use crate::device::address_space::{AddressSpace, MemorySegment};
use crate::device::info::Device;
use crate::device::module::Module;
use crate::device::package::Pinout;
use crate::error::Error;

verus! {

/// Everything that is known of one device.
#[derive(Debug, Clone)]
pub struct AvrDeviceFile {
    pub devices: Device,
    pub modules: Vec<Module>,
    pub pinouts: Option<Vec<Pinout>>,
}

/// The sizes that the memory model is built from, in bytes but for the
/// flash, which is counted in 16-bit words.
#[derive(Clone, Copy, Debug, PartialEq, Eq, Structural)]
pub struct DataLayout {
    pub registers: usize,
    pub io: usize,
    pub ram: usize,
    pub flash_words: usize,
    pub eeprom: usize,
}

/// The first address space with the given id.
pub open spec fn first_space(spaces: Seq<AddressSpace>, id: Seq<char>) -> Option<AddressSpace>
    decreases spaces.len(),
{
    if spaces.len() == 0 {
        None
    } else if spaces[0].id@ == id {
        Some(spaces[0])
    } else {
        first_space(spaces.skip(1), id)
    }
}

/// The first memory segment with the given name.
pub open spec fn first_segment(segments: Seq<MemorySegment>, name: Seq<char>) -> Option<
    MemorySegment,
>
    decreases segments.len(),
{
    if segments.len() == 0 {
        None
    } else if segments[0].name@ == name {
        Some(segments[0])
    } else {
        first_segment(segments.skip(1), name)
    }
}

/// The size of the named segment of the data space, where the device has
/// one.
pub open spec fn data_segment_size(device: AvrDeviceFile, name: Seq<char>) -> Option<u64> {
    match first_space(device.devices.address_spaces@, "data"@) {
        Some(space) => match first_segment(space.memory_segments@, name) {
            Some(segment) => Some(segment.size),
            None => None,
        },
        None => None,
    }
}

/// The size of the address space with the given id, where the device has
/// one.
pub open spec fn space_size(device: AvrDeviceFile, id: Seq<char>) -> Option<u64> {
    match first_space(device.devices.address_spaces@, id) {
        Some(space) => Some(space.size),
        None => None,
    }
}

/// The layout that a device description gives: the register file, the
/// mapped I/O and the internal RAM are segments of the data space; the flash
/// is the program space, counted in words; the EEPROM is a space of its own.
/// `None` where one of them is missing or its size does not fit in `usize`.
pub open spec fn layout_of(device: AvrDeviceFile) -> Option<DataLayout> {
    let registers = data_segment_size(device, "REGISTERS"@);
    let io = data_segment_size(device, "MAPPED_IO"@);
    let ram = data_segment_size(device, "IRAM"@);
    let prog = space_size(device, "prog"@);
    let eeprom = space_size(device, "eeprom"@);
    if registers is Some && io is Some && ram is Some && prog is Some && eeprom is Some
        && registers.unwrap() <= usize::MAX && io.unwrap() <= usize::MAX && ram.unwrap()
        <= usize::MAX && prog.unwrap() / 2 <= usize::MAX && eeprom.unwrap() <= usize::MAX {
        Some(
            DataLayout {
                registers: registers.unwrap() as usize,
                io: io.unwrap() as usize,
                ram: ram.unwrap() as usize,
                flash_words: (prog.unwrap() / 2) as usize,
                eeprom: eeprom.unwrap() as usize,
            },
        )
    } else {
        None
    }
}

/// The first address space of `spaces` whose id is `id`.
pub fn find_space<'a>(spaces: &'a Vec<AddressSpace>, id: &str) -> (r: Option<&'a AddressSpace>)
    ensures
        r == (match first_space(spaces@, id@) {
            Some(space) => Some(&space),
            None => None,
        }),
{
    let target = String::from_str(id);
    let mut k: usize = 0;
    assert(spaces@.skip(0) =~= spaces@);
    while k < spaces.len()
        invariant
            k <= spaces@.len(),
            target@ == id@,
            first_space(spaces@, id@) == first_space(spaces@.skip(k as int), id@),
        decreases spaces@.len() - k,
    {
        if spaces[k].id == target {
            assert(spaces@.skip(k as int)[0] == spaces@[k as int]);
            return Some(&spaces[k]);
        }
        assert(spaces@.skip(k as int).skip(1) =~= spaces@.skip(k + 1));
        assert(spaces@.skip(k as int)[0] == spaces@[k as int]);
        k = k + 1;
    }
    assert(spaces@.skip(k as int).len() == 0);
    None
}

/// The first memory segment of `segments` whose name is `name`.
pub fn find_segment<'a>(segments: &'a Vec<MemorySegment>, name: &str) -> (r: Option<
    &'a MemorySegment,
>)
    ensures
        r == (match first_segment(segments@, name@) {
            Some(segment) => Some(&segment),
            None => None,
        }),
{
    let target = String::from_str(name);
    let mut k: usize = 0;
    assert(segments@.skip(0) =~= segments@);
    while k < segments.len()
        invariant
            k <= segments@.len(),
            target@ == name@,
            first_segment(segments@, name@) == first_segment(segments@.skip(k as int), name@),
        decreases segments@.len() - k,
    {
        if segments[k].name == target {
            assert(segments@.skip(k as int)[0] == segments@[k as int]);
            return Some(&segments[k]);
        }
        assert(segments@.skip(k as int).skip(1) =~= segments@.skip(k + 1));
        assert(segments@.skip(k as int)[0] == segments@[k as int]);
        k = k + 1;
    }
    assert(segments@.skip(k as int).len() == 0);
    None
}

impl AvrDeviceFile {
    /// The size of the named segment of the data space.
    pub fn segment_size(&self, name: &str) -> (r: Option<u64>)
        ensures
            r == data_segment_size(*self, name@),
    {
        match find_space(&self.devices.address_spaces, "data") {
            Some(space) => match find_segment(&space.memory_segments, name) {
                Some(segment) => Some(segment.size),
                None => None,
            },
            None => None,
        }
    }

    /// The size of the address space with the given id.
    pub fn address_space_size(&self, id: &str) -> (r: Option<u64>)
        ensures
            r == space_size(*self, id@),
    {
        match find_space(&self.devices.address_spaces, id) {
            Some(space) => Some(space.size),
            None => None,
        }
    }

    /// The sizes that the memory model of this device is built from; an
    /// error where the description lacks one of them or gives one that does
    /// not fit.
    pub fn data_layout(&self) -> (r: Result<DataLayout, Error>)
        ensures
            r == (match layout_of(*self) {
                Some(layout) => Ok::<DataLayout, Error>(layout),
                None => Err(Error::InvalidDevice),
            }),
    {
        let registers = self.segment_size("REGISTERS");
        let io = self.segment_size("MAPPED_IO");
        let ram = self.segment_size("IRAM");
        let prog = self.address_space_size("prog");
        let eeprom = self.address_space_size("eeprom");
        match (registers, io, ram, prog, eeprom) {
            (Some(registers), Some(io), Some(ram), Some(prog), Some(eeprom)) => {
                let limit = usize::MAX as u64;
                if registers <= limit && io <= limit && ram <= limit && prog / 2 <= limit
                    && eeprom <= limit {
                    Ok(
                        DataLayout {
                            registers: registers as usize,
                            io: io as usize,
                            ram: ram as usize,
                            flash_words: (prog / 2) as usize,
                            eeprom: eeprom as usize,
                        },
                    )
                } else {
                    Err(Error::InvalidDevice)
                }
            },
            _ => Err(Error::InvalidDevice),
        }
    }
}

} // verus!
