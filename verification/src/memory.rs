//! The memory model: one data space over the register file, the mapped I/O
//! and the internal RAM, the flash of decoded instructions and the EEPROM.

use vstd::prelude::*;
use crate::device::{layout_of, AvrDeviceFile, DataLayout};
use crate::error::Error;
use crate::instruction::{Instruction, InstructionView};
use crate::opcode::{CustomOpcodes, EMPTY_ID};

verus! {

/// The I/O region, with the list of offsets that are watched and the flag
/// that a write to one of them raises.
#[derive(Debug)]
pub struct IoMemory {
    pub data: Vec<u8>,
    /// The watched offsets within the I/O region.
    pub watchlist: Vec<u32>,
    /// Raised by a write to a watched offset; lowered only by
    /// `clear_write_status`.
    pub write_status: bool,
}

/// The data space: three regions behind one index, in this order.
#[derive(Debug)]
pub struct DataMemory {
    pub registers: Vec<u8>,
    pub io: IoMemory,
    pub ram: Vec<u8>,
}

/// The memory of a machine: flash, data space, EEPROM and program counter.
#[derive(Debug)]
pub struct Memory {
    pub flash: Vec<Instruction>,
    pub data: DataMemory,
    pub eeprom: Vec<u8>,
    /// The word of flash that is fetched next.
    pub program_couter: u32,
}

/// Whether `offset` is on the watch list.
pub open spec fn watched(watchlist: Seq<u32>, offset: int) -> bool {
    exists|k: int| 0 <= k < watchlist.len() && watchlist[k] == offset
}

/// The views of the instructions of a flash.
pub open spec fn flash_views(flash: Seq<Instruction>) -> Seq<InstructionView> {
    Seq::new(flash.len(), |k: int| flash[k]@)
}

/// An empty flash cell.
pub open spec fn empty_cell() -> InstructionView {
    InstructionView {
        comment: Seq::empty(),
        comment_display: crate::display::Display::Unset,
        opcode_id: EMPTY_ID,
        operands: None,
        address: 0,
        raw_opcode: 0,
    }
}

/// `items` cut or filled up with `fill` to the length `len`.
pub open spec fn resized<T>(items: Seq<T>, len: nat, fill: T) -> Seq<T> {
    Seq::new(
        len,
        |k: int|
            if k < items.len() {
                items[k]
            } else {
                fill
            },
    )
}

impl IoMemory {
    /// An empty I/O region with nothing watched.
    pub fn new() -> (r: IoMemory)
        ensures
            r.data@.len() == 0,
            r.watchlist@.len() == 0,
            !r.write_status,
    {
        IoMemory { data: Vec::new(), watchlist: Vec::new(), write_status: false }
    }

    /// Whether `offset` is on the watch list.
    pub fn is_watched(&self, offset: usize) -> (r: bool)
        ensures
            r == watched(self.watchlist@, offset as int),
    {
        let mut k: usize = 0;
        while k < self.watchlist.len()
            invariant
                k <= self.watchlist@.len(),
                forall|j: int| 0 <= j < k ==> self.watchlist@[j] != offset,
            decreases self.watchlist@.len() - k,
        {
            if self.watchlist[k] as usize == offset {
                return true;
            }
            k = k + 1;
        }
        false
    }

    /// Reads the byte at `offset`, or `None` outside the region.
    pub fn read(&self, offset: usize) -> (r: Option<u8>)
        ensures
            r == (if offset < self.data@.len() {
                Some(self.data@[offset as int])
            } else {
                None
            }),
    {
        if offset < self.data.len() {
            Some(self.data[offset])
        } else {
            None
        }
    }

    /// Writes the byte at `offset`. A write to a watched offset raises the
    /// write status; a write to any other offset leaves the status as it
    /// was. Fails, and changes nothing, outside the region.
    pub fn write(&mut self, offset: usize, value: u8) -> (r: Result<(), Error>)
        ensures
            match r {
                Ok(()) => {
                    &&& offset < old(self).data@.len()
                    &&& final(self).data@ == old(self).data@.update(offset as int, value)
                    &&& final(self).watchlist@ == old(self).watchlist@
                    &&& final(self).write_status == (old(self).write_status || watched(
                        old(self).watchlist@,
                        offset as int,
                    ))
                },
                Err(e) => {
                    &&& offset >= old(self).data@.len()
                    &&& e == (Error::InvalidAddress { address: offset as u64 })
                    &&& *final(self) == *old(self)
                },
            },
    {
        if offset >= self.data.len() {
            return Err(Error::InvalidAddress { address: offset as u64 });
        }
        let hit = self.is_watched(offset);
        self.data.set(offset, value);
        if hit {
            self.write_status = true;
        }
        Ok(())
    }

    /// Lowers the write status.
    pub fn clear_write_status(&mut self)
        ensures
            !final(self).write_status,
            final(self).data == old(self).data,
            final(self).watchlist == old(self).watchlist,
    {
        self.write_status = false;
    }
}

impl DataMemory {
    /// The whole data space as one sequence of bytes.
    pub open spec fn flat(&self) -> Seq<u8> {
        self.registers@ + self.io.data@ + self.ram@
    }

    /// The byte behind an index of the data space: the register file comes
    /// first, then the I/O region, then the RAM.
    pub open spec fn byte_at(&self, index: int) -> Option<u8> {
        if 0 <= index < self.registers@.len() {
            Some(self.registers@[index])
        } else if self.registers@.len() <= index < self.registers@.len() + self.io.data@.len() {
            Some(self.io.data@[index - self.registers@.len()])
        } else if self.registers@.len() + self.io.data@.len() <= index < self.registers@.len()
            + self.io.data@.len() + self.ram@.len() {
            Some(self.ram@[index - self.registers@.len() - self.io.data@.len()])
        } else {
            None
        }
    }

    /// An empty data space.
    pub fn new() -> (r: DataMemory)
        ensures
            r.registers@.len() == 0,
            r.io.data@.len() == 0,
            r.io.watchlist@.len() == 0,
            !r.io.write_status,
            r.ram@.len() == 0,
    {
        DataMemory { registers: Vec::new(), io: IoMemory::new(), ram: Vec::new() }
    }

    /// Brings the three regions to the sizes of a layout; bytes that are
    /// added are zero.
    pub fn resize(&mut self, layout: &DataLayout)
        ensures
            final(self).registers@ == resized(old(self).registers@, layout.registers as nat, 0u8),
            final(self).io.data@ == resized(old(self).io.data@, layout.io as nat, 0u8),
            final(self).ram@ == resized(old(self).ram@, layout.ram as nat, 0u8),
            final(self).io.watchlist == old(self).io.watchlist,
            final(self).io.write_status == old(self).io.write_status,
    {
        resize_bytes(&mut self.registers, layout.registers, 0);
        resize_bytes(&mut self.io.data, layout.io, 0);
        resize_bytes(&mut self.ram, layout.ram, 0);
    }

    /// Sizes the three regions as the device description says.
    pub fn init(&mut self, atdf: &AvrDeviceFile) -> (r: Result<(), Error>)
        ensures
            match r {
                Ok(()) => {
                    &&& layout_of(*atdf) is Some
                    &&& final(self).registers@ == resized(
                        old(self).registers@,
                        layout_of(*atdf).unwrap().registers as nat,
                        0u8,
                    )
                    &&& final(self).io.data@ == resized(
                        old(self).io.data@,
                        layout_of(*atdf).unwrap().io as nat,
                        0u8,
                    )
                    &&& final(self).ram@ == resized(
                        old(self).ram@,
                        layout_of(*atdf).unwrap().ram as nat,
                        0u8,
                    )
                    &&& final(self).io.watchlist == old(self).io.watchlist
                    &&& final(self).io.write_status == old(self).io.write_status
                },
                Err(e) => layout_of(*atdf) is None && e == Error::InvalidDevice && *final(self)
                    == *old(self),
            },
    {
        match atdf.data_layout() {
            Ok(layout) => {
                self.resize(&layout);
                Ok(())
            },
            Err(e) => Err(e),
        }
    }

    /// Reads the byte behind an index of the data space: an index below the
    /// size of the register file is a register, the next indices are the
    /// I/O region, the rest is the RAM. `None` for an index behind the RAM.
    pub fn get(&self, index: usize) -> (r: Option<u8>)
        ensures
            r == self.byte_at(index as int),
            index < self.flat().len() ==> r == Some(self.flat()[index as int]),
            index >= self.flat().len() ==> r is None,
    {
        if index < self.registers.len() {
            Some(self.registers[index])
        } else if index - self.registers.len() < self.io.data.len() {
            Some(self.io.data[index - self.registers.len()])
        } else if index - self.registers.len() - self.io.data.len() < self.ram.len() {
            Some(self.ram[index - self.registers.len() - self.io.data.len()])
        } else {
            None
        }
    }

    /// Writes the byte behind an index of the data space. A write into the
    /// I/O region at a watched offset raises the write status. Fails, and
    /// changes nothing, for an index behind the RAM.
    pub fn set(&mut self, index: usize, value: u8) -> (r: Result<(), Error>)
        ensures
            match r {
                Ok(()) => {
                    &&& index < old(self).flat().len()
                    &&& final(self).flat() == old(self).flat().update(index as int, value)
                    &&& final(self).registers@.len() == old(self).registers@.len()
                    &&& final(self).io.data@.len() == old(self).io.data@.len()
                    &&& final(self).ram@.len() == old(self).ram@.len()
                    &&& final(self).io.watchlist@ == old(self).io.watchlist@
                    &&& final(self).io.write_status == (old(self).io.write_status || (old(
                        self,
                    ).registers@.len() <= index < old(self).registers@.len() + old(
                        self,
                    ).io.data@.len() && watched(
                        old(self).io.watchlist@,
                        index - old(self).registers@.len(),
                    )))
                },
                Err(e) => {
                    &&& index >= old(self).flat().len()
                    &&& e == (Error::InvalidAddress { address: index as u64 })
                    &&& *final(self) == *old(self)
                },
            },
    {
        if index < self.registers.len() {
            self.registers.set(index, value);
            assert(final(self).flat() =~= old(self).flat().update(index as int, value));
            Ok(())
        } else if index - self.registers.len() < self.io.data.len() {
            let offset = index - self.registers.len();
            match self.io.write(offset, value) {
                Ok(()) => {
                    assert(final(self).flat() =~= old(self).flat().update(index as int, value));
                    Ok(())
                },
                Err(_) => Err(Error::InvalidAddress { address: index as u64 }),
            }
        } else if index - self.registers.len() - self.io.data.len() < self.ram.len() {
            let offset = index - self.registers.len() - self.io.data.len();
            self.ram.set(offset, value);
            assert(final(self).flat() =~= old(self).flat().update(index as int, value));
            Ok(())
        } else {
            Err(Error::InvalidAddress { address: index as u64 })
        }
    }
}

/// Cuts `bytes` or fills it up with `fill` to the length `len`.
pub fn resize_bytes(bytes: &mut Vec<u8>, len: usize, fill: u8)
    ensures
        final(bytes)@ == resized(old(bytes)@, len as nat, fill),
{
    bytes.truncate(len);
    while bytes.len() < len
        invariant
            bytes@.len() <= len,
            forall|k: int|
                0 <= k < bytes@.len() ==> bytes@[k] == (if k < old(bytes)@.len() {
                    old(bytes)@[k]
                } else {
                    fill
                }),
            bytes@.len() >= old(bytes)@.len() || bytes@.len() == len,
        decreases len - bytes@.len(),
    {
        bytes.push(fill);
    }
    assert(bytes@ =~= resized(old(bytes)@, len as nat, fill));
}

/// Cuts a flash or fills it up with empty cells to `len` words.
pub fn resize_flash(flash: &mut Vec<Instruction>, len: usize)
    ensures
        flash_views(final(flash)@) == resized(flash_views(old(flash)@), len as nat, empty_cell()),
{
    flash.truncate(len);
    while flash.len() < len
        invariant
            flash@.len() <= len,
            forall|k: int|
                0 <= k < flash@.len() ==> (#[trigger] flash@[k])@ == (if k < old(flash)@.len() {
                    old(flash)@[k]@
                } else {
                    empty_cell()
                }),
            flash@.len() >= old(flash)@.len() || flash@.len() == len,
        decreases len - flash@.len(),
    {
        flash.push(Instruction::placeholder(CustomOpcodes::EMPTY));
    }
    assert(flash_views(flash@) =~= resized(flash_views(old(flash)@), len as nat, empty_cell()));
}

impl Memory {
    /// A memory without any cell, with the program counter at 0.
    pub fn new() -> (r: Memory)
        ensures
            r.flash@.len() == 0,
            r.data.flat().len() == 0,
            r.data.io.watchlist@.len() == 0,
            !r.data.io.write_status,
            r.eeprom@.len() == 0,
            r.program_couter == 0,
    {
        Memory {
            flash: Vec::new(),
            data: DataMemory::new(),
            eeprom: Vec::new(),
            program_couter: 0,
        }
    }

    /// Takes the given flash and EEPROM contents and sizes every region as
    /// the device description says: the flash is cut or filled up with empty
    /// cells to half the size of the program space, the EEPROM with `0xFF`
    /// to the size of its space, the data space with zero. Fails, and
    /// changes nothing, where the description lacks a size.
    pub fn init(&mut self, atdf: &AvrDeviceFile, flash_data: Vec<Instruction>, eeprom_data: Vec<
        u8,
    >) -> (r: Result<(), Error>)
        ensures
            match r {
                Ok(()) => {
                    &&& layout_of(*atdf) is Some
                    &&& flash_views(final(self).flash@) == resized(
                        flash_views(flash_data@),
                        layout_of(*atdf).unwrap().flash_words as nat,
                        empty_cell(),
                    )
                    &&& final(self).eeprom@ == resized(
                        eeprom_data@,
                        layout_of(*atdf).unwrap().eeprom as nat,
                        0xffu8,
                    )
                    &&& final(self).data.registers@ == resized(
                        old(self).data.registers@,
                        layout_of(*atdf).unwrap().registers as nat,
                        0u8,
                    )
                    &&& final(self).data.io.data@ == resized(
                        old(self).data.io.data@,
                        layout_of(*atdf).unwrap().io as nat,
                        0u8,
                    )
                    &&& final(self).data.ram@ == resized(
                        old(self).data.ram@,
                        layout_of(*atdf).unwrap().ram as nat,
                        0u8,
                    )
                    &&& final(self).data.io.watchlist == old(self).data.io.watchlist
                    &&& final(self).data.io.write_status == old(self).data.io.write_status
                    &&& final(self).program_couter == old(self).program_couter
                },
                Err(e) => layout_of(*atdf) is None && e == Error::InvalidDevice && *final(self)
                    == *old(self),
            },
    {
        let layout = match atdf.data_layout() {
            Ok(layout) => layout,
            Err(e) => {
                return Err(e);
            },
        };
        let mut flash = flash_data;
        let mut eeprom = eeprom_data;
        resize_flash(&mut flash, layout.flash_words);
        resize_bytes(&mut eeprom, layout.eeprom, 0xff);
        self.flash = flash;
        self.eeprom = eeprom;
        self.data.resize(&layout);
        Ok(())
    }

    /// The instruction at the program counter; an error where the program
    /// counter stands behind the flash.
    pub fn fetch(&self) -> (r: Result<&Instruction, Error>)
        ensures
            match r {
                Ok(inst) => self.program_couter < self.flash@.len() && *inst
                    == self.flash@[self.program_couter as int],
                Err(e) => self.program_couter >= self.flash@.len() && e == (Error::InvalidAddress {
                    address: self.program_couter as u64,
                }),
            },
    {
        let pc = self.program_couter as usize;
        if pc < self.flash.len() {
            Ok(&self.flash[pc])
        } else {
            Err(Error::InvalidAddress { address: self.program_couter as u64 })
        }
    }
}

/// For a data space with a register file of 32 bytes, an I/O region of 64
/// bytes and a RAM of 2048 bytes, and as well for any other sizes: an index
/// below the size of the register file is a register, the indices behind it
/// are the I/O region, those behind that the RAM, and an index behind the
/// RAM is nothing.
pub proof fn lemma_regions(memory: DataMemory, index: int)
    requires
        0 <= index,
    ensures
        index < memory.registers@.len() ==> memory.byte_at(index) == Some(
            memory.registers@[index],
        ),
        memory.registers@.len() <= index < memory.registers@.len() + memory.io.data@.len()
            ==> memory.byte_at(index) == Some(memory.io.data@[index - memory.registers@.len()]),
        memory.registers@.len() + memory.io.data@.len() <= index < memory.flat().len()
            ==> memory.byte_at(index) == Some(
            memory.ram@[index - memory.registers@.len() - memory.io.data@.len()],
        ),
        index >= memory.flat().len() ==> memory.byte_at(index) is None,
        memory.flat().len() == memory.registers@.len() + memory.io.data@.len()
            + memory.ram@.len(),
        (memory.registers@.len() == 32 && memory.io.data@.len() == 64 && memory.ram@.len() == 2048)
            ==> {
            &&& index < 32 ==> memory.byte_at(index) == Some(memory.registers@[index])
            &&& 32 <= index < 96 ==> memory.byte_at(index) == Some(memory.io.data@[index - 32])
            &&& 96 <= index < 2144 ==> memory.byte_at(index) == Some(memory.ram@[index - 96])
            &&& index >= 2144 ==> memory.byte_at(index) is None
        },
{
}

} // verus!
