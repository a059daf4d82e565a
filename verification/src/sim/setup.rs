//! Building a machine from a device description and a program.

use vstd::prelude::*;
use crate::device::{layout_of, AvrDeviceFile, DataLayout};
use crate::display::Display;
use crate::error::Error;
use crate::instruction::{Instruction, InstructionView};
use crate::machine::{instruction_words, stack_limit, stack_top, with_stack_top, Machine, RamSize};
use crate::memory::{empty_cell, flash_views, resize_bytes, resize_flash, resized, Memory};
use crate::opcode::{CustomOpcodes, RawInst, REMINDER_ID};
use crate::register::{cpu_registers, resolved, CommonRegister, CommonRegisters};
use crate::sim::Sim;

verus! {

/// The cell behind a two-word instruction, at word `address`.
pub open spec fn continuation_cell(address: u32) -> InstructionView {
    InstructionView {
        comment: Seq::empty(),
        comment_display: Display::Unset,
        opcode_id: REMINDER_ID,
        operands: None,
        address,
        raw_opcode: 0,
    }
}

/// The flash after the first `n` instructions of a program were put at their
/// addresses: each instruction goes to the cell of its address, and the cell
/// behind a two-word instruction becomes a continuation cell. Fails at the
/// first instruction whose address lies behind the flash or whose identity
/// is unknown.
pub open spec fn placed(cells: Seq<InstructionView>, program: Seq<InstructionView>, n: nat)
    -> Result<Seq<InstructionView>, Error>
    decreases n,
{
    if n == 0 {
        Ok(cells)
    } else {
        match placed(cells, program, (n - 1) as nat) {
            Err(e) => Err(e),
            Ok(before) => {
                let inst = program[n - 1];
                if inst.address >= before.len() {
                    Err(Error::InvalidAddress { address: inst.address as u64 })
                } else {
                    match instruction_words(inst.opcode_id as int) {
                        Err(e) => Err(e),
                        Ok(words) => {
                            let one = before.update(inst.address as int, inst);
                            if words == 2 && inst.address < u32::MAX && inst.address + 1
                                < before.len() {
                                Ok(
                                    one.update(
                                        inst.address + 1,
                                        continuation_cell((inst.address + 1) as u32),
                                    ),
                                )
                            } else {
                                Ok(one)
                            }
                        },
                    }
                }
            },
        }
    }
}

/// The width of the program counter for a flash of `words` words: three
/// bytes where two do not reach every word.
pub open spec fn ram_size_for(words: usize) -> RamSize {
    if words > 65536 {
        RamSize::Size24
    } else {
        RamSize::Size16
    }
}

/// What a device description and a program give: the sizes, the special
/// registers and the flash.
pub struct Setup {
    pub layout: DataLayout,
    pub special: CommonRegisters,
    pub flash: Seq<InstructionView>,
}

/// What is built from a device description and a program, or the error
/// that stops the building: an incomplete description, a special register
/// outside the I/O region, or an instruction that does not fit.
pub open spec fn setup_of(atdf: AvrDeviceFile, program: Seq<InstructionView>) -> Result<
    Setup,
    Error,
> {
    match layout_of(atdf) {
        None => Err(Error::InvalidDevice),
        Some(layout) => match cpu_registers(atdf) {
            None => Err(Error::InvalidDevice),
            Some(registers) => match resolved(
                registers,
                registers.len(),
                layout.registers,
                layout.io,
            ) {
                Err(e) => Err(e),
                Ok(special) => match placed(
                    resized(
                        Seq::<InstructionView>::empty(),
                        layout.flash_words as nat,
                        empty_cell(),
                    ),
                    program,
                    program.len(),
                ) {
                    Err(e) => Err(e),
                    Ok(flash) => Ok(Setup { layout, special, flash }),
                },
            },
        },
    }
}

/// The machine that is built on what a machine held before: the data space
/// and the EEPROM are cut or filled up, the rest is replaced but for the
/// program counter and the watch list.
pub open spec fn built(before: Machine, setup: Setup, eeprom: Seq<u8>) -> Machine {
    Machine {
        registers: resized(before.registers, setup.layout.registers as nat, 0u8),
        io: resized(before.io, setup.layout.io as nat, 0u8),
        ram: resized(before.ram, setup.layout.ram as nat, 0u8),
        flash: setup.flash,
        eeprom: resized(eeprom, setup.layout.eeprom as nat, 0xffu8),
        special: setup.special,
        ram_size: ram_size_for(setup.layout.flash_words),
        ..before
    }
}

/// The machine without memory.
pub open spec fn blank() -> Machine {
    Machine {
        registers: Seq::empty(),
        io: Seq::empty(),
        ram: Seq::empty(),
        watchlist: Seq::empty(),
        write_status: false,
        flash: Seq::empty(),
        eeprom: Seq::empty(),
        pc: 0,
        special: CommonRegisters::unset(),
        ram_size: RamSize::Size16,
    }
}

proof fn lemma_placed_error(
    cells: Seq<InstructionView>,
    program: Seq<InstructionView>,
    n: nat,
    m: nat,
)
    requires
        n <= m <= program.len(),
        placed(cells, program, n) is Err,
    ensures
        placed(cells, program, m) == placed(cells, program, n),
    decreases m,
{
    if n < m {
        lemma_placed_error(cells, program, n, (m - 1) as nat);
    }
}

/// Puts a program into a flash of `words` empty cells.
pub fn place_program(program: &Vec<Instruction>, words: usize) -> (r: Result<
    Vec<Instruction>,
    Error,
>)
    ensures
        match r {
            Ok(flash) => placed(
                resized(Seq::<InstructionView>::empty(), words as nat, empty_cell()),
                flash_views(program@),
                program@.len(),
            ) == Ok::<Seq<InstructionView>, Error>(flash_views(flash@)) && flash@.len() == words,
            Err(e) => placed(
                resized(Seq::<InstructionView>::empty(), words as nat, empty_cell()),
                flash_views(program@),
                program@.len(),
            ) == Err::<Seq<InstructionView>, Error>(e),
        },
{
    let ghost cells = resized(Seq::<InstructionView>::empty(), words as nat, empty_cell());
    let mut flash: Vec<Instruction> = Vec::new();
    resize_flash(&mut flash, words);
    assert(flash_views(flash@) =~= cells);
    let mut k: usize = 0;
    while k < program.len()
        invariant
            k <= program@.len(),
            flash@.len() == words,
            cells == resized(Seq::<InstructionView>::empty(), words as nat, empty_cell()),
            placed(cells, flash_views(program@), k as nat) == Ok::<Seq<InstructionView>, Error>(
                flash_views(flash@),
            ),
        decreases program@.len() - k,
    {
        let inst = program[k].duplicate();
        assert(flash_views(program@)[k as int] == inst@);
        let address = inst.address;
        if address as u64 >= words as u64 {
            proof {
                lemma_placed_error(cells, flash_views(program@), (k + 1) as nat, program@.len());
            }
            return Err(Error::InvalidAddress { address: address as u64 });
        }
        let id = inst.opcode_id;
        let length: u8 = match RawInst::get_inst_from_id(id) {
            Ok(raw) => if id < 124 {
                raw.len
            } else {
                1
            },
            Err(e) => {
                proof {
                    lemma_placed_error(
                        cells,
                        flash_views(program@),
                        (k + 1) as nat,
                        program@.len(),
                    );
                }
                return Err(e);
            },
        };
        let ghost before = flash_views(flash@);
        flash.set(address as usize, inst);
        assert(flash_views(flash@) =~= before.update(address as int, inst@));
        if length == 2 && address < u32::MAX && (address as u64 + 1) < words as u64 {
            let mut cell = Instruction::placeholder(CustomOpcodes::REMINDER);
            cell.address = address + 1;
            let ghost one = flash_views(flash@);
            flash.set(address as usize + 1, cell);
            assert(flash_views(flash@) =~= one.update(
                address + 1,
                continuation_cell((address + 1) as u32),
            ));
        }
        k = k + 1;
    }
    Ok(flash)
}

impl Sim {
    /// A machine without memory, with a program counter of two bytes.
    pub fn new() -> (r: Sim)
        ensures
            r@ == blank(),
    {
        let sim = Sim {
            memory: Memory::new(),
            registers: CommonRegisters::new(),
            ram_size: RamSize::Size16,
        };
        assert(sim@ =~= blank()) by {
            assert(sim@.registers =~= Seq::<u8>::empty());
            assert(sim@.io =~= Seq::<u8>::empty());
            assert(sim@.ram =~= Seq::<u8>::empty());
            assert(sim@.eeprom =~= Seq::<u8>::empty());
            assert(sim@.watchlist =~= Seq::<u32>::empty());
            assert(sim@.flash =~= Seq::<InstructionView>::empty());
        }
        sim
    }

    /// Builds the machine of a device around a program: the flash gets as
    /// many empty cells as the device has words of program memory and the
    /// program is put at its addresses; the EEPROM is cut or filled up with
    /// `0xFF`; the data space is cut or filled up with zero; the special
    /// registers are resolved from the description. Fails, and changes
    /// nothing, where the description is incomplete, a special register lies
    /// outside the I/O region, or an instruction does not fit.
    pub fn init_iner(&mut self, atdf: &AvrDeviceFile, inst: Vec<Instruction>, eeprom: Vec<u8>) -> (r:
        Result<(), Error>)
        ensures
            match setup_of(*atdf, flash_views(inst@)) {
                Err(e) => r == Err::<(), Error>(e) && *final(self) == *old(self),
                Ok(setup) => r is Ok && final(self)@ == built(old(self)@, setup, eeprom@),
            },
    {
        let layout = atdf.data_layout()?;
        let registers = CommonRegisters::init(atdf, layout.registers, layout.io)?;
        let flash = place_program(&inst, layout.flash_words)?;
        let mut eeprom = eeprom;
        resize_bytes(&mut eeprom, layout.eeprom, 0xff);
        self.memory.flash = flash;
        self.memory.eeprom = eeprom;
        self.memory.data.resize(&layout);
        self.registers = registers;
        self.ram_size = if layout.flash_words > 65536 {
            RamSize::Size24
        } else {
            RamSize::Size16
        };
        Ok(())
    }

    /// The machine of a device around a program, with an empty EEPROM and
    /// the program counter at 0.
    pub fn init_debug(atdf: &AvrDeviceFile, flash: Vec<Instruction>) -> (r: Result<Sim, Error>)
        ensures
            match setup_of(*atdf, flash_views(flash@)) {
                Err(e) => r == Err::<Sim, Error>(e),
                Ok(setup) => r is Ok && r.unwrap()@ == built(blank(), setup, Seq::empty()),
            },
    {
        let mut s = Sim::new();
        let empty: Vec<u8> = Vec::new();
        assert(empty@ =~= Seq::<u8>::empty());
        s.init_iner(atdf, flash, empty)?;
        Ok(s)
    }

    /// Points the stack pointer at the last byte of the data space. Fails,
    /// and changes nothing, where the device has no stack pointer or the
    /// last byte lies above what the stack pointer can hold.
    pub fn debug_init_stack(&mut self) -> (r: Result<(), Error>)
        ensures
            match r {
                Ok(()) => {
                    &&& stack_top(old(self)@) is Ok
                    &&& 0 < old(self)@.data_len() <= stack_limit(old(self)@) + 1
                    &&& final(self)@ == with_stack_top(old(self)@, old(self)@.data_len() - 1)
                },
                Err(e) => {
                    &&& final(self)@ == old(self)@
                    &&& match stack_top(old(self)@) {
                        Err(missing) => e == missing,
                        Ok(_) => e == (Error::InvalidAddress {
                            address: old(self)@.data_len() as u64,
                        }) && !(0 < old(self)@.data_len() <= stack_limit(old(self)@) + 1),
                    }
                },
            },
    {
        let _ = self.stack_pointer()?;
        let limit: u128 = match self.registers.offset_of(CommonRegister::Sph) {
            Some(_) => 65536,
            None => 256,
        };
        let len: u128 = self.memory.data.registers.len() as u128
            + self.memory.data.io.data.len() as u128 + self.memory.data.ram.len() as u128;
        if len == 0 || len > limit {
            return Err(Error::InvalidAddress { address: len as u64 });
        }
        self.write_stack_pointer((len - 1) as u32);
        Ok(())
    }
}

} // verus!
