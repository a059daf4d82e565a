//! The special registers of the CPU that live in the I/O region, and the
//! flags of the status register.

use vstd::prelude::*;
use vstd::string::*;
use crate::device::module::{Module, ModuleRegisterGroup, Register};
use crate::device::AvrDeviceFile;
use crate::error::Error;

verus! {

/// The special registers that the engine reaches by name.
#[derive(Clone, Copy, Debug, PartialEq, Eq, Structural)]
pub enum CommonRegister {
    Sreg,
    Spl,
    Sph,
    Eind,
    Rampx,
    Rampy,
    Rampz,
    Rampd,
    Mcucr,
}

/// The flags of the status register.
#[derive(Clone, Copy, Debug, PartialEq, Eq, Structural)]
pub enum Flags {
    /// Carry, bit 0.
    C,
    /// Zero, bit 1.
    Z,
    /// Negative, bit 2.
    N,
    /// Two's-complement overflow, bit 3.
    V,
    /// Sign, bit 4.
    S,
    /// Half carry, bit 5.
    H,
    /// Transfer bit, bit 6.
    T,
    /// Global interrupt enable, bit 7.
    I,
}

/// One special register: where it stands in the I/O region, or `None`
/// where the device does not have it.
#[derive(Clone, Copy, Debug, PartialEq, Eq)]
pub struct CommonReg {
    pub offset: Option<usize>,
}

/// The special registers of a device.
#[derive(Clone, Copy, Debug, PartialEq, Eq)]
pub struct CommonRegisters {
    pub sreg: CommonReg,
    pub eind: CommonReg,
    pub rampx: CommonReg,
    pub rampy: CommonReg,
    pub rampz: CommonReg,
    pub rampd: CommonReg,
    pub spl: CommonReg,
    pub sph: CommonReg,
    pub mcucr: CommonReg,
}

impl Flags {
    /// The bit of the status register that holds the flag.
    pub open spec fn spec_bit(self) -> u8 {
        match self {
            Flags::C => 0,
            Flags::Z => 1,
            Flags::N => 2,
            Flags::V => 3,
            Flags::S => 4,
            Flags::H => 5,
            Flags::T => 6,
            Flags::I => 7,
        }
    }

    /// The bit of the status register that holds the flag.
    pub fn bit(self) -> (r: u8)
        ensures
            r == self.spec_bit(),
            r < 8,
    {
        match self {
            Flags::C => 0,
            Flags::Z => 1,
            Flags::N => 2,
            Flags::V => 3,
            Flags::S => 4,
            Flags::H => 5,
            Flags::T => 6,
            Flags::I => 7,
        }
    }

    /// The flag that stands at bit `number`; an error for a number above 7.
    pub fn get_flag(number: u8) -> (r: Result<Flags, Error>)
        ensures
            match r {
                Ok(flag) => flag.spec_bit() == number,
                Err(e) => number >= 8 && e == Error::InvalidValue,
            },
    {
        match number {
            0 => Ok(Flags::C),
            1 => Ok(Flags::Z),
            2 => Ok(Flags::N),
            3 => Ok(Flags::V),
            4 => Ok(Flags::S),
            5 => Ok(Flags::H),
            6 => Ok(Flags::T),
            7 => Ok(Flags::I),
            _ => Err(Error::InvalidValue),
        }
    }
}

/// The first module with the given name.
pub open spec fn first_module(modules: Seq<Module>, name: Seq<char>) -> Option<Module>
    decreases modules.len(),
{
    if modules.len() == 0 {
        None
    } else if modules[0].name@ == name {
        Some(modules[0])
    } else {
        first_module(modules.skip(1), name)
    }
}

/// The first register group with the given name.
pub open spec fn first_group(groups: Seq<ModuleRegisterGroup>, name: Seq<char>) -> Option<
    ModuleRegisterGroup,
>
    decreases groups.len(),
{
    if groups.len() == 0 {
        None
    } else if groups[0].name@ == name {
        Some(groups[0])
    } else {
        first_group(groups.skip(1), name)
    }
}

/// The registers of the CPU: those of the group `CPU` of the module `CPU`.
pub open spec fn cpu_registers(device: AvrDeviceFile) -> Option<Seq<Register>> {
    match first_module(device.modules@, "CPU"@) {
        Some(module) => match first_group(module.register_group@, "CPU"@) {
            Some(group) => Some(group.register@),
            None => None,
        },
        None => None,
    }
}

/// The special register that a register of the CPU is, by its name. The
/// stack pointer is named `SP` where it is one register of two bytes, and
/// `SPL` and `SPH` where it is two registers.
pub open spec fn special_by_name(name: Seq<char>) -> Option<CommonRegister> {
    if name == "SREG"@ {
        Some(CommonRegister::Sreg)
    } else if name == "SP"@ || name == "SPL"@ {
        Some(CommonRegister::Spl)
    } else if name == "SPH"@ {
        Some(CommonRegister::Sph)
    } else if name == "EIND"@ {
        Some(CommonRegister::Eind)
    } else if name == "RAMPX"@ {
        Some(CommonRegister::Rampx)
    } else if name == "RAMPY"@ {
        Some(CommonRegister::Rampy)
    } else if name == "RAMPZ"@ {
        Some(CommonRegister::Rampz)
    } else if name == "RAMPD"@ {
        Some(CommonRegister::Rampd)
    } else if name == "MCUCR"@ {
        Some(CommonRegister::Mcucr)
    } else {
        None
    }
}

/// The names under which a device description lists the special registers.
pub open spec fn special_names() -> Seq<Seq<char>> {
    seq![
        "SREG"@,
        "EIND"@,
        "SP"@,
        "SPL"@,
        "SPH"@,
        "RAMPX"@,
        "RAMPY"@,
        "RAMPZ"@,
        "RAMPD"@,
        "MCUCR"@,
    ]
}

/// Whether a special register described at `offset` of the data space, with
/// `size` bytes, lies within an I/O region of `io_len` bytes that starts
/// behind `register_count` general registers.
pub open spec fn alias_fits(offset: u64, size: u64, register_count: usize, io_len: usize) -> bool {
    &&& register_count <= offset
    &&& offset - register_count < io_len
    &&& size >= 2 ==> offset - register_count + 1 < io_len
}

/// The special registers after those of the first `n` registers of the CPU
/// were resolved, or the error of the first one that lies outside the I/O
/// region.
pub open spec fn resolved(
    registers: Seq<Register>,
    n: nat,
    register_count: usize,
    io_len: usize,
) -> Result<CommonRegisters, Error>
    decreases n,
{
    if n == 0 {
        Ok(CommonRegisters::unset())
    } else {
        let register = registers[n - 1];
        match resolved(registers, (n - 1) as nat, register_count, io_len) {
            Err(e) => Err(e),
            Ok(found) => match special_by_name(register.name@) {
                None => Ok(found),
                Some(which) => if !alias_fits(
                    register.offset,
                    register.size,
                    register_count,
                    io_len,
                ) {
                    Err(Error::InvalidAddress { address: register.offset })
                } else {
                    let at = (register.offset - register_count) as usize;
                    if register.name@ == "SP"@ && register.size >= 2 {
                        Ok(
                            found.with(CommonRegister::Spl, Some(at)).with(
                                CommonRegister::Sph,
                                Some((at + 1) as usize),
                            ),
                        )
                    } else {
                        Ok(found.with(which, Some(at)))
                    }
                },
            },
        }
    }
}

impl CommonRegisters {
    /// No special register resolved.
    pub open spec fn unset() -> CommonRegisters {
        CommonRegisters {
            sreg: CommonReg { offset: None },
            eind: CommonReg { offset: None },
            rampx: CommonReg { offset: None },
            rampy: CommonReg { offset: None },
            rampz: CommonReg { offset: None },
            rampd: CommonReg { offset: None },
            spl: CommonReg { offset: None },
            sph: CommonReg { offset: None },
            mcucr: CommonReg { offset: None },
        }
    }

    /// Where a special register stands in the I/O region.
    pub open spec fn alias(self, which: CommonRegister) -> Option<usize> {
        match which {
            CommonRegister::Sreg => self.sreg.offset,
            CommonRegister::Spl => self.spl.offset,
            CommonRegister::Sph => self.sph.offset,
            CommonRegister::Eind => self.eind.offset,
            CommonRegister::Rampx => self.rampx.offset,
            CommonRegister::Rampy => self.rampy.offset,
            CommonRegister::Rampz => self.rampz.offset,
            CommonRegister::Rampd => self.rampd.offset,
            CommonRegister::Mcucr => self.mcucr.offset,
        }
    }

    /// These registers with one of them moved.
    pub open spec fn with(self, which: CommonRegister, offset: Option<usize>) -> CommonRegisters {
        let reg = CommonReg { offset };
        match which {
            CommonRegister::Sreg => CommonRegisters { sreg: reg, ..self },
            CommonRegister::Spl => CommonRegisters { spl: reg, ..self },
            CommonRegister::Sph => CommonRegisters { sph: reg, ..self },
            CommonRegister::Eind => CommonRegisters { eind: reg, ..self },
            CommonRegister::Rampx => CommonRegisters { rampx: reg, ..self },
            CommonRegister::Rampy => CommonRegisters { rampy: reg, ..self },
            CommonRegister::Rampz => CommonRegisters { rampz: reg, ..self },
            CommonRegister::Rampd => CommonRegisters { rampd: reg, ..self },
            CommonRegister::Mcucr => CommonRegisters { mcucr: reg, ..self },
        }
    }

    /// No special register resolved.
    pub fn new() -> (r: CommonRegisters)
        ensures
            r == Self::unset(),
    {
        CommonRegisters {
            sreg: CommonReg { offset: None },
            eind: CommonReg { offset: None },
            rampx: CommonReg { offset: None },
            rampy: CommonReg { offset: None },
            rampz: CommonReg { offset: None },
            rampd: CommonReg { offset: None },
            spl: CommonReg { offset: None },
            sph: CommonReg { offset: None },
            mcucr: CommonReg { offset: None },
        }
    }

    /// Where a special register stands in the I/O region.
    pub fn offset_of(&self, which: CommonRegister) -> (r: Option<usize>)
        ensures
            r == self.alias(which),
    {
        match which {
            CommonRegister::Sreg => self.sreg.offset,
            CommonRegister::Spl => self.spl.offset,
            CommonRegister::Sph => self.sph.offset,
            CommonRegister::Eind => self.eind.offset,
            CommonRegister::Rampx => self.rampx.offset,
            CommonRegister::Rampy => self.rampy.offset,
            CommonRegister::Rampz => self.rampz.offset,
            CommonRegister::Rampd => self.rampd.offset,
            CommonRegister::Mcucr => self.mcucr.offset,
        }
    }

    /// Moves one special register.
    pub fn set_offset(&mut self, which: CommonRegister, offset: Option<usize>)
        ensures
            *final(self) == old(self).with(which, offset),
    {
        let reg = CommonReg { offset };
        match which {
            CommonRegister::Sreg => {
                self.sreg = reg;
            },
            CommonRegister::Spl => {
                self.spl = reg;
            },
            CommonRegister::Sph => {
                self.sph = reg;
            },
            CommonRegister::Eind => {
                self.eind = reg;
            },
            CommonRegister::Rampx => {
                self.rampx = reg;
            },
            CommonRegister::Rampy => {
                self.rampy = reg;
            },
            CommonRegister::Rampz => {
                self.rampz = reg;
            },
            CommonRegister::Rampd => {
                self.rampd = reg;
            },
            CommonRegister::Mcucr => {
                self.mcucr = reg;
            },
        }
    }

    /// The names under which a device description lists the special
    /// registers.
    pub fn get_reg_list() -> (r: Vec<String>)
        ensures
            r@.len() == 10,
            forall|k: int| 0 <= k < 10 ==> (#[trigger] r@[k])@ == special_names()[k],
            forall|k: int| 0 <= k < 10 ==> special_by_name((#[trigger] r@[k])@) is Some,
    {
        let mut list: Vec<String> = Vec::new();
        list.push(String::from_str("SREG"));
        list.push(String::from_str("EIND"));
        list.push(String::from_str("SP"));
        list.push(String::from_str("SPL"));
        list.push(String::from_str("SPH"));
        list.push(String::from_str("RAMPX"));
        list.push(String::from_str("RAMPY"));
        list.push(String::from_str("RAMPZ"));
        list.push(String::from_str("RAMPD"));
        list.push(String::from_str("MCUCR"));
        list
    }

    /// Resolves the special registers of a device: each register of the CPU
    /// whose name is that of a special register gives the place of that
    /// register in the I/O region. A special register that the device does
    /// not list stays unset. Fails where the device describes no CPU, and
    /// where a special register lies outside the I/O region.
    pub fn init(device: &AvrDeviceFile, register_count: usize, io_len: usize) -> (r: Result<
        CommonRegisters,
        Error,
    >)
        ensures
            r == (match cpu_registers(*device) {
                None => Err::<CommonRegisters, Error>(Error::InvalidDevice),
                Some(registers) => resolved(registers, registers.len(), register_count, io_len),
            }),
    {
        let module = match find_module(&device.modules, "CPU") {
            Some(m) => m,
            None => {
                return Err(Error::InvalidDevice);
            },
        };
        let group = match find_group(&module.register_group, "CPU") {
            Some(g) => g,
            None => {
                return Err(Error::InvalidDevice);
            },
        };
        let registers = &group.register;
        let mut found = CommonRegisters::new();
        let mut k: usize = 0;
        while k < registers.len()
            invariant
                k <= registers@.len(),
                cpu_registers(*device) == Some(registers@),
                resolved(registers@, k as nat, register_count, io_len) == Ok::<
                    CommonRegisters,
                    Error,
                >(found),
            decreases registers@.len() - k,
        {
            let register = &registers[k];
            match special_of(&register.name) {
                None => {},
                Some(which) => {
                    if register.offset < register_count as u64 || register.offset
                        - register_count as u64 >= io_len as u64 || (register.size >= 2
                        && register.offset - register_count as u64 + 1 >= io_len as u64) {
                        proof {
                            lemma_resolved_error(
                                registers@,
                                (k + 1) as nat,
                                registers@.len(),
                                register_count,
                                io_len,
                            );
                        }
                        return Err(Error::InvalidAddress { address: register.offset });
                    }
                    let at = (register.offset - register_count as u64) as usize;
                    if register.size >= 2 && is_stack_pointer(&register.name) {
                        found.set_offset(CommonRegister::Spl, Some(at));
                        found.set_offset(CommonRegister::Sph, Some(at + 1));
                    } else {
                        found.set_offset(which, Some(at));
                    }
                },
            }
            k = k + 1;
        }
        Ok(found)
    }
}

proof fn lemma_resolved_error(
    registers: Seq<Register>,
    n: nat,
    m: nat,
    register_count: usize,
    io_len: usize,
)
    requires
        n <= m <= registers.len(),
        resolved(registers, n, register_count, io_len) is Err,
    ensures
        resolved(registers, m, register_count, io_len) == resolved(
            registers,
            n,
            register_count,
            io_len,
        ),
    decreases m,
{
    if n < m {
        lemma_resolved_error(registers, n, (m - 1) as nat, register_count, io_len);
    }
}

fn is_stack_pointer(name: &String) -> (r: bool)
    ensures
        r == (name@ == "SP"@),
{
    let sp = String::from_str("SP");
    *name == sp
}

fn special_of(name: &String) -> (r: Option<CommonRegister>)
    ensures
        r == special_by_name(name@),
{
    if *name == String::from_str("SREG") {
        Some(CommonRegister::Sreg)
    } else if *name == String::from_str("SP") || *name == String::from_str("SPL") {
        Some(CommonRegister::Spl)
    } else if *name == String::from_str("SPH") {
        Some(CommonRegister::Sph)
    } else if *name == String::from_str("EIND") {
        Some(CommonRegister::Eind)
    } else if *name == String::from_str("RAMPX") {
        Some(CommonRegister::Rampx)
    } else if *name == String::from_str("RAMPY") {
        Some(CommonRegister::Rampy)
    } else if *name == String::from_str("RAMPZ") {
        Some(CommonRegister::Rampz)
    } else if *name == String::from_str("RAMPD") {
        Some(CommonRegister::Rampd)
    } else if *name == String::from_str("MCUCR") {
        Some(CommonRegister::Mcucr)
    } else {
        None
    }
}

/// The first module of `modules` whose name is `name`.
pub fn find_module<'a>(modules: &'a Vec<Module>, name: &str) -> (r: Option<&'a Module>)
    ensures
        r == (match first_module(modules@, name@) {
            Some(module) => Some(&module),
            None => None,
        }),
{
    let target = String::from_str(name);
    let mut k: usize = 0;
    assert(modules@.skip(0) =~= modules@);
    while k < modules.len()
        invariant
            k <= modules@.len(),
            target@ == name@,
            first_module(modules@, name@) == first_module(modules@.skip(k as int), name@),
        decreases modules@.len() - k,
    {
        if modules[k].name == target {
            assert(modules@.skip(k as int)[0] == modules@[k as int]);
            return Some(&modules[k]);
        }
        assert(modules@.skip(k as int).skip(1) =~= modules@.skip(k + 1));
        assert(modules@.skip(k as int)[0] == modules@[k as int]);
        k = k + 1;
    }
    assert(modules@.skip(k as int).len() == 0);
    None
}

/// The first register group of `groups` whose name is `name`.
pub fn find_group<'a>(groups: &'a Vec<ModuleRegisterGroup>, name: &str) -> (r: Option<
    &'a ModuleRegisterGroup,
>)
    ensures
        r == (match first_group(groups@, name@) {
            Some(group) => Some(&group),
            None => None,
        }),
{
    let target = String::from_str(name);
    let mut k: usize = 0;
    assert(groups@.skip(0) =~= groups@);
    while k < groups.len()
        invariant
            k <= groups@.len(),
            target@ == name@,
            first_group(groups@, name@) == first_group(groups@.skip(k as int), name@),
        decreases groups@.len() - k,
    {
        if groups[k].name == target {
            assert(groups@.skip(k as int)[0] == groups@[k as int]);
            return Some(&groups[k]);
        }
        assert(groups@.skip(k as int).skip(1) =~= groups@.skip(k + 1));
        assert(groups@.skip(k as int)[0] == groups@[k as int]);
        k = k + 1;
    }
    assert(groups@.skip(k as int).len() == 0);
    None
}

} // verus!
