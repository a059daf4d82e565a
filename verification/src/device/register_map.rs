//! The registers of a device by their place in the data space.

use vstd::prelude::*;
use vstd::string::*;
use crate::constraint::Constraint;
use crate::device::module::{Module, ModuleRegisterGroup, Register};
use crate::device::AvrDeviceFile;
use crate::error::Error;
use crate::instruction::{annotated, Instruction, InstructionView};
use crate::operand::{Operand, OperandInfo, OperandInfoView, OperandView};

verus! {

/// One register of one byte. A register of two bytes stands in the map as
/// two entries, named after it with `(H)` and `(L)`.
#[derive(Debug)]
pub struct RegisterEntry {
    /// Where the byte stands in the data space.
    pub offset: u64,
    pub name: String,
    pub caption: Option<String>,
    /// The place of the register in the description: the module, the
    /// register group and the register, each by its index.
    pub module: usize,
    pub group: usize,
    pub register: usize,
}

/// An entry of the register map as a plain value.
pub struct RegisterEntryView {
    pub offset: u64,
    pub name: Seq<char>,
    pub caption: Option<Seq<char>>,
    pub module: usize,
    pub group: usize,
    pub register: usize,
}

impl View for RegisterEntry {
    type V = RegisterEntryView;

    open spec fn view(&self) -> RegisterEntryView {
        RegisterEntryView {
            offset: self.offset,
            name: self.name@,
            caption: match self.caption {
                Some(text) => Some(text@),
                None => None,
            },
            module: self.module,
            group: self.group,
            register: self.register,
        }
    }
}

/// The views of a list of entries.
pub open spec fn entry_views(list: Seq<RegisterEntry>) -> Seq<RegisterEntryView> {
    Seq::new(list.len(), |k: int| list[k]@)
}

/// The caption of a register as plain text.
pub open spec fn caption_of(register: Register) -> Option<Seq<char>> {
    match register.caption {
        Some(text) => Some(text@),
        None => None,
    }
}

/// The entries of one register: one for a register of one byte; for a
/// register of two bytes the high byte, one above the register's offset, and
/// then the low byte; none for any other size.
pub open spec fn register_entries(register: Register, module: usize, group: usize, index: usize)
    -> Seq<RegisterEntryView> {
    if register.size == 1 {
        seq![
            RegisterEntryView {
                offset: register.offset,
                name: register.name@,
                caption: caption_of(register),
                module,
                group,
                register: index,
            },
        ]
    } else if register.size == 2 && register.offset < u64::MAX {
        seq![
            RegisterEntryView {
                offset: (register.offset + 1) as u64,
                name: register.name@ + "(H)"@,
                caption: caption_of(register),
                module,
                group,
                register: index,
            },
            RegisterEntryView {
                offset: register.offset,
                name: register.name@ + "(L)"@,
                caption: caption_of(register),
                module,
                group,
                register: index,
            },
        ]
    } else {
        Seq::empty()
    }
}

/// The entries of the first `n` registers of a group.
pub open spec fn group_entries(group: ModuleRegisterGroup, module: usize, index: usize, n: nat)
    -> Seq<RegisterEntryView>
    decreases n,
{
    if n == 0 {
        Seq::empty()
    } else {
        group_entries(group, module, index, (n - 1) as nat) + register_entries(
            group.register@[n - 1],
            module,
            index,
            (n - 1) as usize,
        )
    }
}

/// The entries of the first `n` register groups of a module.
pub open spec fn module_entries(module: Module, index: usize, n: nat) -> Seq<RegisterEntryView>
    decreases n,
{
    if n == 0 {
        Seq::empty()
    } else {
        module_entries(module, index, (n - 1) as nat) + group_entries(
            module.register_group@[n - 1],
            index,
            (n - 1) as usize,
            module.register_group@[n - 1].register@.len(),
        )
    }
}

/// The entries of the first `n` modules of a device.
pub open spec fn device_entries(device: AvrDeviceFile, n: nat) -> Seq<RegisterEntryView>
    decreases n,
{
    if n == 0 {
        Seq::empty()
    } else {
        device_entries(device, (n - 1) as nat) + module_entries(
            device.modules@[n - 1],
            (n - 1) as usize,
            device.modules@[n - 1].register_group@.len(),
        )
    }
}

/// The entry that a map holds for an offset among its first `n` entries:
/// the last one with that offset, so that a later register replaces an
/// earlier one at the same place. `None` where there is none.
pub open spec fn entry_at(map: Seq<RegisterEntryView>, offset: u64, n: nat) -> Option<int>
    decreases n,
{
    if n == 0 {
        None
    } else if map[n - 1].offset == offset {
        Some(n - 1)
    } else {
        entry_at(map, offset, (n - 1) as nat)
    }
}

/// The details of the I/O register that an operand addresses: of a port
/// operand (constraint `P` or `p`) whose port, 0x20 above its value in the
/// data space, the map holds. The description is the caption of the
/// register, or its name where it has no caption; the mask text is the one
/// that stands for the entry in `masks`, or empty where `masks` has none.
pub open spec fn details_of(
    operand: OperandView,
    map: Seq<RegisterEntryView>,
    masks: Seq<Seq<char>>,
) -> Option<OperandInfoView> {
    if (operand.constraint == Constraint::P || operand.constraint == Constraint::p) && 0
        <= operand.value <= u64::MAX - 0x20 {
        match entry_at(map, (operand.value + 0x20) as u64, map.len()) {
            Some(k) => Some(
                OperandInfoView {
                    register_name: map[k].name,
                    register_mask: if k < masks.len() {
                        masks[k]
                    } else {
                        Seq::empty()
                    },
                    description: match map[k].caption {
                        Some(text) => text,
                        None => map[k].name,
                    },
                },
            ),
            None => operand.operand_info,
        }
    } else {
        operand.operand_info
    }
}

/// An operand with the details of its register.
pub open spec fn detailed(
    operand: OperandView,
    map: Seq<RegisterEntryView>,
    masks: Seq<Seq<char>>,
) -> OperandView {
    OperandView { operand_info: details_of(operand, map, masks), ..operand }
}

/// The texts of a list of strings.
pub open spec fn texts(list: Seq<String>) -> Seq<Seq<char>> {
    Seq::new(list.len(), |k: int| list[k]@)
}

fn copy_caption(caption: &Option<String>) -> (r: Option<String>)
    ensures
        match (r, *caption) {
            (Some(a), Some(b)) => a@ == b@,
            (None, None) => true,
            _ => false,
        },
{
    match caption {
        Some(text) => Some(text.clone()),
        None => None,
    }
}

/// Appends the entries of one register.
fn push_register(
    map: &mut Vec<RegisterEntry>,
    register: &Register,
    module: usize,
    group: usize,
    index: usize,
)
    ensures
        entry_views(final(map)@) == entry_views(old(map)@) + register_entries(
            *register,
            module,
            group,
            index,
        ),
{
    let ghost before = entry_views(map@);
    if register.size == 1 {
        map.push(
            RegisterEntry {
                offset: register.offset,
                name: register.name.clone(),
                caption: copy_caption(&register.caption),
                module,
                group,
                register: index,
            },
        );
        assert(entry_views(map@) =~= before + register_entries(*register, module, group, index));
    } else if register.size == 2 && register.offset < u64::MAX {
        let mut high = register.name.clone();
        high.append("(H)");
        let mut low = register.name.clone();
        low.append("(L)");
        map.push(
            RegisterEntry {
                offset: register.offset + 1,
                name: high,
                caption: copy_caption(&register.caption),
                module,
                group,
                register: index,
            },
        );
        map.push(
            RegisterEntry {
                offset: register.offset,
                name: low,
                caption: copy_caption(&register.caption),
                module,
                group,
                register: index,
            },
        );
        assert(entry_views(map@) =~= before + register_entries(*register, module, group, index));
    } else {
        assert(entry_views(map@) =~= before + register_entries(*register, module, group, index));
    }
}

/// The registers of a device by their place in the data space: every
/// register of every register group of every module, in the order of the
/// description. A register of two bytes gives two entries, `<name>(H)` one
/// above its offset and `<name>(L)` at its offset.
pub fn get_register_map(device: &AvrDeviceFile) -> (r: Vec<RegisterEntry>)
    ensures
        entry_views(r@) == device_entries(*device, device.modules@.len()),
{
    let mut map: Vec<RegisterEntry> = Vec::new();
    let mut m: usize = 0;
    assert(entry_views(map@) =~= device_entries(*device, 0));
    while m < device.modules.len()
        invariant
            m <= device.modules@.len(),
            entry_views(map@) == device_entries(*device, m as nat),
        decreases device.modules@.len() - m,
    {
        let module = &device.modules[m];
        let ghost done = entry_views(map@);
        let mut g: usize = 0;
        assert(done + module_entries(*module, m, 0) =~= done);
        while g < module.register_group.len()
            invariant
                g <= module.register_group@.len(),
                entry_views(map@) == done + module_entries(*module, m, g as nat),
            decreases module.register_group@.len() - g,
        {
            let group = &module.register_group[g];
            let ghost before = entry_views(map@);
            let mut k: usize = 0;
            assert(before + group_entries(*group, m, g, 0) =~= before);
            while k < group.register.len()
                invariant
                    k <= group.register@.len(),
                    entry_views(map@) == before + group_entries(*group, m, g, k as nat),
                decreases group.register@.len() - k,
            {
                let ghost so_far = group_entries(*group, m, g, k as nat);
                push_register(&mut map, &group.register[k], m, g, k);
                assert(before + (so_far + register_entries(group.register@[k as int], m, g, k))
                    =~= (before + so_far) + register_entries(group.register@[k as int], m, g, k));
                k = k + 1;
            }
            assert(done + (module_entries(*module, m, g as nat) + group_entries(
                *group,
                m,
                g,
                group.register@.len(),
            )) =~= (done + module_entries(*module, m, g as nat)) + group_entries(
                *group,
                m,
                g,
                group.register@.len(),
            ));
            g = g + 1;
        }
        m = m + 1;
    }
    map
}

/// Finds the entry of an offset: the last one of the map with that offset.
pub fn find_entry(map: &Vec<RegisterEntry>, offset: u64) -> (r: Option<usize>)
    ensures
        match r {
            Some(k) => entry_at(entry_views(map@), offset, map@.len()) == Some(k as int) && k
                < map@.len(),
            None => entry_at(entry_views(map@), offset, map@.len()) is None,
        },
{
    let mut n = map.len();
    while n > 0
        invariant
            n <= map@.len(),
            entry_at(entry_views(map@), offset, map@.len()) == entry_at(
                entry_views(map@),
                offset,
                n as nat,
            ),
        decreases n,
    {
        assert(entry_views(map@)[n - 1] == map@[n - 1]@);
        if map[n - 1].offset == offset {
            return Some(n - 1);
        }
        n = n - 1;
    }
    None
}

/// Finds the entry of a name: the first one of the map with that name.
pub fn find_by_name(map: &Vec<RegisterEntry>, name: &String) -> (r: Option<usize>)
    ensures
        match r {
            Some(k) => k < map@.len() && map@[k as int].name@ == name@ && forall|j: int|
                0 <= j < k ==> (#[trigger] map@[j]).name@ != name@,
            None => forall|j: int| 0 <= j < map@.len() ==> (#[trigger] map@[j]).name@ != name@,
        },
{
    let mut k: usize = 0;
    while k < map.len()
        invariant
            k <= map@.len(),
            forall|j: int| 0 <= j < k ==> (#[trigger] map@[j]).name@ != name@,
        decreases map@.len() - k,
    {
        if map[k].name == *name {
            return Some(k);
        }
        k = k + 1;
    }
    None
}

/// Fills in the details of the I/O registers that the operands of an
/// instruction address. `masks` holds, for the entries of the map, the text
/// that describes the bit fields of the register.
pub fn gen_operand_details(i: &mut Instruction, map: &Vec<RegisterEntry>, masks: &Vec<String>)
    ensures
        final(i)@ == (InstructionView {
            operands: match old(i)@.operands {
                Some(list) => Some(
                    list.map_values(
                        |o: OperandView| detailed(o, entry_views(map@), texts(masks@)),
                    ),
                ),
                None => None,
            },
            ..old(i)@
        }),
{
    let ghost before = i@;
    let mut taken: Option<Vec<Operand>> = None;
    std::mem::swap(&mut i.operands, &mut taken);
    match taken {
        None => {},
        Some(operands) => {
            let ghost list = crate::instruction::operand_views(operands@);
            let mut out: Vec<Operand> = Vec::new();
            let mut k: usize = 0;
            while k < operands.len()
                invariant
                    k <= operands@.len(),
                    list == crate::instruction::operand_views(operands@),
                    out@.len() == k,
                    forall|j: int|
                        0 <= j < k ==> (#[trigger] out@[j])@ == detailed(
                            list[j],
                            entry_views(map@),
                            texts(masks@),
                        ),
                decreases operands@.len() - k,
            {
                let mut operand = operands[k].duplicate();
                assert(operand@ == list[k as int]);
                let port = match operand.constraint {
                    Constraint::P => true,
                    Constraint::p => true,
                    _ => false,
                };
                if port && operand.value >= 0 && operand.value as u64 <= u64::MAX - 0x20 {
                    match find_entry(map, operand.value as u64 + 0x20) {
                        Some(e) => {
                            assert(entry_views(map@)[e as int] == map@[e as int]@);
                            let entry = &map[e];
                            let mask = if e < masks.len() {
                                assert(texts(masks@)[e as int] == masks@[e as int]@);
                                masks[e].clone()
                            } else {
                                String::new()
                            };
                            let description = match &entry.caption {
                                Some(text) => text.clone(),
                                None => entry.name.clone(),
                            };
                            operand.operand_info = Some(
                                OperandInfo {
                                    register_name: entry.name.clone(),
                                    register_mask: mask,
                                    description,
                                },
                            );
                        },
                        None => {},
                    }
                }
                out.push(operand);
                k = k + 1;
            }
            assert(crate::instruction::operand_views(out@) =~= list.map_values(
                |o: OperandView| detailed(o, entry_views(map@), texts(masks@)),
            ));
            i.operands = Some(out);
        },
    }
}

impl Instruction {
    /// Annotates the instruction for a listing: a relative jump or call
    /// gets the address it goes to as comment, and the port operands get the
    /// details of their registers. Fails, and changes nothing, where the
    /// target cannot be had.
    pub fn gen_comment(&mut self, map: &Vec<RegisterEntry>, masks: &Vec<String>) -> (r: Result<
        (),
        Error,
    >)
        ensures
            match annotated(old(self)@) {
                Ok(after) => r is Ok && final(self)@ == (InstructionView {
                    operands: match after.operands {
                        Some(list) => Some(
                            list.map_values(
                                |o: OperandView| detailed(o, entry_views(map@), texts(masks@)),
                            ),
                        ),
                        None => None,
                    },
                    ..after
                }),
                Err(e) => r == Err::<(), Error>(e) && *final(self) == *old(self),
            },
    {
        self.annotate_target()?;
        gen_operand_details(self, map, masks);
        Ok(())
    }
}

} // verus!
