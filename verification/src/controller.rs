//! The driver of the engine: what the worker does on each turn, as a
//! function from its state and what it received to its next state, what it
//! shows and what it answers. The loop that calls it, with its channels and
//! its waiting, stands outside the library.

use vstd::prelude::*;
use vstd::string::*;
use crate::device::register_map::RegisterEntryView;
use crate::error::Error;
use crate::machine::{Machine, Outcome};
use crate::opcode::{Opcode, OPCODE_NAMES};
use crate::sim::{fetched_step, Sim};

verus! {

/// What the worker is told to do.
#[derive(Clone, Copy, Debug, PartialEq, Eq)]
pub enum Action {
    Run,
    Pause,
    /// End the worker.
    Stop,
    /// Set the breakpoint at this word, or clear it where it is set.
    Break(u32),
    /// Execute one instruction.
    Next,
    /// Run until the subroutine that is being executed returns.
    Skip,
    /// Watch the register of this name, or stop watching it: the name in
    /// ASCII, filled up with zero bytes.
    Watch([u8; 8]),
    /// Whether the watched registers are shown while the program runs.
    WatchUpdate(bool),
}

/// What the controller knows of its worker.
#[derive(Clone, Copy, Debug, PartialEq, Eq)]
pub enum WorkerState {
    NotInitialized,
    Running,
    /// The worker met an error and stopped.
    Error(Error),
    Initializing,
}

/// What the worker answers.
#[derive(Clone, Copy, Debug, PartialEq, Eq)]
pub enum Response {
    /// How the last action ended.
    Res(Result<(), Error>),
    /// The worker has ended.
    Join,
    /// The worker is set up.
    Ready,
}

/// What came out of a channel.
#[derive(Clone, Copy, Debug, PartialEq, Eq)]
pub enum Received<T> {
    Message(T),
    /// Nothing waits in the channel.
    Empty,
    /// The other end is gone.
    Disconnected,
}

/// One watched register.
#[derive(Debug)]
pub struct WatchEntry {
    pub name: String,
    /// Where the register stands in the data space.
    pub address: u32,
}

/// The value of one watched register.
#[derive(Debug)]
pub struct WatchValue {
    pub name: String,
    pub value: u8,
}

/// What the worker shows or asks for.
#[derive(Debug)]
pub enum Effect {
    /// The action that is now in force.
    Status(Action),
    /// The program counter.
    Location(u32),
    /// The register file.
    Registers(Vec<u8>),
    /// The watched registers with their values.
    WatchList(Vec<WatchValue>),
    /// The breakpoints.
    Breakpoints(Vec<u32>),
    /// Whether the watched registers are shown while the program runs.
    AutoUpdate(bool),
    /// Wait for this many milliseconds.
    Sleep(u64),
}

/// The worker: the machine and what it was told.
#[derive(Debug)]
pub struct Worker {
    pub sim: Sim,
    pub action: Action,
    pub action_prev: Action,
    /// Whether the state was shown since the last action came.
    pub action_executed: bool,
    pub breakpoints: Vec<u32>,
    pub watch_list: Vec<WatchEntry>,
    pub update_watch_list: bool,
    /// How many calls `Skip` has passed that have not returned yet.
    pub depth: u64,
}

/// A watched register as a plain value.
pub struct WatchEntryView {
    pub name: Seq<char>,
    pub address: u32,
}

/// The value of a watched register as a plain value.
pub struct WatchValueView {
    pub name: Seq<char>,
    pub value: u8,
}

/// What the worker shows or asks for, as a plain value.
pub enum EffectView {
    Status(Action),
    Location(u32),
    Registers(Seq<u8>),
    WatchList(Seq<WatchValueView>),
    Breakpoints(Seq<u32>),
    AutoUpdate(bool),
    Sleep(u64),
}

/// The state of the worker as plain values, with the machine in it.
pub struct WorkerView {
    pub machine: Machine,
    pub action: Action,
    pub action_prev: Action,
    pub action_executed: bool,
    pub breakpoints: Seq<u32>,
    pub watch_list: Seq<WatchEntryView>,
    pub update_watch_list: bool,
    pub depth: u64,
}

/// A turn of the worker: its state after the turn, what it showed, and
/// whether it ends (`Ok(true)`), goes on (`Ok(false)`) or met an error.
pub struct Turn {
    pub worker: WorkerView,
    pub effects: Seq<EffectView>,
    pub result: Result<bool, Error>,
}

impl View for WatchEntry {
    type V = WatchEntryView;

    open spec fn view(&self) -> WatchEntryView {
        WatchEntryView { name: self.name@, address: self.address }
    }
}

impl View for WatchValue {
    type V = WatchValueView;

    open spec fn view(&self) -> WatchValueView {
        WatchValueView { name: self.name@, value: self.value }
    }
}

/// The views of a watch list.
pub open spec fn watch_views(list: Seq<WatchEntry>) -> Seq<WatchEntryView> {
    Seq::new(list.len(), |k: int| list[k]@)
}

/// The views of a list of watched values.
pub open spec fn value_views(list: Seq<WatchValue>) -> Seq<WatchValueView> {
    Seq::new(list.len(), |k: int| list[k]@)
}

impl View for Effect {
    type V = EffectView;

    open spec fn view(&self) -> EffectView {
        match self {
            Effect::Status(action) => EffectView::Status(*action),
            Effect::Location(pc) => EffectView::Location(*pc),
            Effect::Registers(bytes) => EffectView::Registers(bytes@),
            Effect::WatchList(list) => EffectView::WatchList(value_views(list@)),
            Effect::Breakpoints(list) => EffectView::Breakpoints(list@),
            Effect::AutoUpdate(on) => EffectView::AutoUpdate(*on),
            Effect::Sleep(ms) => EffectView::Sleep(*ms),
        }
    }
}

/// The views of a list of effects.
pub open spec fn effect_views(list: Seq<Effect>) -> Seq<EffectView> {
    Seq::new(list.len(), |k: int| list[k]@)
}

impl View for Worker {
    type V = WorkerView;

    open spec fn view(&self) -> WorkerView {
        WorkerView {
            machine: self.sim@,
            action: self.action,
            action_prev: self.action_prev,
            action_executed: self.action_executed,
            breakpoints: self.breakpoints@,
            watch_list: watch_views(self.watch_list@),
            update_watch_list: self.update_watch_list,
            depth: self.depth,
        }
    }
}

/// The value that a watched register shows: the byte at its address, or
/// zero where the address lies outside the data space.
pub open spec fn watched_value(m: Machine, entry: WatchEntryView) -> WatchValueView {
    WatchValueView {
        name: entry.name,
        value: if entry.address < m.data_len() {
            m.data(entry.address as int)
        } else {
            0
        },
    }
}

/// The values of the watched registers.
pub open spec fn watched_values(m: Machine, list: Seq<WatchEntryView>) -> Seq<WatchValueView> {
    Seq::new(list.len(), |k: int| watched_value(m, list[k]))
}

/// Whether the program counter stands at a breakpoint.
pub open spec fn at_breakpoint(w: WorkerView) -> bool {
    exists|k: int| 0 <= k < w.breakpoints.len() && w.breakpoints[k] == w.machine.pc
}

/// The worker after one instruction: the machine after the instruction; a
/// `break` pauses the worker.
pub open spec fn executed_once(w: WorkerView) -> Result<WorkerView, Error> {
    match fetched_step(w.machine) {
        Err(e) => Err(e),
        Ok((machine, Outcome::Continue)) => Ok(WorkerView { machine, ..w }),
        Ok((machine, Outcome::Halt)) => Ok(WorkerView { machine, action: Action::Pause, ..w }),
    }
}

/// What is shown of the watched registers while the program runs: where
/// this is switched on and a watched register was written, the write status
/// is lowered, the values are shown and the worker waits a little.
pub open spec fn shown_while_running(w: WorkerView, effects: Seq<EffectView>) -> Turn {
    if w.update_watch_list && w.machine.write_status {
        let machine = Machine { write_status: false, ..w.machine };
        Turn {
            worker: WorkerView { machine, ..w },
            effects: effects + seq![
                EffectView::WatchList(watched_values(machine, w.watch_list)),
                EffectView::Sleep(10),
            ],
            result: Ok(false),
        }
    } else {
        Turn { worker: w, effects, result: Ok(false) }
    }
}

/// The second half of a turn of `Run`: at a breakpoint the worker pauses,
/// else it executes one instruction.
pub open spec fn run_on(w: WorkerView, effects: Seq<EffectView>) -> Turn {
    if w.action is Pause {
        shown_while_running(w, effects)
    } else if at_breakpoint(w) {
        shown_while_running(WorkerView { action: Action::Pause, ..w }, effects)
    } else {
        match executed_once(w) {
            Err(e) => Turn { worker: w, effects, result: Err(e) },
            Ok(next) => shown_while_running(next, effects),
        }
    }
}

/// A turn of `Run`. On the first turn after another action the worker shows
/// that it runs and executes one instruction whatever the breakpoints say,
/// so that it gets away from the breakpoint it stands at.
pub open spec fn run_turn(w: WorkerView) -> Turn {
    if w.action_prev != Action::Run {
        let started = WorkerView { action_prev: Action::Run, ..w };
        let effects = seq![EffectView::Status(Action::Run)];
        match executed_once(started) {
            Err(e) => Turn { worker: started, effects, result: Err(e) },
            Ok(next) => run_on(next, effects),
        }
    } else {
        run_on(w, Seq::empty())
    }
}

/// A turn of `Pause`: on the first turn the worker shows where it stands,
/// and on every turn it waits.
pub open spec fn pause_turn(w: WorkerView) -> Turn {
    if !w.action_executed {
        Turn {
            worker: WorkerView { action_executed: true, ..w },
            effects: seq![
                EffectView::Status(Action::Pause),
                EffectView::Location(w.machine.pc),
                EffectView::Registers(w.machine.registers),
                EffectView::WatchList(watched_values(w.machine, w.watch_list)),
                EffectView::Sleep(100),
            ],
            result: Ok(false),
        }
    } else {
        Turn { worker: w, effects: seq![EffectView::Sleep(100)], result: Ok(false) }
    }
}

/// The first place of `address` among the first `n` breakpoints.
pub open spec fn breakpoint_index(list: Seq<u32>, address: u32, n: nat) -> Option<int>
    decreases n,
{
    if n == 0 {
        None
    } else {
        match breakpoint_index(list, address, (n - 1) as nat) {
            Some(k) => Some(k),
            None => if list[n - 1] == address {
                Some(n - 1)
            } else {
                None
            },
        }
    }
}

/// The breakpoints after one was toggled: without its first occurrence
/// where it was set, with it at the end where it was not.
pub open spec fn toggled(list: Seq<u32>, address: u32) -> Seq<u32> {
    match breakpoint_index(list, address, list.len()) {
        Some(k) => list.remove(k),
        None => list.push(address),
    }
}

/// A turn of `Break`: the breakpoint is toggled and the action that was in
/// force before comes back.
pub open spec fn break_turn(w: WorkerView, address: u32) -> Turn {
    let breakpoints = toggled(w.breakpoints, address);
    Turn {
        worker: WorkerView { breakpoints, action: w.action_prev, ..w },
        effects: seq![EffectView::Breakpoints(breakpoints)],
        result: Ok(false),
    }
}

/// A turn of `Next`: one instruction, and then the worker pauses.
pub open spec fn next_turn(w: WorkerView) -> Turn {
    match executed_once(w) {
        Err(e) => Turn { worker: w, effects: Seq::empty(), result: Err(e) },
        Ok(next) => Turn {
            worker: WorkerView { action: Action::Pause, ..next },
            effects: Seq::empty(),
            result: Ok(false),
        },
    }
}

/// Whether an instruction is a call.
pub open spec fn is_call(name: Opcode) -> bool {
    name == Opcode::CALL || name == Opcode::ICALL || name == Opcode::EICALL || name
        == Opcode::RCALL
}

/// Whether an instruction is a return.
pub open spec fn is_return(name: Opcode) -> bool {
    name == Opcode::RET || name == Opcode::RETI
}

/// The mnemonic of the instruction at the program counter, where there is
/// one.
pub open spec fn fetched_name(m: Machine) -> Option<Opcode> {
    if m.pc < m.flash.len() && m.flash[m.pc as int].opcode_id < 124 {
        Some(OPCODE_NAMES[m.flash[m.pc as int].opcode_id as int])
    } else {
        None
    }
}

/// A turn of `Skip`: one instruction. A call makes the worker wait for one
/// more return; a return ends the waiting for one call, and where no call is
/// waited for it pauses the worker.
pub open spec fn skip_turn(w: WorkerView) -> Turn {
    match executed_once(w) {
        Err(e) => Turn { worker: w, effects: Seq::empty(), result: Err(e) },
        Ok(next) => {
            let name = fetched_name(w.machine);
            let after = if next.action is Pause || name is None {
                next
            } else if is_call(name.unwrap()) {
                WorkerView {
                    depth: if w.depth < u64::MAX {
                        (w.depth + 1) as u64
                    } else {
                        w.depth
                    },
                    ..next
                }
            } else if is_return(name.unwrap()) {
                if w.depth == 0 {
                    WorkerView { action: Action::Pause, ..next }
                } else {
                    WorkerView { depth: (w.depth - 1) as u64, ..next }
                }
            } else {
                next
            };
            Turn { worker: after, effects: Seq::empty(), result: Ok(false) }
        },
    }
}

/// A letter of a register name in upper case.
pub open spec fn upper(byte: u8) -> char {
    if 'a' as u8 <= byte <= 'z' as u8 {
        (byte - 32) as char
    } else {
        byte as char
    }
}

/// The register name that the first `n` bytes of a watch request spell: the
/// bytes that are not zero, in upper case.
pub open spec fn watch_name(data: [u8; 8], n: nat) -> Seq<char>
    decreases n,
{
    if n == 0 {
        Seq::empty()
    } else if data[n - 1] == 0 {
        watch_name(data, (n - 1) as nat)
    } else {
        watch_name(data, (n - 1) as nat).push(upper(data[n - 1]))
    }
}

/// The first place of a name among the first `n` entries of a register map.
pub open spec fn named_entry(map: Seq<RegisterEntryView>, name: Seq<char>, n: nat) -> Option<int>
    decreases n,
{
    if n == 0 {
        None
    } else {
        match named_entry(map, name, (n - 1) as nat) {
            Some(k) => Some(k),
            None => if map[n - 1].name == name {
                Some(n - 1)
            } else {
                None
            },
        }
    }
}

/// The first place of a name among the first `n` watched registers.
pub open spec fn watched_index(list: Seq<WatchEntryView>, name: Seq<char>, n: nat) -> Option<int>
    decreases n,
{
    if n == 0 {
        None
    } else {
        match watched_index(list, name, (n - 1) as nat) {
            Some(k) => Some(k),
            None => if list[n - 1].name == name {
                Some(n - 1)
            } else {
                None
            },
        }
    }
}

/// The offsets within the I/O region of the first `n` watched registers;
/// a register outside the I/O region has none.
pub open spec fn watched_offsets(list: Seq<WatchEntryView>, registers: int, io: int, n: nat)
    -> Seq<u32>
    decreases n,
{
    if n == 0 {
        Seq::empty()
    } else if registers <= list[n - 1].address < registers + io {
        watched_offsets(list, registers, io, (n - 1) as nat).push(
            (list[n - 1].address - registers) as u32,
        )
    } else {
        watched_offsets(list, registers, io, (n - 1) as nat)
    }
}

/// A turn of `Watch`: the named register is looked up in the register map
/// and toggled in the watch list, the I/O region watches the registers of
/// the list, and the action that was in force before comes back. Fails, and
/// changes nothing, where the map has no register of that name.
pub open spec fn watch_turn(w: WorkerView, data: [u8; 8], map: Seq<RegisterEntryView>) -> Turn {
    let name = watch_name(data, 8);
    match named_entry(map, name, map.len()) {
        None => Turn { worker: w, effects: Seq::empty(), result: Err(Error::InvalidValue) },
        Some(found) => {
            let watch_list = match watched_index(w.watch_list, name, w.watch_list.len()) {
                Some(k) => w.watch_list.remove(k),
                None => w.watch_list.push(
                    WatchEntryView { name, address: (map[found].offset % 0x1_0000_0000) as u32 },
                ),
            };
            let machine = Machine {
                watchlist: watched_offsets(
                    watch_list,
                    w.machine.registers.len() as int,
                    w.machine.io.len() as int,
                    watch_list.len(),
                ),
                ..w.machine
            };
            Turn {
                worker: WorkerView { watch_list, machine, action: w.action_prev, ..w },
                effects: seq![EffectView::WatchList(watched_values(machine, watch_list))],
                result: Ok(false),
            }
        },
    }
}

/// A turn of `WatchUpdate`.
pub open spec fn watch_update_turn(w: WorkerView, on: bool) -> Turn {
    Turn {
        worker: WorkerView { update_watch_list: on, action: w.action_prev, ..w },
        effects: seq![EffectView::AutoUpdate(on)],
        result: Ok(false),
    }
}

/// A turn of the worker under the action that is in force.
pub open spec fn turn_of(w: WorkerView, map: Seq<RegisterEntryView>) -> Turn {
    match w.action {
        Action::Run => run_turn(w),
        Action::Pause => pause_turn(w),
        Action::Stop => Turn { worker: w, effects: Seq::empty(), result: Ok(true) },
        Action::Break(address) => break_turn(w, address),
        Action::Next => next_turn(w),
        Action::Skip => skip_turn(w),
        Action::Watch(data) => watch_turn(w, data, map),
        Action::WatchUpdate(on) => watch_update_turn(w, on),
    }
}

/// The worker after it took what came out of its channel: an action
/// replaces the one in force, which is kept as the one before; a channel
/// whose other end is gone stops the worker.
pub open spec fn received(w: WorkerView, event: Received<Action>) -> WorkerView {
    match event {
        Received::Message(action) => WorkerView {
            action_prev: w.action,
            action,
            action_executed: false,
            depth: 0,
            ..w
        },
        Received::Empty => w,
        Received::Disconnected => WorkerView { action: Action::Stop, ..w },
    }
}

/// What the worker answers after a turn: an error pauses it and is
/// reported; the end of the worker is reported; the end of a turn that an
/// action began is reported; any other turn is not.
pub open spec fn answer(turn: Turn, began: bool) -> Option<Response> {
    match turn.result {
        Err(e) => Some(Response::Res(Err(e))),
        Ok(true) => Some(Response::Join),
        Ok(false) => if began {
            Some(Response::Res(Ok(())))
        } else {
            None
        },
    }
}

/// The state of the worker after a turn.
pub open spec fn settled(turn: Turn) -> WorkerView {
    if turn.result is Err {
        WorkerView { action: Action::Pause, ..turn.worker }
    } else {
        turn.worker
    }
}

/// What the controller knows of its worker after it took what came out of
/// the worker's channel, and whether that was in order.
pub open spec fn controller_after(state: WorkerState, event: Received<Response>) -> (
    WorkerState,
    Result<(), Error>,
) {
    match event {
        Received::Message(Response::Join) => (state, Err(Error::InvalidValue)),
        Received::Message(Response::Res(Ok(()))) => (state, Ok(())),
        Received::Message(Response::Res(Err(e))) => (WorkerState::Error(e), Ok(())),
        Received::Message(Response::Ready) => (WorkerState::Running, Ok(())),
        Received::Disconnected => (state, Err(Error::InvalidValue)),
        Received::Empty => (state, Ok(())),
    }
}

impl WorkerState {
    /// Takes what came out of the worker's channel: an error of the worker
    /// is kept, a worker that is set up runs, and a worker that ended
    /// without being asked to, or whose channel is gone, is an error.
    pub fn eval_update(&mut self, data: Received<Response>) -> (r: Result<(), Error>)
        ensures
            (*final(self), r) == controller_after(*old(self), data),
    {
        match data {
            Received::Message(Response::Join) => Err(Error::InvalidValue),
            Received::Message(Response::Res(Ok(()))) => Ok(()),
            Received::Message(Response::Res(Err(e))) => {
                *self = WorkerState::Error(e);
                Ok(())
            },
            Received::Message(Response::Ready) => {
                *self = WorkerState::Running;
                Ok(())
            },
            Received::Disconnected => Err(Error::InvalidValue),
            Received::Empty => Ok(()),
        }
    }
}

} // verus!
