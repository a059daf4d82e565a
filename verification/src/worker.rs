//! The worker's turns on the machine.

use vstd::prelude::*;
use vstd::string::*;
use crate::controller::{
    answer, at_breakpoint, break_turn, breakpoint_index, effect_views, executed_once, fetched_name,
    named_entry, next_turn, pause_turn, received, run_on, run_turn, settled, shown_while_running,
    skip_turn, turn_of, value_views, watch_name, watch_turn, watched_index, watched_offsets,
    watched_value, watched_values, Action, Effect, EffectView, Received, Response, Turn, WatchEntry,
    WatchEntryView, WatchValue, Worker, WorkerView,
};
use crate::device::register_map::{entry_views, RegisterEntry, RegisterEntryView};
use crate::error::Error;
use crate::machine::Outcome;
use crate::opcode::{Opcode, OPCODE_NAMES};
use crate::sim::Sim;
use crate::text::same_name;

verus! {

/// Whether a turn ended as the description of the turn says.
pub open spec fn is_turn(
    worker: WorkerView,
    effects: Seq<EffectView>,
    result: Result<bool, Error>,
    turn: Turn,
) -> bool {
    worker == turn.worker && effects == turn.effects && result == turn.result
}

/// A copy of a list of bytes.
fn copy_bytes(bytes: &Vec<u8>) -> (r: Vec<u8>)
    ensures
        r@ == bytes@,
{
    let mut out: Vec<u8> = Vec::new();
    let mut k: usize = 0;
    while k < bytes.len()
        invariant
            k <= bytes@.len(),
            out@.len() == k,
            forall|j: int| 0 <= j < k ==> out@[j] == bytes@[j],
        decreases bytes@.len() - k,
    {
        out.push(bytes[k]);
        k = k + 1;
    }
    assert(out@ =~= bytes@);
    out
}

/// A copy of a list of addresses.
fn copy_words(words: &Vec<u32>) -> (r: Vec<u32>)
    ensures
        r@ == words@,
{
    let mut out: Vec<u32> = Vec::new();
    let mut k: usize = 0;
    while k < words.len()
        invariant
            k <= words@.len(),
            out@.len() == k,
            forall|j: int| 0 <= j < k ==> out@[j] == words@[j],
        decreases words@.len() - k,
    {
        out.push(words[k]);
        k = k + 1;
    }
    assert(out@ =~= words@);
    out
}

/// The register name that a watch request spells.
fn read_watch_name(data: &[u8; 8]) -> (r: Vec<char>)
    ensures
        r@ == watch_name(*data, 8),
{
    let mut name: Vec<char> = Vec::new();
    let mut k: usize = 0;
    while k < 8
        invariant
            k <= 8,
            name@ == watch_name(*data, k as nat),
        decreases 8 - k,
    {
        let byte = data[k];
        if byte != 0 {
            let letter = if byte >= 97 && byte <= 122 {
                (byte - 32) as char
            } else {
                byte as char
            };
            name.push(letter);
        }
        k = k + 1;
    }
    name
}

/// Finds a register of a map by its name.
fn find_named(map: &Vec<RegisterEntry>, name: &Vec<char>) -> (r: Option<usize>)
    ensures
        match r {
            Some(k) => named_entry(entry_views(map@), name@, map@.len()) == Some(k as int) && k
                < map@.len() && map@[k as int].name@ == name@,
            None => named_entry(entry_views(map@), name@, map@.len()) is None,
        },
{
    let mut k: usize = 0;
    while k < map.len()
        invariant
            k <= map@.len(),
            named_entry(entry_views(map@), name@, k as nat) is None,
        decreases map@.len() - k,
    {
        assert(entry_views(map@)[k as int] == map@[k as int]@);
        if same_name(map[k].name.as_str(), name) {
            proof {
                lemma_named_found(entry_views(map@), name@, (k + 1) as nat, map@.len());
            }
            return Some(k);
        }
        k = k + 1;
    }
    None
}

proof fn lemma_named_found(map: Seq<RegisterEntryView>, name: Seq<char>, n: nat, m: nat)
    requires
        n <= m,
        named_entry(map, name, n) is Some,
    ensures
        named_entry(map, name, m) == named_entry(map, name, n),
    decreases m,
{
    if n < m {
        lemma_named_found(map, name, n, (m - 1) as nat);
    }
}

proof fn lemma_watched_found(list: Seq<WatchEntryView>, name: Seq<char>, n: nat, m: nat)
    requires
        n <= m,
        watched_index(list, name, n) is Some,
    ensures
        watched_index(list, name, m) == watched_index(list, name, n),
    decreases m,
{
    if n < m {
        lemma_watched_found(list, name, n, (m - 1) as nat);
    }
}

proof fn lemma_breakpoint_found(list: Seq<u32>, address: u32, n: nat, m: nat)
    requires
        n <= m,
        breakpoint_index(list, address, n) is Some,
    ensures
        breakpoint_index(list, address, m) == breakpoint_index(list, address, n),
    decreases m,
{
    if n < m {
        lemma_breakpoint_found(list, address, n, (m - 1) as nat);
    }
}

impl Worker {
    /// A worker around a machine: paused, with no breakpoint and nothing
    /// watched.
    pub fn new(sim: Sim) -> (r: Worker)
        ensures
            r@ == (WorkerView {
                machine: sim@,
                action: Action::Pause,
                action_prev: Action::Pause,
                action_executed: false,
                breakpoints: Seq::empty(),
                watch_list: Seq::empty(),
                update_watch_list: false,
                depth: 0,
            }),
    {
        let worker = Worker {
            sim,
            action: Action::Pause,
            action_prev: Action::Pause,
            action_executed: false,
            breakpoints: Vec::new(),
            watch_list: Vec::new(),
            update_watch_list: false,
            depth: 0,
        };
        assert(worker@.watch_list =~= Seq::empty());
        assert(worker@.breakpoints =~= Seq::empty());
        worker
    }

    /// Whether the program counter stands at a breakpoint.
    pub fn check_brekpoint(&self) -> (r: bool)
        ensures
            r == at_breakpoint(self@),
    {
        let pc = self.sim.memory.program_couter;
        let mut k: usize = 0;
        while k < self.breakpoints.len()
            invariant
                k <= self.breakpoints@.len(),
                pc == self@.machine.pc,
                forall|j: int| 0 <= j < k ==> self.breakpoints@[j] != pc,
            decreases self.breakpoints@.len() - k,
        {
            if self.breakpoints[k] == pc {
                assert(self@.breakpoints[k as int] == self@.machine.pc);
                return true;
            }
            k = k + 1;
        }
        false
    }

    /// Executes the instruction at the program counter; a `break` pauses the
    /// worker.
    pub fn execute_once(&mut self) -> (r: Result<(), Error>)
        ensures
            match r {
                Ok(()) => executed_once(old(self)@) == Ok::<WorkerView, Error>(final(self)@),
                Err(e) => executed_once(old(self)@) == Err::<WorkerView, Error>(e) && final(self)@
                    == old(self)@,
            },
    {
        match self.sim.exec_debug() {
            Err(e) => Err(e),
            Ok(Outcome::Continue) => Ok(()),
            Ok(Outcome::Halt) => {
                self.action = Action::Pause;
                Ok(())
            },
        }
    }

    /// The values of the watched registers.
    pub fn watch_values(&self) -> (r: Vec<WatchValue>)
        ensures
            value_views(r@) == watched_values(self@.machine, self@.watch_list),
    {
        let mut out: Vec<WatchValue> = Vec::new();
        let mut k: usize = 0;
        while k < self.watch_list.len()
            invariant
                k <= self.watch_list@.len(),
                out@.len() == k,
                forall|j: int|
                    0 <= j < k ==> (#[trigger] out@[j])@ == watched_value(
                        self@.machine,
                        self.watch_list@[j]@,
                    ),
            decreases self.watch_list@.len() - k,
        {
            let entry = &self.watch_list[k];
            let value = if self.sim.in_data_space(entry.address as u64) {
                self.sim.read_data(entry.address as usize)
            } else {
                0
            };
            out.push(WatchValue { name: entry.name.clone(), value });
            k = k + 1;
        }
        assert(value_views(out@) =~= watched_values(self@.machine, self@.watch_list));
        out
    }

    /// Shows the watched registers while the program runs, where that is due.
    fn show_while_running(&mut self, effects: &mut Vec<Effect>)
        ensures
            is_turn(
                final(self)@,
                effect_views(final(effects)@),
                Ok(false),
                shown_while_running(old(self)@, effect_views(old(effects)@)),
            ),
    {
        if self.update_watch_list && self.sim.memory.data.io.write_status {
            let ghost before = effect_views(effects@);
            self.sim.memory.data.io.write_status = false;
            let values = self.watch_values();
            effects.push(Effect::WatchList(values));
            effects.push(Effect::Sleep(10));
            assert(effect_views(effects@) =~= before + seq![
                EffectView::WatchList(watched_values(self@.machine, self@.watch_list)),
                EffectView::Sleep(10),
            ]);
        }
    }

    /// The second half of a turn of `Run`.
    fn run_onward(&mut self, effects: &mut Vec<Effect>) -> (r: Result<bool, Error>)
        ensures
            is_turn(
                final(self)@,
                effect_views(final(effects)@),
                r,
                run_on(old(self)@, effect_views(old(effects)@)),
            ),
    {
        let paused = match self.action {
            Action::Pause => true,
            _ => false,
        };
        if paused {
            self.show_while_running(effects);
            return Ok(false);
        }
        if self.check_brekpoint() {
            self.action = Action::Pause;
            self.show_while_running(effects);
            return Ok(false);
        }
        match self.execute_once() {
            Err(e) => Err(e),
            Ok(()) => {
                self.show_while_running(effects);
                Ok(false)
            },
        }
    }

    /// A turn of `Run`.
    fn run(&mut self, effects: &mut Vec<Effect>) -> (r: Result<bool, Error>)
        requires
            old(effects)@.len() == 0,
        ensures
            is_turn(final(self)@, effect_views(final(effects)@), r, run_turn(old(self)@)),
    {
        let running = match self.action_prev {
            Action::Run => true,
            _ => false,
        };
        assert(effect_views(effects@) =~= Seq::empty());
        if !running {
            self.action_prev = Action::Run;
            effects.push(Effect::Status(Action::Run));
            assert(effect_views(effects@) =~= seq![EffectView::Status(Action::Run)]);
            match self.execute_once() {
                Err(e) => {
                    return Err(e);
                },
                Ok(()) => {},
            }
        }
        self.run_onward(effects)
    }

    /// A turn of `Pause`.
    fn pause(&mut self, effects: &mut Vec<Effect>) -> (r: Result<bool, Error>)
        requires
            old(effects)@.len() == 0,
        ensures
            is_turn(final(self)@, effect_views(final(effects)@), r, pause_turn(old(self)@)),
    {
        if !self.action_executed {
            self.action_executed = true;
            effects.push(Effect::Status(Action::Pause));
            effects.push(Effect::Location(self.sim.memory.program_couter));
            effects.push(Effect::Registers(copy_bytes(&self.sim.memory.data.registers)));
            effects.push(Effect::WatchList(self.watch_values()));
            effects.push(Effect::Sleep(100));
            assert(effect_views(effects@) =~= pause_turn(old(self)@).effects);
        } else {
            effects.push(Effect::Sleep(100));
            assert(effect_views(effects@) =~= pause_turn(old(self)@).effects);
        }
        Ok(false)
    }

    /// A turn of `Break`.
    fn toggle_breakpoint(&mut self, address: u32, effects: &mut Vec<Effect>) -> (r: Result<
        bool,
        Error,
    >)
        requires
            old(effects)@.len() == 0,
        ensures
            is_turn(
                final(self)@,
                effect_views(final(effects)@),
                r,
                break_turn(old(self)@, address),
            ),
    {
        let mut found: Option<usize> = None;
        let mut k: usize = 0;
        while k < self.breakpoints.len() && found.is_none()
            invariant
                k <= self.breakpoints@.len(),
                *self == *old(self),
                match found {
                    Some(at) => breakpoint_index(
                        self.breakpoints@,
                        address,
                        self.breakpoints@.len(),
                    ) == Some(at as int) && at < self.breakpoints@.len(),
                    None => breakpoint_index(self.breakpoints@, address, k as nat) is None,
                },
            decreases self.breakpoints@.len() - k + (if found is None {
                1int
            } else {
                0int
            }),
        {
            if self.breakpoints[k] == address {
                proof {
                    lemma_breakpoint_found(
                        self.breakpoints@,
                        address,
                        (k + 1) as nat,
                        self.breakpoints@.len(),
                    );
                }
                found = Some(k);
            } else {
                k = k + 1;
            }
        }
        match found {
            Some(at) => {
                self.breakpoints.remove(at);
            },
            None => {
                self.breakpoints.push(address);
            },
        }
        self.action = self.action_prev;
        effects.push(Effect::Breakpoints(copy_words(&self.breakpoints)));
        assert(effect_views(effects@) =~= break_turn(old(self)@, address).effects);
        Ok(false)
    }

    /// A turn of `Next`.
    fn next(&mut self, effects: &mut Vec<Effect>) -> (r: Result<bool, Error>)
        requires
            old(effects)@.len() == 0,
        ensures
            is_turn(final(self)@, effect_views(final(effects)@), r, next_turn(old(self)@)),
    {
        assert(effect_views(effects@) =~= Seq::empty());
        match self.execute_once() {
            Err(e) => Err(e),
            Ok(()) => {
                self.action = Action::Pause;
                Ok(false)
            },
        }
    }

    /// The mnemonic of the instruction at the program counter.
    pub fn fetch_name(&self) -> (r: Option<Opcode>)
        ensures
            r == fetched_name(self@.machine),
    {
        let pc = self.sim.memory.program_couter;
        if pc as u64 >= self.sim.memory.flash.len() as u64 {
            return None;
        }
        let id = self.sim.memory.flash[pc as usize].opcode_id;
        if id < 124 {
            Some(OPCODE_NAMES[id])
        } else {
            None
        }
    }

    /// A turn of `Skip`.
    fn skip(&mut self, effects: &mut Vec<Effect>) -> (r: Result<bool, Error>)
        requires
            old(effects)@.len() == 0,
        ensures
            is_turn(final(self)@, effect_views(final(effects)@), r, skip_turn(old(self)@)),
    {
        assert(effect_views(effects@) =~= Seq::empty());
        let name = self.fetch_name();
        match self.execute_once() {
            Err(e) => {
                return Err(e);
            },
            Ok(()) => {},
        }
        let paused = match self.action {
            Action::Pause => true,
            _ => false,
        };
        if !paused {
            match name {
                Some(Opcode::CALL) | Some(Opcode::ICALL) | Some(Opcode::EICALL) | Some(
                    Opcode::RCALL,
                ) => {
                    if self.depth < u64::MAX {
                        self.depth = self.depth + 1;
                    }
                },
                Some(Opcode::RET) | Some(Opcode::RETI) => {
                    if self.depth == 0 {
                        self.action = Action::Pause;
                    } else {
                        self.depth = self.depth - 1;
                    }
                },
                _ => {},
            }
        }
        Ok(false)
    }

    /// The offsets within the I/O region of the watched registers.
    fn watch_offsets(&self) -> (r: Vec<u32>)
        ensures
            r@ == watched_offsets(
                self@.watch_list,
                self@.machine.registers.len() as int,
                self@.machine.io.len() as int,
                self@.watch_list.len(),
            ),
    {
        let registers = self.sim.memory.data.registers.len() as u128;
        let io = self.sim.memory.data.io.data.len() as u128;
        let mut out: Vec<u32> = Vec::new();
        let mut k: usize = 0;
        while k < self.watch_list.len()
            invariant
                k <= self.watch_list@.len(),
                registers == self@.machine.registers.len(),
                io == self@.machine.io.len(),
                registers <= usize::MAX,
                io <= usize::MAX,
                out@ == watched_offsets(
                    self@.watch_list,
                    registers as int,
                    io as int,
                    k as nat,
                ),
            decreases self.watch_list@.len() - k,
        {
            assert(self@.watch_list[k as int] == self.watch_list@[k as int]@);
            let address = self.watch_list[k].address as u128;
            if registers <= address && address < registers + io {
                out.push((address - registers) as u32);
            }
            k = k + 1;
        }
        out
    }

    /// A turn of `Watch`.
    fn watch(&mut self, data: &[u8; 8], map: &Vec<RegisterEntry>, effects: &mut Vec<Effect>) -> (r:
        Result<bool, Error>)
        requires
            old(effects)@.len() == 0,
        ensures
            is_turn(
                final(self)@,
                effect_views(final(effects)@),
                r,
                watch_turn(old(self)@, *data, entry_views(map@)),
            ),
    {
        assert(effect_views(effects@) =~= Seq::empty());
        let name = read_watch_name(data);
        let found = match find_named(map, &name) {
            Some(found) => found,
            None => {
                return Err(Error::InvalidValue);
            },
        };
        assert(entry_views(map@)[found as int] == map@[found as int]@);
        let mut at: Option<usize> = None;
        let mut k: usize = 0;
        while k < self.watch_list.len() && at.is_none()
            invariant
                k <= self.watch_list@.len(),
                *self == *old(self),
                match at {
                    Some(i) => watched_index(
                        self@.watch_list,
                        name@,
                        self@.watch_list.len(),
                    ) == Some(i as int) && i < self.watch_list@.len(),
                    None => watched_index(self@.watch_list, name@, k as nat) is None,
                },
            decreases self.watch_list@.len() - k + (if at is None {
                1int
            } else {
                0int
            }),
        {
            assert(self@.watch_list[k as int] == self.watch_list@[k as int]@);
            if same_name(self.watch_list[k].name.as_str(), &name) {
                proof {
                    lemma_watched_found(
                        self@.watch_list,
                        name@,
                        (k + 1) as nat,
                        self@.watch_list.len(),
                    );
                }
                at = Some(k);
            } else {
                k = k + 1;
            }
        }
        let ghost before = self@.watch_list;
        match at {
            Some(i) => {
                self.watch_list.remove(i);
                assert(self@.watch_list =~= before.remove(i as int));
            },
            None => {
                self.watch_list.push(
                    WatchEntry {
                        name: map[found].name.clone(),
                        address: (map[found].offset % 0x1_0000_0000) as u32,
                    },
                );
                assert(self@.watch_list =~= before.push(
                    WatchEntryView {
                        name: name@,
                        address: (map@[found as int].offset % 0x1_0000_0000) as u32,
                    },
                ));
            },
        }
        self.action = self.action_prev;
        let offsets = self.watch_offsets();
        self.sim.memory.data.io.watchlist = offsets;
        effects.push(Effect::WatchList(self.watch_values()));
        assert(effect_views(effects@) =~= watch_turn(
            old(self)@,
            *data,
            entry_views(map@),
        ).effects);
        Ok(false)
    }

    /// A turn of the worker under the action that is in force: what it does
    /// to the machine and to its own state, what it shows, and whether it
    /// ends (`Ok(true)`), goes on (`Ok(false)`) or met an error. `map` is the
    /// register map of the device.
    pub fn iner(&mut self, map: &Vec<RegisterEntry>) -> (r: (Vec<Effect>, Result<bool, Error>))
        ensures
            is_turn(final(self)@, effect_views(r.0@), r.1, turn_of(old(self)@, entry_views(map@))),
    {
        let mut effects: Vec<Effect> = Vec::new();
        let action = self.action;
        let result = match action {
            Action::Run => self.run(&mut effects),
            Action::Pause => self.pause(&mut effects),
            Action::Stop => {
                assert(effect_views(effects@) =~= Seq::empty());
                Ok(true)
            },
            Action::Break(address) => self.toggle_breakpoint(address, &mut effects),
            Action::Next => self.next(&mut effects),
            Action::Skip => self.skip(&mut effects),
            Action::Watch(data) => self.watch(&data, map, &mut effects),
            Action::WatchUpdate(on) => {
                self.action = self.action_prev;
                self.update_watch_list = on;
                effects.push(Effect::AutoUpdate(on));
                assert(effect_views(effects@) =~= seq![EffectView::AutoUpdate(on)]);
                Ok(false)
            },
        };
        (effects, result)
    }

    /// One round of the worker's loop: takes what came out of the channel,
    /// makes a turn, and says what is to be shown, what is to be answered
    /// and whether the loop ends. An error pauses the worker.
    pub fn thread_run(&mut self, event: Received<Action>, map: &Vec<RegisterEntry>) -> (r: (
        Vec<Effect>,
        Option<Response>,
        bool,
    ))
        ensures
            ({
                let turn = turn_of(received(old(self)@, event), entry_views(map@));
                &&& final(self)@ == settled(turn)
                &&& effect_views(r.0@) == turn.effects
                &&& r.1 == answer(turn, event is Message)
                &&& r.2 == (turn.result == Ok::<bool, Error>(true))
            }),
    {
        let began = match event {
            Received::Message(action) => {
                self.action_prev = self.action;
                self.action = action;
                self.action_executed = false;
                self.depth = 0;
                true
            },
            Received::Empty => false,
            Received::Disconnected => {
                self.action = Action::Stop;
                false
            },
        };
        let (effects, result) = self.iner(map);
        match result {
            Err(e) => {
                self.action = Action::Pause;
                (effects, Some(Response::Res(Err(e))), false)
            },
            Ok(false) => {
                if began {
                    (effects, Some(Response::Res(Ok(()))), false)
                } else {
                    (effects, None, false)
                }
            },
            Ok(true) => (effects, Some(Response::Join), true),
        }
    }
}

} // verus!
