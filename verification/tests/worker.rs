use avr_sim::constraint::Constraint;
use avr_sim::controller::{Action, Effect, Received, Response, Worker, WorkerState};
use avr_sim::device::address_space::{AddressSpace, Endianess, MemorySegment};
use avr_sim::device::info::Device;
use avr_sim::device::module::{Module, ModuleRegisterGroup, Register};
use avr_sim::device::register_map::{get_register_map, RegisterEntry};
use avr_sim::device::AvrDeviceFile;
use avr_sim::error::Error;
use avr_sim::instruction::Instruction;
use avr_sim::opcode::{Opcode, RawInst};
use avr_sim::operand::Operand;
use avr_sim::sim::Sim;

fn segment(name: &str, size: u64) -> MemorySegment {
    MemorySegment {
        start: 0,
        size,
        name: name.to_string(),
        data_type: "ram".to_string(),
        access: None,
        page_size: None,
        executable: None,
        external: None,
    }
}

fn space(id: &str, size: u64, segments: Vec<MemorySegment>) -> AddressSpace {
    AddressSpace {
        memory_segments: segments,
        endianess: Endianess::Little,
        name: id.to_string(),
        id: id.to_string(),
        start: 0,
        size,
    }
}

fn register(name: &str, offset: u64, size: u64) -> Register {
    Register { caption: None, name: name.to_string(), offset, size, initval: 0, bitfields: None }
}

fn device() -> AvrDeviceFile {
    AvrDeviceFile {
        devices: Device {
            name: "ATmega328P".to_string(),
            architecture: "AVR8".to_string(),
            family: "megaAVR".to_string(),
            address_spaces: vec![
                space("prog", 0x8000, vec![]),
                space(
                    "data",
                    0x0900,
                    vec![segment("REGISTERS", 32), segment("MAPPED_IO", 224), segment("IRAM", 2048)],
                ),
                space("eeprom", 1024, vec![]),
            ],
            peripherals: vec![],
            interrupts: vec![],
            interfaces: vec![],
            propery_groups: vec![],
        },
        modules: vec![Module {
            caption: None,
            name: "CPU".to_string(),
            register_group: vec![ModuleRegisterGroup {
                caption: None,
                name: "CPU".to_string(),
                register: vec![
                    register("SREG", 0x5f, 1),
                    register("SP", 0x5d, 2),
                    register("PORTB", 0x25, 1),
                    register("FAR", 0x500, 1),
                ],
            }],
            value_grop: vec![],
        }],
        pinouts: None,
    }
}

fn at(address: u32, opcode: Opcode, operands: &[i64]) -> Instruction {
    let id = RawInst::get_inst_id_from_opcode(opcode).unwrap();
    let list = operands.iter().map(|v| Operand::new(Constraint::i, *v)).collect();
    let mut inst = Instruction::new(String::new(), id, list);
    inst.address = address;
    inst
}

/// 0: ldi r16, 1   1: out 5, r16   2: rcall .+4 (to 5)   3: inc r17   4: break
/// 5: inc r18      6: rcall .+2 (to 8)   7: ret   8: ret
fn worker() -> (Worker, Vec<RegisterEntry>) {
    let program = vec![
        at(0, Opcode::LDI, &[16, 1]),
        at(1, Opcode::OUT, &[5, 16]),
        at(2, Opcode::RCALL, &[4]),
        at(3, Opcode::INC, &[17]),
        at(4, Opcode::BREAK, &[]),
        at(5, Opcode::INC, &[18]),
        at(6, Opcode::RCALL, &[2]),
        at(7, Opcode::RET, &[]),
        at(8, Opcode::RET, &[]),
    ];
    let device = device();
    let mut sim = Sim::init_debug(&device, program).unwrap();
    sim.debug_init_stack().unwrap();
    (Worker::new(sim), get_register_map(&device))
}

fn name(text: &str) -> [u8; 8] {
    let mut data = [0u8; 8];
    data[..text.len()].copy_from_slice(text.as_bytes());
    data
}

fn shown(effects: &[Effect]) -> Vec<String> {
    effects.iter().map(|e| format!("{:?}", e)).collect()
}

#[test]
fn a_new_worker_is_paused_and_shows_where_it_stands() {
    let (mut w, map) = worker();
    assert_eq!(w.action, Action::Pause);
    let (effects, answer, end) = w.thread_run(Received::Empty, &map);
    assert!(!end);
    assert_eq!(answer, None);
    assert_eq!(effects.len(), 5);
    assert_eq!(shown(&effects)[0], "Status(Pause)");
    assert_eq!(shown(&effects)[1], "Location(0)");
    assert!(matches!(&effects[2], Effect::Registers(bytes) if bytes.len() == 32));
    assert_eq!(shown(&effects)[3], "WatchList([])");
    assert_eq!(shown(&effects)[4], "Sleep(100)");
    assert!(w.action_executed);
    // once shown, it only waits
    let (effects, answer, end) = w.thread_run(Received::Empty, &map);
    assert_eq!(shown(&effects), vec!["Sleep(100)"]);
    assert_eq!((answer, end), (None, false));
}

#[test]
fn next_executes_one_instruction_and_pauses() {
    let (mut w, map) = worker();
    let (effects, answer, end) = w.thread_run(Received::Message(Action::Next), &map);
    assert!(effects.is_empty());
    assert_eq!(answer, Some(Response::Res(Ok(()))));
    assert!(!end);
    assert_eq!(w.sim.memory.program_couter, 1);
    assert_eq!(w.sim.memory.data.registers[16], 1);
    assert_eq!(w.action, Action::Pause);
    assert_eq!(w.action_prev, Action::Pause);
    assert!(!w.action_executed);
}

#[test]
fn run_goes_on_until_a_breakpoint() {
    let (mut w, map) = worker();
    let (effects, answer, _) = w.thread_run(Received::Message(Action::Break(5)), &map);
    assert_eq!(shown(&effects), vec!["Breakpoints([5])"]);
    assert_eq!(answer, Some(Response::Res(Ok(()))));
    assert_eq!(w.action, Action::Pause);
    // the first turn of a run executes two instructions
    let (effects, answer, _) = w.thread_run(Received::Message(Action::Run), &map);
    assert_eq!(shown(&effects), vec!["Status(Run)"]);
    assert_eq!(answer, Some(Response::Res(Ok(()))));
    assert_eq!(w.sim.memory.program_couter, 2);
    assert_eq!(w.action, Action::Run);
    // the call goes to the breakpoint
    let (effects, answer, _) = w.thread_run(Received::Empty, &map);
    assert!(effects.is_empty());
    assert_eq!(answer, None);
    assert_eq!(w.sim.memory.program_couter, 5);
    assert_eq!(w.action, Action::Run);
    // at the breakpoint the worker pauses and executes nothing
    w.thread_run(Received::Empty, &map);
    assert_eq!(w.action, Action::Pause);
    assert_eq!(w.sim.memory.program_couter, 5);
    assert_eq!(w.sim.memory.data.registers[18], 0);
    // a new run gets away from the breakpoint
    w.thread_run(Received::Message(Action::Run), &map);
    assert_eq!(w.sim.memory.data.registers[18], 1);
    assert_eq!(w.sim.memory.program_couter, 8);
    // the breakpoint is cleared by the same action
    let (effects, _, _) = w.thread_run(Received::Message(Action::Break(5)), &map);
    assert_eq!(shown(&effects), vec!["Breakpoints([])"]);
    assert_eq!(w.action, Action::Run);
}

#[test]
fn break_in_the_program_pauses_the_worker_without_error() {
    let (mut w, map) = worker();
    w.sim.memory.program_couter = 3;
    let (_, answer, end) = w.thread_run(Received::Message(Action::Run), &map);
    assert_eq!(answer, Some(Response::Res(Ok(()))));
    assert!(!end);
    // `inc` was executed, then `break` halted
    assert_eq!(w.sim.memory.data.registers[17], 1);
    assert_eq!(w.sim.memory.program_couter, 4);
    assert_eq!(w.action, Action::Pause);
}

#[test]
fn an_error_pauses_the_worker_and_is_answered() {
    let (mut w, map) = worker();
    w.sim.memory.program_couter = 100;
    let (_, answer, end) = w.thread_run(Received::Message(Action::Next), &map);
    assert_eq!(answer, Some(Response::Res(Err(Error::NotExecutable { id: 1000 }))));
    assert!(!end);
    assert_eq!(w.action, Action::Pause);
    assert_eq!(w.sim.memory.program_couter, 100);
    let mut state = WorkerState::Running;
    assert_eq!(state.eval_update(Received::Message(answer.unwrap())), Ok(()));
    assert_eq!(state, WorkerState::Error(Error::NotExecutable { id: 1000 }));
}

#[test]
fn skip_runs_until_the_subroutine_returns() {
    let (mut w, map) = worker();
    // into the subroutine at 5
    w.sim.memory.program_couter = 2;
    w.thread_run(Received::Message(Action::Next), &map);
    assert_eq!(w.sim.memory.program_couter, 5);
    let (_, answer, _) = w.thread_run(Received::Message(Action::Skip), &map);
    assert_eq!(answer, Some(Response::Res(Ok(()))));
    assert_eq!(w.sim.memory.program_couter, 6);
    assert_eq!(w.action, Action::Skip);
    // the call at 6 is waited for
    w.thread_run(Received::Empty, &map);
    assert_eq!((w.sim.memory.program_couter, w.depth), (8, 1));
    // its return is not the end
    w.thread_run(Received::Empty, &map);
    assert_eq!((w.sim.memory.program_couter, w.depth), (7, 0));
    assert_eq!(w.action, Action::Skip);
    // the return of the subroutine itself is
    let (_, answer, _) = w.thread_run(Received::Empty, &map);
    assert_eq!(answer, None);
    assert_eq!(w.sim.memory.program_couter, 3);
    assert_eq!(w.action, Action::Pause);
}

#[test]
fn watched_registers() {
    let (mut w, map) = worker();
    w.thread_run(Received::Message(Action::Run), &map);
    w.thread_run(Received::Message(Action::Pause), &map);
    let (effects, answer, _) = w.thread_run(Received::Message(Action::Watch(name("portb"))), &map);
    assert_eq!(answer, Some(Response::Res(Ok(()))));
    assert_eq!(shown(&effects), vec!["WatchList([WatchValue { name: \"PORTB\", value: 1 }])"]);
    assert_eq!(w.watch_list.len(), 1);
    assert_eq!(w.watch_list[0].address, 0x25);
    assert_eq!(w.sim.memory.data.io.watchlist, vec![5]);
    assert_eq!(w.action, Action::Pause);
    // a register outside the I/O region is watched, but no write is seen
    w.thread_run(Received::Message(Action::Watch(name("FAR"))), &map);
    assert_eq!(w.watch_list.len(), 2);
    assert_eq!(w.sim.memory.data.io.watchlist, vec![5]);
    // the same name again ends the watching
    let (effects, _, _) = w.thread_run(Received::Message(Action::Watch(name("PORTB"))), &map);
    assert_eq!(shown(&effects), vec!["WatchList([WatchValue { name: \"FAR\", value: 0 }])"]);
    assert_eq!(w.sim.memory.data.io.watchlist, Vec::<u32>::new());
    let (effects, answer, _) = w.thread_run(Received::Message(Action::Watch(name("NONE"))), &map);
    assert!(effects.is_empty());
    assert_eq!(answer, Some(Response::Res(Err(Error::InvalidValue))));
    assert_eq!(w.action, Action::Pause);
}

#[test]
fn watched_registers_are_shown_while_the_program_runs() {
    let (mut w, map) = worker();
    w.thread_run(Received::Message(Action::Watch(name("PORTB"))), &map);
    let (effects, _, _) = w.thread_run(Received::Message(Action::WatchUpdate(true)), &map);
    assert_eq!(shown(&effects), vec!["AutoUpdate(true)"]);
    assert!(w.update_watch_list);
    assert_eq!(w.action, Action::Pause);
    // the run executes `ldi` and `out`: the port is written
    let (effects, _, _) = w.thread_run(Received::Message(Action::Run), &map);
    assert_eq!(
        shown(&effects),
        vec![
            "Status(Run)".to_string(),
            "WatchList([WatchValue { name: \"PORTB\", value: 1 }])".to_string(),
            "Sleep(10)".to_string()
        ]
    );
    assert!(!w.sim.memory.data.io.write_status);
    // nothing is written on the next turn
    let (effects, _, _) = w.thread_run(Received::Empty, &map);
    assert!(effects.is_empty());
}

#[test]
fn stop_ends_the_worker() {
    let (mut w, map) = worker();
    let (effects, answer, end) = w.thread_run(Received::Message(Action::Stop), &map);
    assert!(effects.is_empty());
    assert_eq!(answer, Some(Response::Join));
    assert!(end);
    let (mut w, map) = worker();
    let (_, answer, end) = w.thread_run(Received::Disconnected, &map);
    assert_eq!(answer, Some(Response::Join));
    assert!(end);
    assert_eq!(w.action, Action::Stop);
}

#[test]
fn what_the_controller_makes_of_answers() {
    let mut state = WorkerState::Initializing;
    assert_eq!(state.eval_update(Received::Message(Response::Ready)), Ok(()));
    assert_eq!(state, WorkerState::Running);
    assert_eq!(state.eval_update(Received::Empty), Ok(()));
    assert_eq!(state.eval_update(Received::Message(Response::Res(Ok(())))), Ok(()));
    assert_eq!(state, WorkerState::Running);
    assert_eq!(state.eval_update(Received::Message(Response::Join)), Err(Error::InvalidValue));
    assert_eq!(state.eval_update(Received::Disconnected), Err(Error::InvalidValue));
    assert_eq!(state, WorkerState::Running);
    assert_eq!(
        state.eval_update(Received::Message(Response::Res(Err(Error::InvalidMcu)))),
        Ok(())
    );
    assert_eq!(state, WorkerState::Error(Error::InvalidMcu));
}
