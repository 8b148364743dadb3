use emu8086::cpu::{Outcome, Stop, CPU};
use emu8086::dispatch::new_ports;
use emu8086::fault::Fault;

fn boot(program: &[u8]) -> (CPU, Vec<u8>) {
    let mut cpu = CPU::init(&program.to_vec(), None, None).unwrap();
    let mut ports = new_ports();
    // The far jump at the reset vector leads to the program.
    assert_eq!(cpu.run_next_instruction(&mut ports), Ok(Outcome::Executed(0xEA)));
    assert_eq!(cpu.memory_unit.memory.code_segment, 0xDEEF);
    assert_eq!(cpu.memory_unit.ip, 0x0100);
    (cpu, ports)
}

#[test]
fn move_then_increment() {
    let (mut cpu, mut ports) = boot(&[0xB8, 0x05, 0x00, 0x40]);
    assert_eq!(cpu.run_next_instruction(&mut ports), Ok(Outcome::Executed(0xB8)));
    assert_eq!(cpu.memory_unit.ax, 5);
    assert_eq!(cpu.run_next_instruction(&mut ports), Ok(Outcome::Executed(0x40)));
    assert_eq!(cpu.memory_unit.ax, 6);
}

#[test]
fn push_then_pop() {
    let (mut cpu, mut ports) = boot(&[0x50, 0x59]);
    cpu.memory_unit.ax = 0x1234;
    let sp = cpu.memory_unit.sp;
    assert_eq!(cpu.run_next_instruction(&mut ports), Ok(Outcome::Executed(0x50)));
    assert_eq!(cpu.memory_unit.sp, sp.wrapping_sub(2));
    assert_eq!(cpu.run_next_instruction(&mut ports), Ok(Outcome::Executed(0x59)));
    assert_eq!(cpu.memory_unit.cx, 0x1234);
    assert_eq!(cpu.memory_unit.sp, sp);
}

#[test]
fn byte_move_then_add() {
    let (mut cpu, mut ports) = boot(&[0xB0, 0x03, 0x04, 0x02]);
    assert_eq!(cpu.run_next_instruction(&mut ports), Ok(Outcome::Executed(0xB0)));
    assert_eq!(cpu.run_next_instruction(&mut ports), Ok(Outcome::Executed(0x04)));
    assert_eq!(cpu.memory_unit.ax & 0xFF, 5);
    assert!(!cpu.memory_unit.flags.zero);
    assert!(!cpu.memory_unit.flags.carry);
}

#[test]
fn halt_is_not_an_error() {
    let (mut cpu, mut ports) = boot(&[0xF4]);
    assert_eq!(cpu.run_next_instruction(&mut ports), Ok(Outcome::Halted));
}

#[test]
fn run_stops_at_halt() {
    let mut cpu = CPU::init(&vec![0xB8, 0x05, 0x00, 0x40, 0xF4], None, None).unwrap();
    let mut ports = new_ports();
    assert_eq!(cpu.run_program(&mut ports, 100), Ok(Stop::Halted));
    assert_eq!(cpu.memory_unit.ax, 6);
}

#[test]
fn unknown_opcode_is_a_fault() {
    let (mut cpu, mut ports) = boot(&[0x0F]);
    assert_eq!(cpu.run_next_instruction(&mut ports), Err(Fault::UnknownOpcode(0x0F)));
}

#[test]
fn push_then_pop_of_the_same_register() {
    // PUSH AX; POP AX
    let (mut cpu, mut ports) = boot(&[0x50, 0x58]);
    cpu.memory_unit.ax = 0x1234;
    cpu.memory_unit.cx = 0x0042;
    let sp = cpu.memory_unit.sp;
    assert_eq!(cpu.run_next_instruction(&mut ports), Ok(Outcome::Executed(0x50)));
    cpu.memory_unit.ax = 0;
    assert_eq!(cpu.run_next_instruction(&mut ports), Ok(Outcome::Executed(0x58)));
    assert_eq!(cpu.memory_unit.ax, 0x1234);
    assert_eq!(cpu.memory_unit.cx, 0x0042);
    assert_eq!(cpu.memory_unit.sp, sp);
}
