use emu8086::cpu::CPU;
use emu8086::debugger::{Debugger, Echo, EchoError};
use emu8086::fault::Fault;
use emu8086::memory::AddressPolicy;

#[test]
fn show_setting() {
    let mut debugger = Debugger::new();
    assert!(!debugger.print_instruction);
    assert!(!debugger.code_finished);
    assert_eq!(debugger.showop(vec!["sop"]), Ok("print_opcode changed to true".to_string()));
    assert!(debugger.print_instruction);
    assert_eq!(debugger.showop(vec!["sop"]), Ok("print_opcode changed to false".to_string()));
    assert!(!debugger.print_instruction);
    assert_eq!(
        debugger.showop(vec!["sop", "true"]),
        Ok("print_opcode changed to true".to_string())
    );
    assert!(debugger.print_instruction);
    assert_eq!(
        debugger.showop(vec!["sop", "false"]),
        Ok("print_opcode changed to false".to_string())
    );
    assert!(!debugger.print_instruction);
    assert_eq!(
        debugger.showop(vec!["sop", "yes"]),
        Err("[val] should be true or false".to_string())
    );
    assert_eq!(debugger.showop(vec!["sop", "true", "x"]), Err("bad arguments".to_string()));
    assert!(!debugger.print_instruction);
    debugger.finish();
    assert!(debugger.code_finished);
    assert!(!debugger.print_instruction);
}

fn sample() -> CPU {
    let mut cpu = CPU::new();
    cpu.memory_unit.ax = 1;
    cpu.memory_unit.bx = 2;
    cpu.memory_unit.cx = 3;
    cpu.memory_unit.dx = 4;
    cpu.memory_unit.ip = 0x0105;
    cpu.memory_unit.sp = 0xFFFA;
    cpu.memory_unit.memory.extra_segment = 0x10;
    cpu.memory_unit.memory.data_segment = 0x20;
    cpu.memory_unit.memory.write(&vec![0xAA, 0xBB, 0xCC], (0x20, 0x0105)).unwrap();
    cpu.memory_unit.memory.write(&vec![0x11, 0x22, 0x33, 0x44, 0x55, 0x66], (0, 0xFFFA)).unwrap();
    cpu
}

#[test]
fn echo_registers() {
    let mut debugger = Debugger::new();
    let cpu = sample();
    assert_eq!(debugger.echo(&cpu, vec!["echo", "ax"]), Ok(Echo::Value(1)));
    assert_eq!(debugger.echo(&cpu, vec!["echo", "BX"]), Ok(Echo::Value(2)));
    assert_eq!(debugger.echo(&cpu, vec!["echo", "cx"]), Ok(Echo::Value(3)));
    assert_eq!(debugger.echo(&cpu, vec!["echo", "dx"]), Ok(Echo::Value(4)));
    assert_eq!(debugger.echo(&cpu, vec!["echo", "ip"]), Ok(Echo::Value(0x0105)));
    assert_eq!(debugger.echo(&cpu, vec!["echo", "sp"]), Ok(Echo::Value(0xFFFA)));
    assert_eq!(debugger.echo(&cpu, vec!["echo", "flags"]), Ok(Echo::Value(2)));
    assert_eq!(debugger.echo(&cpu, vec!["echo", "Freg"]), Ok(Echo::Value(2)));
    assert_eq!(debugger.echo(&cpu, vec!["echo", "es"]), Ok(Echo::Value(0x10)));
    assert_eq!(debugger.echo(&cpu, vec!["echo", "cs"]), Ok(Echo::Value(0xF000)));
    assert_eq!(debugger.echo(&cpu, vec!["echo", "di"]), Err(EchoError::BadArgument));
    assert_eq!(debugger.echo(&cpu, vec!["echo"]), Err(EchoError::BadArguments));
}

#[test]
fn echo_stack() {
    let mut debugger = Debugger::new();
    let mut cpu = sample();
    assert_eq!(
        debugger.echo(&cpu, vec!["echo", "stack"]),
        Ok(Echo::Stack(vec![(0xFFFE, 0x6655), (0xFFFC, 0x4433), (0xFFFA, 0x2211)]))
    );
    cpu.memory_unit.sp = 0xFFFF;
    assert_eq!(debugger.echo(&cpu, vec!["echo", "stack"]), Ok(Echo::Stack(vec![])));
    cpu.memory_unit.sp = 0xFFFE;
    assert_eq!(Debugger::stack(&cpu), Ok(vec![(0xFFFE, 0x6655)]));
    cpu.memory_unit.sp = 0;
    assert_eq!(Debugger::stack(&cpu).unwrap().len(), 0x8000);
    cpu.memory_unit.memory.policy = AddressPolicy::TimesSixteen;
    cpu.memory_unit.memory.stack_segment = 0xFFFF;
    assert_eq!(
        debugger.echo(&cpu, vec!["echo", "stack"]),
        Err(EchoError::Memory(Fault::AddressOutOfRange(0x10FFEE)))
    );
}

#[test]
fn echo_memory() {
    let mut debugger = Debugger::new();
    let cpu = sample();
    assert_eq!(debugger.echo(&cpu, vec!["echo", "ds:105h"]), Ok(Echo::Memory(vec![0xAA])));
    assert_eq!(debugger.echo(&cpu, vec!["echo", "DS:ip"]), Ok(Echo::Memory(vec![0xAA])));
    assert_eq!(
        debugger.echo(&cpu, vec!["echo", "ds:261", "-l", "3"]),
        Ok(Echo::Memory(vec![0xAA, 0xBB, 0xCC]))
    );
    assert_eq!(
        debugger.echo(&cpu, vec!["echo", "ds:261", "-l", "0"]),
        Ok(Echo::Memory(vec![]))
    );
    // Another option is passed over.
    assert_eq!(
        debugger.echo(&cpu, vec!["echo", "ds:261", "-n", "3"]),
        Ok(Echo::Memory(vec![0xAA]))
    );
    assert_eq!(debugger.echo(&cpu, vec!["echo", "es:0"]), Ok(Echo::Memory(vec![0])));
    match debugger.echo(&cpu, vec!["echo", "cs:fff0h", "-l", "256"]) {
        Ok(Echo::Memory(bytes)) => assert_eq!(bytes.len(), 256),
        other => panic!("no memory: {:?}", other),
    }
}

#[test]
fn echo_errors() {
    let mut debugger = Debugger::new();
    let mut cpu = sample();
    assert_eq!(debugger.echo(&cpu, vec!["echo", "xs:0"]), Err(EchoError::BadSegment));
    assert_eq!(debugger.echo(&cpu, vec!["echo", "ds:zz"]), Err(EchoError::BadAddress));
    assert_eq!(debugger.echo(&cpu, vec!["echo", "ds:1:2"]), Err(EchoError::BadArgument));
    assert_eq!(debugger.echo(&cpu, vec!["echo", "nothing"]), Err(EchoError::BadArgument));
    assert_eq!(
        debugger.echo(&cpu, vec!["echo", "ds:0", "-l", "many"]),
        Err(EchoError::BadLength)
    );
    assert_eq!(
        debugger.echo(&cpu, vec!["echo", "ds:0", "-l", "65536"]),
        Err(EchoError::BadLength)
    );
    assert_eq!(
        debugger.echo(&cpu, vec!["echo", "ds:0", "-l", "257"]),
        Err(EchoError::LengthTooLong)
    );
    cpu.memory_unit.memory.policy = AddressPolicy::TimesSixteen;
    cpu.memory_unit.memory.data_segment = 0xFFFF;
    assert_eq!(
        debugger.echo(&cpu, vec!["echo", "ds:16"]),
        Err(EchoError::Memory(Fault::AddressOutOfRange(0x100000)))
    );
}

#[test]
fn registers_by_lower_case_name() {
    let cpu = sample();
    assert_eq!(Debugger::value_named(&cpu, "ax"), Some(1));
    assert_eq!(Debugger::value_named(&cpu, "sp"), Some(0xFFFA));
    assert_eq!(Debugger::value_named(&cpu, "freg"), Some(2));
    assert_eq!(Debugger::value_named(&cpu, "cs"), Some(0xF000));
    assert_eq!(Debugger::value_named(&cpu, "AX"), None);
    assert_eq!(Debugger::value_named(&cpu, "ds"), None);
}

#[test]
fn lengths_from_their_number() {
    assert_eq!(Debugger::length_from(Some(0)), Ok(0));
    assert_eq!(Debugger::length_from(Some(256)), Ok(256));
    assert_eq!(Debugger::length_from(Some(257)), Err(EchoError::LengthTooLong));
    assert_eq!(Debugger::length_from(Some(65535)), Err(EchoError::LengthTooLong));
    assert_eq!(Debugger::length_from(Some(65536)), Err(EchoError::BadLength));
    assert_eq!(Debugger::length_from(None), Err(EchoError::BadLength));
}
