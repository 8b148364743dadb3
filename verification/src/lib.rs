//! A 16-bit real-mode processor emulator: flags, segmented memory, the
//! instruction descriptor table, operand resolution and the execute and
//! write-back dispatcher, with contracts stated over a mathematical view of
//! the machine.

pub mod arithmetic;
pub mod bus;
pub mod consumption;
pub mod cpu;
pub mod debugger;
pub mod decode;
pub mod descriptor;
pub mod dispatch;
pub mod execute;
pub mod fault;
pub mod flags;
pub mod hardware;
pub mod instructions;
pub mod machine;
pub mod memory;
pub mod memory_unit;
pub mod number;
pub mod registers;
pub mod resolve;
pub mod semantics;
pub mod steps;
pub mod symmetry;
