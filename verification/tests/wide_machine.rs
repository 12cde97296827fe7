//! Tests for the 256-byte machine: fallible decoding, stalling opcodes, and
//! the working subset of its instruction set.

use puttpc_emu::control::Controls;
use puttpc_emu::errors::{DecodeError, InputTooLong};
use puttpc_emu::v3::{decode, next_control, Instruction, PuttPc, Register};

/// A fresh wide machine has all registers, memory, and flags zero, the
/// universal fetch control word, microstep 0, and is not halted.
#[test]
fn wide_fresh_machine_zeroed() {
    let m = PuttPc::new();
    assert_eq!(m.reg(Register::Counter), 0);
    assert_eq!(m.reg(Register::A), 0);
    assert_eq!(m.reg(Register::B), 0);
    assert_eq!(m.reg(Register::Output), 0);
    assert_eq!(m.reg(Register::RamAddress), 0);
    assert_eq!(m.reg(Register::Instruction), 0);
    assert_eq!(m.memory.len(), 256);
    assert!(m.memory.iter().all(|&b| b == 0));
    assert!(!m.flags.zero && !m.flags.carry);
    let mut fetch = Controls::empty();
    fetch.counter_out = true;
    fetch.ram_addr_in = true;
    assert_eq!(m.controls, fetch);
    assert_eq!(m.micro, 0);
    assert!(!m.is_halted());
}

/// Decoding covers exactly the enumerated opcodes and fails explicitly,
/// carrying the offending byte, on anything outside them.
#[test]
fn wide_decode_is_fallible() {
    assert_eq!(decode(0x00), Ok(Instruction::Nop));
    assert_eq!(decode(0x01), Ok(Instruction::MovAB));
    assert_eq!(decode(0x0A), Ok(Instruction::MovMM));
    assert_eq!(decode(0x10), Ok(Instruction::AddAB));
    assert_eq!(decode(0x18), Ok(Instruction::AddMM));
    assert_eq!(decode(0x20), Ok(Instruction::SubAB));
    assert_eq!(decode(0x28), Ok(Instruction::SubMM));
    assert_eq!(decode(0xD0), Ok(Instruction::Jmp));
    assert_eq!(decode(0xD4), Ok(Instruction::Jnc));
    assert_eq!(decode(0xE0), Ok(Instruction::Out));
    assert_eq!(decode(0xFF), Ok(Instruction::Hlt));
    assert_eq!(decode(0x0B), Err(DecodeError { byte: 0x0B }));
    assert_eq!(decode(0x19), Err(DecodeError { byte: 0x19 }));
    assert_eq!(decode(0x30), Err(DecodeError { byte: 0x30 }));
    assert_eq!(decode(0xD5), Err(DecodeError { byte: 0xD5 }));
    assert_eq!(decode(0xFE), Err(DecodeError { byte: 0xFE }));
}

/// A short working program: output accumulator A, then halt.
#[test]
fn wide_output_and_halt() {
    let mut m = PuttPc::with_input(&[0xE0, 0xFF]).unwrap();
    m.acc_a = 99;
    assert_eq!(m.run(), Ok(vec![99]));
    assert!(m.is_halted());
    assert_eq!(m.reg(Register::Output), 99);
}

/// Fetching a byte that names no instruction is a fatal condition: the
/// failing step reports the byte and leaves the machine untouched, and every
/// further step reports the same error.
#[test]
fn wide_decode_failure_freezes_machine() {
    let mut m = PuttPc::with_input(&[0x42]).unwrap();
    assert_eq!(m.step(), Ok(None));
    assert_eq!(m.step(), Ok(None));
    let pc = m.reg(Register::Counter);
    let micro = m.micro;
    assert_eq!(m.step(), Err(DecodeError { byte: 0x42 }));
    assert_eq!(m.reg(Register::Counter), pc);
    assert_eq!(m.micro, micro);
    assert_eq!(m.reg(Register::Instruction), 0);
    assert_eq!(m.step(), Err(DecodeError { byte: 0x42 }));
    assert!(!m.is_halted());
}

/// A run that hits an undecodable byte reports it instead of output.
#[test]
fn wide_run_reports_decode_failure() {
    let mut m = PuttPc::with_input(&[0xE0, 0x42]).unwrap();
    assert_eq!(m.run(), Err(DecodeError { byte: 0x42 }));
    assert!(!m.is_halted());
}

/// An enumerated opcode without microcode stalls: no-op cycles until the
/// microstep safety bound resets the sequence, after which the next
/// instruction is fetched normally.
#[test]
fn wide_unimplemented_opcode_stalls() {
    let mut m = PuttPc::with_input(&[0x01, 0xFF]).unwrap();
    assert_eq!(m.run(), Ok(vec![]));
    assert!(m.is_halted());
    assert_eq!(m.reg(Register::Counter), 2);
}

/// The microsequencer: universal fetch rows, the three implemented execute
/// rows, and the empty word for everything else.
#[test]
fn wide_microsequencer_rows() {
    let fetch = next_control(Instruction::Hlt, 0);
    assert!(fetch.counter_out && fetch.ram_addr_in);
    let latch = next_control(Instruction::AddAB, 1);
    assert!(latch.counter_increment && latch.ram_out && latch.instruction_in);
    let nop = next_control(Instruction::Nop, 2);
    assert!(nop.reset_micro && !nop.halt);
    let out = next_control(Instruction::Out, 2);
    assert!(out.a_out && out.output_in && out.reset_micro);
    let hlt = next_control(Instruction::Hlt, 2);
    assert!(hlt.halt && hlt.reset_micro);
    assert_eq!(next_control(Instruction::MovAB, 2), Controls::empty());
    assert_eq!(next_control(Instruction::Jmp, 3), Controls::empty());
}

/// Looking up next cycle's control word decodes the instruction register
/// and fails, with the offending byte, when it holds no opcode.
#[test]
fn wide_controls_bus_decodes_or_fails() {
    let mut m = PuttPc::new();
    m.instruction = 0xFF;
    m.micro = 2;
    let word = m.controls_bus().unwrap();
    assert!(word.halt && word.reset_micro);
    m.instruction = 0x42;
    assert_eq!(m.controls_bus(), Err(DecodeError { byte: 0x42 }));
}

/// A defaulted machine is a fresh machine.
#[test]
fn wide_default_is_fresh() {
    let m: PuttPc = Default::default();
    assert!(!m.is_halted());
    assert_eq!(m.memory.len(), 256);
    assert_eq!(m.reg(Register::Counter), 0);
}

/// The wide machine's bus and ALU behave as the narrow machine's: OR-driven
/// bus, wrapping adder, live pending flags.
#[test]
fn wide_adder_and_bus() {
    let mut m = PuttPc::new();
    m.acc_a = 200;
    m.acc_b = 100;
    let mut c = Controls::empty();
    c.adder_out = true;
    m.controls = c;
    assert_eq!(m.data_bus(), 44);
    let pending = m.flags_in_bus();
    assert!(pending.carry && !pending.zero);

    let mut c = Controls::empty();
    c.a_out = true;
    c.b_out = true;
    m.controls = c;
    assert_eq!(m.data_bus(), 200 | 100);
}

/// Stepping a halted wide machine mutates nothing and produces no output.
#[test]
fn wide_halted_step_is_noop() {
    let mut m = PuttPc::with_input(&[0xFF]).unwrap();
    assert_eq!(m.run(), Ok(vec![]));
    assert!(m.is_halted());
    let pc = m.reg(Register::Counter);
    let micro = m.micro;
    assert_eq!(m.step(), Ok(None));
    assert_eq!(m.step(), Ok(None));
    assert_eq!(m.reg(Register::Counter), pc);
    assert_eq!(m.micro, micro);
    assert!(m.is_halted());
}

/// Images up to the full 256 bytes load; anything longer is rejected whole.
#[test]
fn wide_input_capacity() {
    let mut m = PuttPc::new();
    let full = [0xFFu8; 256];
    assert!(m.set_input(&full).is_ok());
    assert!(m.memory.iter().all(|&b| b == 0xFF));
    let too_long = [0u8; 257];
    assert_eq!(
        m.set_input(&too_long),
        Err(InputTooLong { len: 257, capacity: 256 })
    );
    assert!(m.memory.iter().all(|&b| b == 0xFF));
    assert!(PuttPc::with_input(&too_long).is_err());
}
