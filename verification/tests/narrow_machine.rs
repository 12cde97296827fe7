//! End-to-end and component tests for the 16-byte machine.

use puttpc_emu::control::{Controls, Flags};
use puttpc_emu::errors::InputTooLong;
use puttpc_emu::v2::{decode, next_control, Instruction, PuttPc, Register};
use puttpc_emu::Machine;

/// A fresh machine has all registers, memory, and flags zero, the universal
/// fetch control word, microstep 0, and is not halted.
#[test]
fn fresh_machine_zeroed() {
    let m = PuttPc::new();
    assert_eq!(m.reg(Register::Counter), 0);
    assert_eq!(m.reg(Register::A), 0);
    assert_eq!(m.reg(Register::B), 0);
    assert_eq!(m.reg(Register::Output), 0);
    assert_eq!(m.reg(Register::RamAddress), 0);
    assert_eq!(m.reg(Register::Instruction), 0);
    assert_eq!(m.memory.len(), 16);
    assert!(m.memory.iter().all(|&b| b == 0));
    assert_eq!(m.flags, Flags::clear());
    let mut fetch = Controls::empty();
    fetch.counter_out = true;
    fetch.ram_addr_in = true;
    assert_eq!(m.controls, fetch);
    assert_eq!(m.micro, 0);
    assert!(!m.is_halted());
}

/// The universal fetch: from a fresh machine the fetch completes after three
/// cycles (the first fetch word is looked up again at microstep 0), leaving
/// the instruction register holding `memory[0]` and the counter advanced.
#[test]
fn universal_fetch_loads_instruction() {
    let mut m = PuttPc::with_input(&[0x19, 0xF0]).unwrap();
    m.step();
    // The machine is now at the fetch boundary state: first fetch word,
    // microstep 1. Two more cycles complete the fetch.
    assert_eq!(m.micro, 1);
    m.step();
    m.step();
    assert_eq!(m.reg(Register::Instruction), 0x19);
    assert_eq!(m.reg(Register::Counter), 1);
}

/// The program counter wraps at the memory capacity: sixteen no-op
/// instructions bring it back to zero instead of overflowing.
#[test]
fn counter_wraps_at_capacity() {
    // Memory full of Nop (0x00): the machine fetches forever, wrapping.
    let mut m = PuttPc::new();
    let mut seen_zero_again = false;
    for _ in 0..200 {
        m.step();
        if m.reg(Register::Instruction) == 0 && m.reg(Register::Counter) == 0 && m.micro == 0 {
            seen_zero_again = true;
        }
    }
    assert!(seen_zero_again);
    assert!(m.reg(Register::Counter) < 16);
}

/// The flag latch offset: the flags committed by an `Add`'s execute cycle
/// are the pending flags computed on the cycle before it; until that execute
/// cycle the stored flags keep their old value.
#[test]
fn flag_latch_offset() {
    let mut m = PuttPc::with_input(&[0x50, 0xF0]).unwrap();
    m.acc_a = 200;
    m.acc_b = 100;
    // Three cycles: two fetch-word cycles and the fetch-latch cycle.
    m.step();
    m.step();
    m.step();
    // The Add word is about to execute; nothing has been committed yet.
    assert!(!m.flags.carry);
    assert!(!m.flags.zero);
    // The pending flags already hold the ALU outputs for 200 + 100.
    assert!(m.flags_in.carry);
    assert!(!m.flags_in.zero);
    m.step();
    // The execute cycle wrote the sum and committed last cycle's pending.
    assert_eq!(m.reg(Register::A), 44);
    assert!(m.flags.carry);
    assert!(!m.flags.zero);
}

/// Halt stability: stepping a halted machine mutates nothing and produces
/// no output.
#[test]
fn halted_step_is_noop() {
    let mut m = PuttPc::with_input(&[0xF0]).unwrap();
    let out = m.run();
    assert!(out.is_empty());
    assert!(m.is_halted());
    let pc = m.reg(Register::Counter);
    let ir = m.reg(Register::Instruction);
    let micro = m.micro;
    let controls = m.controls;
    for _ in 0..5 {
        assert_eq!(m.step(), None);
    }
    assert!(m.is_halted());
    assert_eq!(m.reg(Register::Counter), pc);
    assert_eq!(m.reg(Register::Instruction), ir);
    assert_eq!(m.micro, micro);
    assert_eq!(m.controls, controls);
}

/// Overflow: 200 + 100 wraps to 44 with Carry set and Zero clear.
#[test]
fn adder_overflow_sets_carry() {
    let mut m = PuttPc::new();
    m.acc_a = 200;
    m.acc_b = 100;
    let mut c = Controls::empty();
    c.adder_out = true;
    m.controls = c;
    assert_eq!(m.data_bus(), 44);
    let pending = m.flags_in_bus();
    assert!(pending.carry);
    assert!(!pending.zero);
}

/// Borrow: 5 - 9 wraps to 252 with Carry (borrow) set; 7 - 7 gives zero
/// with the Zero flag and no borrow.
#[test]
fn adder_subtract_borrow_and_zero() {
    let mut m = PuttPc::new();
    m.acc_a = 5;
    m.acc_b = 9;
    let mut c = Controls::empty();
    c.adder_out = true;
    c.subtract = true;
    m.controls = c;
    assert_eq!(m.data_bus(), 252);
    let pending = m.flags_in_bus();
    assert!(pending.carry);
    assert!(!pending.zero);

    m.acc_a = 7;
    m.acc_b = 7;
    let pending = m.flags_in_bus();
    assert!(!pending.carry);
    assert!(pending.zero);
}

/// End-to-end addition: load 9 into A, move it to B, load 8 into A, add,
/// output, halt. The output is exactly one byte holding the sum.
#[test]
fn addition_program() {
    let mut m = PuttPc::with_input(&[0x19, 0x40, 0x18, 0x50, 0xE0, 0xF0]).unwrap();
    assert_eq!(m.run(), vec![17]);
    assert!(m.is_halted());
}

/// End-to-end countdown: a conditional-jump loop printing 3, 2, 1.
#[test]
fn countdown_program() {
    // 0: Ldav 3; 1: Out; 2: Subv 1; 3: Jz 6; 4: Jmp 1; 5: Nop; 6: Hlt.
    let mut m = PuttPc::with_input(&[0x13, 0xE0, 0x91, 0xC6, 0xB1, 0x00, 0xF0]).unwrap();
    assert_eq!(m.run(), vec![3, 2, 1]);
}

/// End-to-end Fibonacci with wraparound: the loop outputs the sequence and
/// the carry-gated jump stops it when the addition overflows a byte.
#[test]
fn fibonacci_program() {
    // 0: Ldav 1; 1: Txb; 2: Out; 3: Sta 14; 4: Add; 5: Jc 11; 6: Sta 13;
    // 7: Ldam 14; 8: Txb; 9: Ldam 13; 10: Jmp 2; 11: Hlt.
    let program = [
        0x11, 0x40, 0xE0, 0x3E, 0x50, 0xDB, 0x3D, 0x2E, 0x40, 0x2D, 0xB2, 0xF0,
    ];
    let mut m = PuttPc::with_input(&program).unwrap();
    assert_eq!(m.run(), vec![1, 2, 3, 5, 8, 13, 21, 34, 55, 89, 144, 233]);
}

/// Bus conflict: two simultaneous drivers combine by bitwise OR, they are
/// not arbitrated and not an error.
#[test]
fn bus_conflict_is_bitwise_or() {
    let mut m = PuttPc::new();
    m.acc_a = 0b1010_0001;
    m.acc_b = 0b0100_0010;
    let mut c = Controls::empty();
    c.a_out = true;
    c.b_out = true;
    m.controls = c;
    assert_eq!(m.data_bus(), 0b1110_0011);
}

/// Every byte decodes: the high nibble selects the opcode, the low nibble
/// is ignored by the decoder.
#[test]
fn decode_is_total() {
    assert_eq!(decode(0x00), Instruction::Nop);
    assert_eq!(decode(0x1A), Instruction::Ldav);
    assert_eq!(decode(0x2F), Instruction::Ldam);
    assert_eq!(decode(0x30), Instruction::Sta);
    assert_eq!(decode(0x4C), Instruction::Txb);
    assert_eq!(decode(0x55), Instruction::Add);
    assert_eq!(decode(0x61), Instruction::Addv);
    assert_eq!(decode(0x77), Instruction::Addm);
    assert_eq!(decode(0x88), Instruction::Sub);
    assert_eq!(decode(0x99), Instruction::Subv);
    assert_eq!(decode(0xA0), Instruction::Subm);
    assert_eq!(decode(0xBF), Instruction::Jmp);
    assert_eq!(decode(0xC6), Instruction::Jz);
    assert_eq!(decode(0xD1), Instruction::Jc);
    assert_eq!(decode(0xE0), Instruction::Out);
    assert_eq!(decode(0xFF), Instruction::Hlt);
}

/// The microsequencer: the two universal fetch rows are shared by all
/// instructions, execute rows are instruction-specific and end with the
/// microstep reset, and pairs without a table entry yield the empty word.
#[test]
fn microsequencer_rows() {
    let fetch = next_control(Instruction::Sub, 0);
    assert!(fetch.counter_out && fetch.ram_addr_in && !fetch.halt);
    let latch = next_control(Instruction::Jmp, 1);
    assert!(latch.counter_increment && latch.ram_out && latch.instruction_in);
    let add = next_control(Instruction::Add, 2);
    assert!(add.adder_out && add.a_in && add.flags_in && add.reset_micro && !add.subtract);
    let sub = next_control(Instruction::Sub, 2);
    assert!(sub.subtract && sub.reset_micro);
    let hlt = next_control(Instruction::Hlt, 2);
    assert!(hlt.halt && hlt.reset_micro);
    // Nop has no row past microstep 2: a silent no-op cycle.
    assert_eq!(next_control(Instruction::Nop, 3), Controls::empty());
}

/// An input longer than memory is rejected whole and mutates nothing.
#[test]
fn input_longer_than_memory_is_rejected() {
    let mut m = PuttPc::new();
    let too_long = [1u8; 17];
    assert_eq!(
        m.set_input(&too_long),
        Err(InputTooLong { len: 17, capacity: 16 })
    );
    assert!(m.memory.iter().all(|&b| b == 0));
    assert!(PuttPc::with_input(&too_long).is_err());
    // An image of exactly the capacity is fine.
    let full = [0xF0u8; 16];
    assert!(m.set_input(&full).is_ok());
    assert!(m.memory.iter().all(|&b| b == 0xF0));
}

/// Signal-set algebra on control words: union, intersection, containment.
#[test]
fn controls_set_operations() {
    let mut a = Controls::empty();
    a.a_out = true;
    a.reset_micro = true;
    let mut b = Controls::empty();
    b.b_out = true;
    b.reset_micro = true;
    let u = a.union(b);
    assert!(u.a_out && u.b_out && u.reset_micro && !u.halt);
    let i = a.intersect(b);
    assert!(!i.a_out && !i.b_out && i.reset_micro);
    assert!(u.contains(a));
    assert!(u.contains(b));
    assert!(!a.contains(u));
    assert!(a.contains(Controls::empty()));
}

/// A defaulted machine is a fresh machine.
#[test]
fn default_is_fresh() {
    let m: PuttPc = Default::default();
    assert!(!m.is_halted());
    assert_eq!(m.memory.len(), 16);
    assert_eq!(m.reg(Register::Counter), 0);
    assert_eq!(m.micro, 0);
}

/// Looking up next cycle's control word consults the decoder and the
/// microsequencer on the current instruction register and microstep.
#[test]
fn controls_bus_follows_instruction_register() {
    let mut m = PuttPc::new();
    m.instruction = 0xE5;
    m.micro = 2;
    let word = m.controls_bus();
    assert!(word.a_out && word.output_in && word.reset_micro);
}

/// The machine drives through the `Machine` trait exactly as through its
/// inherent interface.
#[test]
fn machine_trait_runs_program() {
    let mut m = PuttPc::new();
    let out = m.run_with_input(&[0x19, 0x40, 0x18, 0x50, 0xE0, 0xF0]);
    assert_eq!(out, vec![17]);
    assert!(Machine::is_halted(&m));
}
