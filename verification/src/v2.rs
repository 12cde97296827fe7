//! The 16-byte machine: 4-bit opcodes in the high nibble of the instruction
//! byte, a 4-bit immediate operand in the low nibble, and a complete
//! microcode table covering all sixteen opcodes.

use vstd::prelude::*;
use crate::control::{Controls, Flags, fetch_word, fetch_latch_word};
use crate::state::{CoreState, adder_sum, adder_carry, pending_flags, bus_value, latched};
use crate::errors::InputTooLong;

verus! {

/// Memory capacity of this variant, in bytes. Program counter arithmetic and
/// jump targets wrap at this bound.
pub const MEMORY_SIZE: usize = 16;

/// The instruction set: one variant per 4-bit opcode, so every byte decodes.
#[derive(Clone, Copy, Debug, PartialEq, Eq, Hash, Structural)]
pub enum Instruction {
    /// Do nothing for one execute cycle.
    Nop,
    /// Load the immediate operand into accumulator A.
    Ldav,
    /// Load memory at the operand address into accumulator A.
    Ldam,
    /// Store accumulator A to memory at the operand address.
    Sta,
    /// Transfer accumulator A to accumulator B.
    Txb,
    /// Add accumulator B into accumulator A, latching the flags.
    Add,
    /// Load the immediate operand into B, then add it into A.
    Addv,
    /// Load memory at the operand address into B, then add it into A.
    Addm,
    /// Subtract accumulator B from accumulator A, latching the flags.
    Sub,
    /// Load the immediate operand into B, then subtract it from A.
    Subv,
    /// Load memory at the operand address into B, then subtract it from A.
    Subm,
    /// Jump to the operand address.
    Jmp,
    /// Jump to the operand address if the committed Zero flag is set.
    Jz,
    /// Jump to the operand address if the committed Carry flag is set.
    Jc,
    /// Write accumulator A to the output register.
    Out,
    /// Halt the machine.
    Hlt,
}

/// The six registers, by semantic identifier.
#[derive(Clone, Copy, Debug, PartialEq, Eq, Hash, Structural)]
pub enum Register {
    /// Program counter.
    Counter,
    /// Accumulator A.
    A,
    /// Accumulator B.
    B,
    /// Output register.
    Output,
    /// Memory address register.
    RamAddress,
    /// Instruction register.
    Instruction,
}

/// The instruction an instruction byte decodes to: its high nibble selects
/// one of the sixteen opcodes. Every byte decodes; the mapping is total.
pub open spec fn spec_decode(byte: u8) -> Instruction {
    let op: u8 = byte >> 4;
    if op == 0x0 {
        Instruction::Nop
    } else if op == 0x1 {
        Instruction::Ldav
    } else if op == 0x2 {
        Instruction::Ldam
    } else if op == 0x3 {
        Instruction::Sta
    } else if op == 0x4 {
        Instruction::Txb
    } else if op == 0x5 {
        Instruction::Add
    } else if op == 0x6 {
        Instruction::Addv
    } else if op == 0x7 {
        Instruction::Addm
    } else if op == 0x8 {
        Instruction::Sub
    } else if op == 0x9 {
        Instruction::Subv
    } else if op == 0xA {
        Instruction::Subm
    } else if op == 0xB {
        Instruction::Jmp
    } else if op == 0xC {
        Instruction::Jz
    } else if op == 0xD {
        Instruction::Jc
    } else if op == 0xE {
        Instruction::Out
    } else {
        Instruction::Hlt
    }
}

/// Decode an instruction byte. This variant's opcode space is saturated: the
/// sixteen opcodes fill the 4-bit opcode field exactly, so decoding is total
/// and needs no error case.
pub fn decode(byte: u8) -> (r: Instruction)
    ensures
        r == spec_decode(byte),
{
    let op: u8 = byte >> 4;
    if op == 0x0 {
        Instruction::Nop
    } else if op == 0x1 {
        Instruction::Ldav
    } else if op == 0x2 {
        Instruction::Ldam
    } else if op == 0x3 {
        Instruction::Sta
    } else if op == 0x4 {
        Instruction::Txb
    } else if op == 0x5 {
        Instruction::Add
    } else if op == 0x6 {
        Instruction::Addv
    } else if op == 0x7 {
        Instruction::Addm
    } else if op == 0x8 {
        Instruction::Sub
    } else if op == 0x9 {
        Instruction::Subv
    } else if op == 0xA {
        Instruction::Subm
    } else if op == 0xB {
        Instruction::Jmp
    } else if op == 0xC {
        Instruction::Jz
    } else if op == 0xD {
        Instruction::Jc
    } else if op == 0xE {
        Instruction::Out
    } else {
        Instruction::Hlt
    }
}

/// The microsequencer: the control word looked up for an instruction at a
/// microstep. Microsteps 0 and 1 are the universal fetch shared by all
/// instructions; from microstep 2 onward the word is instruction-specific,
/// ending with the microstep-reset signal on the instruction's final step.
/// A pair with no table entry yields the empty control word: a silent no-op
/// cycle (a stall), not a failure.
#[verifier::opaque]
pub open spec fn control_word(i: Instruction, m: nat) -> Controls {
    if m == 0 {
        fetch_word()
    } else if m == 1 {
        fetch_latch_word()
    } else {
        match i {
            Instruction::Nop => if m == 2 {
                Controls { reset_micro: true, ..Controls::empty_spec() }
            } else {
                Controls::empty_spec()
            },
            Instruction::Ldav => if m == 2 {
                Controls {
                    instruction_out: true,
                    a_in: true,
                    reset_micro: true,
                    ..Controls::empty_spec()
                }
            } else {
                Controls::empty_spec()
            },
            Instruction::Ldam => if m == 2 {
                Controls { instruction_out: true, ram_addr_in: true, ..Controls::empty_spec() }
            } else if m == 3 {
                Controls { ram_out: true, a_in: true, reset_micro: true, ..Controls::empty_spec() }
            } else {
                Controls::empty_spec()
            },
            Instruction::Sta => if m == 2 {
                Controls { instruction_out: true, ram_addr_in: true, ..Controls::empty_spec() }
            } else if m == 3 {
                Controls { a_out: true, ram_in: true, reset_micro: true, ..Controls::empty_spec() }
            } else {
                Controls::empty_spec()
            },
            Instruction::Txb => if m == 2 {
                Controls { a_out: true, b_in: true, reset_micro: true, ..Controls::empty_spec() }
            } else {
                Controls::empty_spec()
            },
            Instruction::Add => if m == 2 {
                Controls {
                    adder_out: true,
                    a_in: true,
                    flags_in: true,
                    reset_micro: true,
                    ..Controls::empty_spec()
                }
            } else {
                Controls::empty_spec()
            },
            Instruction::Addv => if m == 2 {
                Controls { instruction_out: true, b_in: true, ..Controls::empty_spec() }
            } else if m == 3 {
                Controls {
                    adder_out: true,
                    a_in: true,
                    flags_in: true,
                    reset_micro: true,
                    ..Controls::empty_spec()
                }
            } else {
                Controls::empty_spec()
            },
            Instruction::Addm => if m == 2 {
                Controls { instruction_out: true, ram_addr_in: true, ..Controls::empty_spec() }
            } else if m == 3 {
                Controls { ram_out: true, b_in: true, reset_micro: true, ..Controls::empty_spec() }
            } else if m == 4 {
                Controls {
                    adder_out: true,
                    a_in: true,
                    flags_in: true,
                    reset_micro: true,
                    ..Controls::empty_spec()
                }
            } else {
                Controls::empty_spec()
            },
            Instruction::Sub => if m == 2 {
                Controls {
                    adder_out: true,
                    a_in: true,
                    flags_in: true,
                    reset_micro: true,
                    subtract: true,
                    ..Controls::empty_spec()
                }
            } else {
                Controls::empty_spec()
            },
            Instruction::Subv => if m == 2 {
                Controls { instruction_out: true, b_in: true, subtract: true, ..Controls::empty_spec() }
            } else if m == 3 {
                Controls {
                    adder_out: true,
                    a_in: true,
                    flags_in: true,
                    reset_micro: true,
                    subtract: true,
                    ..Controls::empty_spec()
                }
            } else {
                Controls::empty_spec()
            },
            Instruction::Subm => if m == 2 {
                Controls {
                    instruction_out: true,
                    ram_addr_in: true,
                    subtract: true,
                    ..Controls::empty_spec()
                }
            } else if m == 3 {
                Controls {
                    ram_out: true,
                    b_in: true,
                    reset_micro: true,
                    subtract: true,
                    ..Controls::empty_spec()
                }
            } else if m == 4 {
                Controls {
                    adder_out: true,
                    a_in: true,
                    flags_in: true,
                    reset_micro: true,
                    subtract: true,
                    ..Controls::empty_spec()
                }
            } else {
                Controls::empty_spec()
            },
            Instruction::Jmp => if m == 2 {
                Controls { instruction_out: true, jump: true, reset_micro: true, ..Controls::empty_spec() }
            } else {
                Controls::empty_spec()
            },
            Instruction::Jz => if m == 2 {
                Controls {
                    instruction_out: true,
                    jump_if_zero: true,
                    reset_micro: true,
                    ..Controls::empty_spec()
                }
            } else {
                Controls::empty_spec()
            },
            Instruction::Jc => if m == 2 {
                Controls {
                    instruction_out: true,
                    jump_if_carry: true,
                    reset_micro: true,
                    ..Controls::empty_spec()
                }
            } else {
                Controls::empty_spec()
            },
            Instruction::Out => if m == 2 {
                Controls { a_out: true, output_in: true, reset_micro: true, ..Controls::empty_spec() }
            } else {
                Controls::empty_spec()
            },
            Instruction::Hlt => if m == 2 {
                Controls { halt: true, reset_micro: true, ..Controls::empty_spec() }
            } else {
                Controls::empty_spec()
            },
        }
    }
}

/// Look up the control word for `i` at microstep `micro`.
pub fn next_control(i: Instruction, micro: usize) -> (r: Controls)
    ensures
        r == control_word(i, micro as nat),
{
    proof {
        reveal(control_word);
    }
    if micro == 0 {
        Controls { counter_out: true, ram_addr_in: true, ..Controls::empty() }
    } else if micro == 1 {
        Controls {
            counter_increment: true,
            ram_out: true,
            instruction_in: true,
            ..Controls::empty()
        }
    } else {
        match i {
            Instruction::Nop => if micro == 2 {
                Controls { reset_micro: true, ..Controls::empty() }
            } else {
                Controls::empty()
            },
            Instruction::Ldav => if micro == 2 {
                Controls { instruction_out: true, a_in: true, reset_micro: true, ..Controls::empty() }
            } else {
                Controls::empty()
            },
            Instruction::Ldam => if micro == 2 {
                Controls { instruction_out: true, ram_addr_in: true, ..Controls::empty() }
            } else if micro == 3 {
                Controls { ram_out: true, a_in: true, reset_micro: true, ..Controls::empty() }
            } else {
                Controls::empty()
            },
            Instruction::Sta => if micro == 2 {
                Controls { instruction_out: true, ram_addr_in: true, ..Controls::empty() }
            } else if micro == 3 {
                Controls { a_out: true, ram_in: true, reset_micro: true, ..Controls::empty() }
            } else {
                Controls::empty()
            },
            Instruction::Txb => if micro == 2 {
                Controls { a_out: true, b_in: true, reset_micro: true, ..Controls::empty() }
            } else {
                Controls::empty()
            },
            Instruction::Add => if micro == 2 {
                Controls {
                    adder_out: true,
                    a_in: true,
                    flags_in: true,
                    reset_micro: true,
                    ..Controls::empty()
                }
            } else {
                Controls::empty()
            },
            Instruction::Addv => if micro == 2 {
                Controls { instruction_out: true, b_in: true, ..Controls::empty() }
            } else if micro == 3 {
                Controls {
                    adder_out: true,
                    a_in: true,
                    flags_in: true,
                    reset_micro: true,
                    ..Controls::empty()
                }
            } else {
                Controls::empty()
            },
            Instruction::Addm => if micro == 2 {
                Controls { instruction_out: true, ram_addr_in: true, ..Controls::empty() }
            } else if micro == 3 {
                Controls { ram_out: true, b_in: true, reset_micro: true, ..Controls::empty() }
            } else if micro == 4 {
                Controls {
                    adder_out: true,
                    a_in: true,
                    flags_in: true,
                    reset_micro: true,
                    ..Controls::empty()
                }
            } else {
                Controls::empty()
            },
            Instruction::Sub => if micro == 2 {
                Controls {
                    adder_out: true,
                    a_in: true,
                    flags_in: true,
                    reset_micro: true,
                    subtract: true,
                    ..Controls::empty()
                }
            } else {
                Controls::empty()
            },
            Instruction::Subv => if micro == 2 {
                Controls { instruction_out: true, b_in: true, subtract: true, ..Controls::empty() }
            } else if micro == 3 {
                Controls {
                    adder_out: true,
                    a_in: true,
                    flags_in: true,
                    reset_micro: true,
                    subtract: true,
                    ..Controls::empty()
                }
            } else {
                Controls::empty()
            },
            Instruction::Subm => if micro == 2 {
                Controls {
                    instruction_out: true,
                    ram_addr_in: true,
                    subtract: true,
                    ..Controls::empty()
                }
            } else if micro == 3 {
                Controls {
                    ram_out: true,
                    b_in: true,
                    reset_micro: true,
                    subtract: true,
                    ..Controls::empty()
                }
            } else if micro == 4 {
                Controls {
                    adder_out: true,
                    a_in: true,
                    flags_in: true,
                    reset_micro: true,
                    subtract: true,
                    ..Controls::empty()
                }
            } else {
                Controls::empty()
            },
            Instruction::Jmp => if micro == 2 {
                Controls { instruction_out: true, jump: true, reset_micro: true, ..Controls::empty() }
            } else {
                Controls::empty()
            },
            Instruction::Jz => if micro == 2 {
                Controls {
                    instruction_out: true,
                    jump_if_zero: true,
                    reset_micro: true,
                    ..Controls::empty()
                }
            } else {
                Controls::empty()
            },
            Instruction::Jc => if micro == 2 {
                Controls {
                    instruction_out: true,
                    jump_if_carry: true,
                    reset_micro: true,
                    ..Controls::empty()
                }
            } else {
                Controls::empty()
            },
            Instruction::Out => if micro == 2 {
                Controls { a_out: true, output_in: true, reset_micro: true, ..Controls::empty() }
            } else {
                Controls::empty()
            },
            Instruction::Hlt => if micro == 2 {
                Controls { halt: true, reset_micro: true, ..Controls::empty() }
            } else {
                Controls::empty()
            },
        }
    }
}

/// A control word is address-safe when asserting the address latch implies
/// that only small-valued sources (the program counter and the masked
/// operand nibble) may drive the bus. Every word the microsequencer emits is
/// address-safe, which keeps the memory address register below the capacity.
pub open spec fn wf_controls(c: Controls) -> bool {
    c.ram_addr_in ==> !(c.a_out || c.b_out || c.ram_out || c.adder_out)
}

/// Well-formedness of a machine state: memory has exactly the capacity, the
/// program counter and memory address register are inside it, the microstep
/// counter is within the safety bound, and the control word is one the
/// microsequencer could have emitted as far as address safety is concerned.
pub open spec fn wf_state(s: CoreState) -> bool {
    &&& s.memory.len() == 16
    &&& s.pc < 16
    &&& s.ram_address < 16
    &&& s.micro <= 4
    &&& wf_controls(s.controls)
}

/// Every word in the microcode table is address-safe.
pub proof fn lemma_control_word_wf(i: Instruction, m: nat)
    ensures
        wf_controls(control_word(i, m)),
{
    reveal(control_word);
}

/// The state of a fresh machine: registers, memory, and latched flags all
/// zero; the control word is the first universal fetch word; the pending
/// flags show Zero, since the ALU of an all-zero machine outputs zero.
pub open spec fn initial_state() -> CoreState {
    CoreState {
        pc: 0,
        acc_a: 0,
        acc_b: 0,
        output: 0,
        ram_address: 0,
        instruction: 0,
        memory: Seq::new(16, |i: int| 0u8),
        controls: fetch_word(),
        flags_in: Flags { zero: true, carry: false },
        flags: Flags { zero: false, carry: false },
        micro: 0,
    }
}

/// A state after a program image is loaded: the image fills memory from
/// address 0, the rest of memory and all other components are untouched.
pub open spec fn load_state(s: CoreState, input: Seq<u8>) -> CoreState {
    CoreState { memory: input + s.memory.skip(input.len() as int), ..s }
}

/// The program counter after one cycle: a jump signal that fires (the
/// unconditional one, or a conditional one whose committed flag is set, as
/// committed this very cycle) loads the counter from the bus masked to the
/// address width; then the increment signal advances it modulo the capacity.
pub open spec fn next_pc(s: CoreState, data: u8) -> u8 {
    let jumping = s.controls.jump || (s.controls.jump_if_zero && s.flags.zero) || (
    s.controls.jump_if_carry && s.flags.carry);
    let pc1: u8 = if jumping {
        data & 0xF
    } else {
        s.pc
    };
    if s.controls.counter_increment {
        ((pc1 + 1) % 16) as u8
    } else {
        pc1
    }
}

/// One machine cycle, as a function on states: resolve the bus once, apply
/// the latch phase, evaluate jump and increment against the freshly
/// committed flags, look up the next control word with the possibly
/// just-fetched instruction at the current microstep, and advance the
/// microstep, resetting it when the looked-up word says so or the safety
/// bound of 4 is exceeded. A halted machine does not change at all.
pub open spec fn step_state(s: CoreState) -> CoreState {
    if s.controls.halt {
        s
    } else {
        let data = bus_value(s);
        let m = latched(s, data);
        let ctrl2 = control_word(spec_decode(m.instruction), s.micro);
        let micro2: nat = if ctrl2.reset_micro || s.micro + 1 > 4 {
            0
        } else {
            s.micro + 1
        };
        CoreState { pc: next_pc(m, data), controls: ctrl2, micro: micro2, ..m }
    }
}

/// The output a cycle produces: the bus value, exactly when the output latch
/// is signalled on a machine that is not halted.
pub open spec fn step_output(s: CoreState) -> Option<u8> {
    if !s.controls.halt && s.controls.output_in {
        Some(bus_value(s))
    } else {
        None
    }
}

/// The state after `n` machine cycles.
pub open spec fn steps(s: CoreState, n: nat) -> CoreState
    decreases n,
{
    if n == 0 {
        s
    } else {
        step_state(steps(s, (n - 1) as nat))
    }
}

/// The output bytes the first `n` machine cycles produce, in order.
pub open spec fn outputs(s: CoreState, n: nat) -> Seq<u8>
    decreases n,
{
    if n == 0 {
        Seq::empty()
    } else {
        let prefix = outputs(s, (n - 1) as nat);
        match step_output(steps(s, (n - 1) as nat)) {
            Some(b) => prefix.push(b),
            None => prefix,
        }
    }
}

/// Whether the machine eventually halts from this state.
pub open spec fn reaches_halt(s: CoreState) -> bool {
    exists|n: nat| (#[trigger] steps(s, n)).controls.halt
}

/// The 16-byte machine.
pub struct PuttPc {
    /// Program counter.
    pub pc: u8,
    /// Accumulator A.
    pub acc_a: u8,
    /// Accumulator B.
    pub acc_b: u8,
    /// Output register.
    pub output: u8,
    /// Memory address register.
    pub ram_address: u8,
    /// Instruction register.
    pub instruction: u8,
    /// Memory; always exactly [`MEMORY_SIZE`] bytes.
    pub memory: Vec<u8>,
    /// The control word governing the current cycle.
    pub controls: Controls,
    /// Pending flags, computed on the previous cycle.
    pub flags_in: Flags,
    /// Latched flags.
    pub flags: Flags,
    /// Microstep counter.
    pub micro: usize,
}

impl View for PuttPc {
    type V = CoreState;

    open spec fn view(&self) -> CoreState {
        CoreState {
            pc: self.pc,
            acc_a: self.acc_a,
            acc_b: self.acc_b,
            output: self.output,
            ram_address: self.ram_address,
            instruction: self.instruction,
            memory: self.memory@,
            controls: self.controls,
            flags_in: self.flags_in,
            flags: self.flags,
            micro: self.micro as nat,
        }
    }
}

impl PuttPc {
    /// Well-formedness of the machine, preserved by every operation.
    pub open spec fn wf(&self) -> bool {
        wf_state(self@)
    }

    /// Build a fresh machine: all registers, memory, and latched flags zero,
    /// the universal fetch control word, microstep 0, not halted.
    pub fn new() -> (m: PuttPc)
        ensures
            m.wf(),
            m@ == initial_state(),
    {
        let mut memory: Vec<u8> = Vec::new();
        let mut i: usize = 0;
        while i < 16
            invariant
                i <= 16,
                memory@.len() == i,
                forall|j: int| 0 <= j < i ==> memory@[j] == 0u8,
            decreases 16 - i,
        {
            memory.push(0);
            i = i + 1;
        }
        proof {
            assert(memory@ =~= Seq::new(16, |j: int| 0u8));
        }
        let m = PuttPc {
            pc: 0,
            acc_a: 0,
            acc_b: 0,
            output: 0,
            ram_address: 0,
            instruction: 0,
            memory,
            controls: Controls { counter_out: true, ram_addr_in: true, ..Controls::empty() },
            flags_in: Flags { zero: true, carry: false },
            flags: Flags { zero: false, carry: false },
            micro: 0,
        };
        proof {
            assert(m@ =~= initial_state());
        }
        m
    }

    /// Whether the machine is halted: true exactly while the current control
    /// word carries the halt signal. Only building a new machine clears it.
    pub fn is_halted(&self) -> (r: bool)
        ensures
            r == self@.controls.halt,
    {
        self.controls.halt
    }

    /// Read a register by its semantic identifier.
    pub fn reg(&self, r: Register) -> (v: u8)
        ensures
            v == match r {
                Register::Counter => self@.pc,
                Register::A => self@.acc_a,
                Register::B => self@.acc_b,
                Register::Output => self@.output,
                Register::RamAddress => self@.ram_address,
                Register::Instruction => self@.instruction,
            },
    {
        match r {
            Register::Counter => self.pc,
            Register::A => self.acc_a,
            Register::B => self.acc_b,
            Register::Output => self.output,
            Register::RamAddress => self.ram_address,
            Register::Instruction => self.instruction,
        }
    }

    /// The ALU result for the current cycle: `A + B` or, when the subtract
    /// signal is set, `A - B`, wrapping modulo 256.
    pub fn adder(&self) -> (r: u8)
        ensures
            r == adder_sum(self@.acc_a, self@.acc_b, self@.controls.subtract),
    {
        if self.controls.subtract {
            self.acc_a.wrapping_sub(self.acc_b)
        } else {
            self.acc_a.wrapping_add(self.acc_b)
        }
    }

    /// Resolve the shared data bus for the current cycle: the bitwise OR of
    /// every enabled source. Conflicting drivers are not arbitrated; their
    /// values combine, faithfully to the physical bus.
    pub fn data_bus(&self) -> (r: u8)
        requires
            self.wf(),
        ensures
            r == bus_value(self@),
    {
        proof {
            reveal(bus_value);
        }
        let d0: u8 = if self.controls.counter_out {
            self.pc
        } else {
            0
        };
        let d1: u8 = if self.controls.a_out {
            d0 | self.acc_a
        } else {
            d0
        };
        let d2: u8 = if self.controls.b_out {
            d1 | self.acc_b
        } else {
            d1
        };
        let d3: u8 = if self.controls.instruction_out {
            d2 | (self.instruction & 0xF)
        } else {
            d2
        };
        let d4: u8 = if self.controls.ram_out {
            d3 | self.memory[self.ram_address as usize]
        } else {
            d3
        };
        if self.controls.adder_out {
            d4 | self.adder()
        } else {
            d4
        }
    }

    /// The pending flags the ALU asserts this cycle: computed every cycle,
    /// whatever the control word says; only the flags latch decides whether
    /// this candidate ever reaches the stored flags.
    pub fn flags_in_bus(&self) -> (r: Flags)
        ensures
            r == pending_flags(self@),
    {
        let sum = self.adder();
        let carry = if self.controls.subtract {
            self.acc_a < self.acc_b
        } else {
            self.acc_a > 255 - self.acc_b
        };
        Flags { zero: sum == 0, carry }
    }

    /// Look up next cycle's control word: decode the instruction register
    /// and consult the microsequencer at the current microstep.
    pub fn controls_bus(&self) -> (r: Controls)
        ensures
            r == control_word(spec_decode(self@.instruction), self@.micro as nat),
    {
        let instr = decode(self.instruction);
        next_control(instr, self.micro)
    }

    /// The latch phase of [`Self::step`]: apply every enabled bus-in signal
    /// with the one resolved bus value, commit last cycle's pending flags if
    /// signalled, then recompute the pending flags from the freshly written
    /// accumulators.
    fn apply_latches(&mut self, data: u8) -> (out: Option<u8>)
        requires
            old(self)@.memory.len() == 16,
            old(self)@.ram_address < 16,
            old(self)@.controls.ram_addr_in ==> data < 16,
        ensures
            final(self)@ == latched(old(self)@, data),
            out == (if old(self)@.controls.output_in {
                Some(data)
            } else {
                None::<u8>
            }),
            final(self)@.pc == old(self)@.pc,
            final(self)@.controls == old(self)@.controls,
            final(self)@.micro == old(self)@.micro,
            final(self)@.memory.len() == old(self)@.memory.len(),
            final(self)@.ram_address < 16,
    {
        proof {
            reveal(latched);
        }
        let mut out: Option<u8> = None;
        if self.controls.ram_addr_in {
            self.ram_address = data;
        }
        if self.controls.output_in {
            self.output = data;
            out = Some(data);
        }
        if self.controls.a_in {
            self.acc_a = data;
        }
        if self.controls.b_in {
            self.acc_b = data;
        }
        if self.controls.instruction_in {
            self.instruction = data;
        }
        if self.controls.ram_in {
            let addr = self.ram_address as usize;
            self.memory[addr] = data;
        }
        // Commit last cycle's pending flags first, then recompute the
        // pending flags from the freshly written accumulators.
        if self.controls.flags_in {
            self.flags = self.flags_in;
        }
        self.flags_in = self.flags_in_bus();
        proof {
            assert(self@ =~= latched(old(self)@, data));
        }
        out
    }

    /// The jump/increment phase of [`Self::step`]: a firing jump signal
    /// loads the counter from the bus masked to the address width, then the
    /// increment signal advances it modulo the capacity.
    fn update_counter(&mut self, data: u8)
        requires
            old(self)@.pc < 16,
        ensures
            final(self)@ == (CoreState { pc: next_pc(old(self)@, data), ..old(self)@ }),
            final(self)@.pc < 16,
    {
        if self.controls.jump || (self.controls.jump_if_zero && self.flags.zero) || (
        self.controls.jump_if_carry && self.flags.carry) {
            self.pc = data & 0xF;
            proof {
                assert((data & 0xF) < 16) by (bit_vector);
            }
        }
        if self.controls.counter_increment {
            self.pc = (self.pc + 1) % 16;
        }
        proof {
            assert(self@ =~= (CoreState { pc: next_pc(old(self)@, data), ..old(self)@ }));
        }
    }

    /// Run one machine cycle, returning the output byte if this cycle wrote
    /// the output register. A halted machine does not mutate and produces no
    /// output.
    pub fn step(&mut self) -> (r: Option<u8>)
        requires
            old(self).wf(),
        ensures
            final(self).wf(),
            final(self)@ == step_state(old(self)@),
            r == step_output(old(self)@),
    {
        if self.controls.halt {
            return None;
        }
        let data = self.data_bus();
        proof {
            reveal(bus_value);
            let s = old(self)@;
            if s.controls.ram_addr_in {
                if s.controls.instruction_out {
                    let d: u8 = if s.controls.counter_out {
                        s.pc
                    } else {
                        0
                    };
                    let ir: u8 = s.instruction;
                    assert(d < 16 ==> (d | (ir & 0xF)) < 16) by (bit_vector);
                }
                assert(bus_value(s) < 16);
            }
        }
        let out = self.apply_latches(data);
        self.update_counter(data);
        let next = self.controls_bus();
        proof {
            lemma_control_word_wf(spec_decode(self@.instruction), old(self)@.micro);
        }
        self.controls = next;
        if next.reset_micro || self.micro >= 4 {
            self.micro = 0;
        } else {
            self.micro = self.micro + 1;
        }
        proof {
            assert(self@ =~= step_state(old(self)@));
        }
        out
    }

    /// Copy a program image into the start of memory. An image longer than
    /// the capacity is rejected whole, leaving the machine untouched.
    pub fn set_input(&mut self, input: &[u8]) -> (r: Result<(), InputTooLong>)
        requires
            old(self).wf(),
        ensures
            final(self).wf(),
            input@.len() <= 16 ==> r == Ok::<(), InputTooLong>(()) && final(self)@ == load_state(
                old(self)@,
                input@,
            ),
            input@.len() > 16 ==> r == Err::<(), InputTooLong>(
                InputTooLong { len: input@.len() as usize, capacity: 16 },
            ) && final(self)@ == old(self)@,
    {
        let len: usize = input.len();
        if len > MEMORY_SIZE {
            return Err(InputTooLong { len, capacity: MEMORY_SIZE });
        }
        let ghost s0 = self@;
        let mut i: usize = 0;
        while i < len
            invariant
                i <= len,
                len == input@.len(),
                len <= 16,
                self@.memory.len() == 16,
                forall|j: int| 0 <= j < i ==> self@.memory[j] == input@[j],
                forall|j: int| i <= j < 16 ==> self@.memory[j] == s0.memory[j],
                self@ == (CoreState { memory: self@.memory, ..s0 }),
            decreases len - i,
        {
            self.memory[i] = input[i];
            i = i + 1;
        }
        proof {
            assert(self@.memory =~= input@ + s0.memory.skip(input@.len() as int));
            assert(self@ =~= load_state(s0, input@));
        }
        Ok(())
    }

    /// Build a fresh machine with a program image already loaded.
    pub fn with_input(input: &[u8]) -> (r: Result<PuttPc, InputTooLong>)
        ensures
            input@.len() <= 16 ==> (r matches Ok(m) && m.wf() && m@ == load_state(
                initial_state(),
                input@,
            )),
            input@.len() > 16 ==> r == Err::<PuttPc, InputTooLong>(
                InputTooLong { len: input@.len() as usize, capacity: 16 },
            ),
    {
        let mut m = PuttPc::new();
        match m.set_input(input) {
            Ok(()) => Ok(m),
            Err(e) => Err(e),
        }
    }

    /// Run the machine until it halts, collecting every output byte in
    /// order. The machine must be known to reach a halted state: a program
    /// that never asserts halt cannot be run to completion, and bounding such
    /// a run is the caller's responsibility (drive [`Self::step`] directly).
    pub fn run(&mut self) -> (out: Vec<u8>)
        requires
            old(self).wf(),
            reaches_halt(old(self)@),
        ensures
            final(self).wf(),
            exists|n: nat|
                {
                    &&& final(self)@ == steps(old(self)@, n)
                    &&& final(self)@.controls.halt
                    &&& out@ == outputs(old(self)@, n)
                    &&& forall|k: nat| k < n ==> !(#[trigger] steps(old(self)@, k)).controls.halt
                },
    {
        let ghost s0 = self@;
        let ghost total: nat = choose|t: nat| (#[trigger] steps(s0, t)).controls.halt;
        let ghost n: nat = 0;
        let mut output: Vec<u8> = Vec::new();
        while !self.is_halted()
            invariant
                self.wf(),
                self@ == steps(s0, n),
                output@ == outputs(s0, n),
                forall|k: nat| k < n ==> !(#[trigger] steps(s0, k)).controls.halt,
                steps(s0, total).controls.halt,
                n <= total,
            decreases total - n,
        {
            let o = self.step();
            if let Some(b) = o {
                output.push(b);
            }
            proof {
                n = n + 1;
            }
        }
        proof {
            assert(final(self)@ == steps(s0, n) && final(self)@.controls.halt && output@
                == outputs(s0, n));
        }
        output
    }
}

impl Default for PuttPc {
    /// A fresh machine, as [`PuttPc::new`] builds it.
    fn default() -> (m: PuttPc)
        ensures
            m.wf(),
            m@ == initial_state(),
    {
        PuttPc::new()
    }
}

/// Halt stability: a halted machine does not change at all under stepping,
/// and produces no output. Only building a new machine clears the halt.
pub proof fn lemma_halt_stable(s: CoreState)
    requires
        s.controls.halt,
    ensures
        step_state(s) == s,
        step_output(s) == None::<u8>,
{
}

/// The universal fetch. From any well-formed state that is about to execute
/// the first fetch word (the state every instruction boundary passes
/// through), two cycles load the instruction register from memory at the
/// program counter and advance the counter by one, wrapping at the capacity;
/// the accumulators, flags, memory, and output register are untouched and no
/// output is produced.
pub proof fn lemma_universal_fetch(s: CoreState)
    requires
        wf_state(s),
        s.controls == fetch_word(),
        s.micro == 1,
    ensures
        steps(s, 2).instruction == s.memory[s.pc as int],
        steps(s, 2).pc == ((s.pc + 1) % 16) as u8,
        steps(s, 2).ram_address == s.pc,
        steps(s, 2).acc_a == s.acc_a,
        steps(s, 2).acc_b == s.acc_b,
        steps(s, 2).output == s.output,
        steps(s, 2).flags == s.flags,
        steps(s, 2).memory == s.memory,
        step_output(s) == None::<u8>,
        step_output(steps(s, 1)) == None::<u8>,
{
    reveal(control_word);
    reveal(bus_value);
    reveal(latched);
    let s1 = step_state(s);
    assert(bus_value(s) == s.pc);
    assert(s1.ram_address == s.pc);
    assert(s1.controls == fetch_latch_word());
    assert(s1.micro == 2);
    let mem: u8 = s.memory[s.pc as int];
    assert(0u8 | mem == mem) by (bit_vector);
    assert(bus_value(s1) == mem);
    let s2 = step_state(s1);
    assert(steps(s, 0) == s);
    assert(steps(s, 1) == s1);
    assert(steps(s, 2) == s2);
    assert(s2.instruction == mem);
    assert(s2.pc == ((s.pc + 1) % 16) as u8);
}

/// A freshly built machine with its program loaded reaches the fetch
/// boundary state in one cycle: the same state but at microstep 1, with the
/// memory address register pointed at the program counter. From there,
/// [`lemma_universal_fetch`] describes the fetch itself.
pub proof fn lemma_initial_fetch_boundary(input: Seq<u8>)
    requires
        input.len() <= 16,
    ensures
        ({
            let s = load_state(initial_state(), input);
            step_state(s) == (CoreState { micro: 1, ..s })
        }),
{
    reveal(control_word);
    reveal(bus_value);
    reveal(latched);
    let s = load_state(initial_state(), input);
    assert(bus_value(s) == 0);
    assert(step_state(s) =~= (CoreState { micro: 1, ..s }));
}

/// Flags on every running cycle: the flags after the cycle are last cycle's
/// pending flags exactly when this cycle's control word carries the flags
/// latch (and are unchanged otherwise), and the new pending flags are the
/// ALU outputs over the just-written accumulators under this cycle's ALU
/// mode — recomputed whether or not anything asked for them.
pub proof fn lemma_flags_one_cycle(s: CoreState)
    requires
        !s.controls.halt,
    ensures
        step_state(s).flags == (if s.controls.flags_in {
            s.flags_in
        } else {
            s.flags
        }),
        step_state(s).flags_in == (Flags {
            zero: adder_sum(step_state(s).acc_a, step_state(s).acc_b, s.controls.subtract) == 0,
            carry: adder_carry(step_state(s).acc_a, step_state(s).acc_b, s.controls.subtract),
        }),
{
    reveal(latched);
}

/// The flag latch offset: when the flags latch is asserted on a cycle, the
/// flags committed by that cycle are exactly the pending flags computed on
/// the previous cycle — the ALU outputs over the accumulators as that
/// previous cycle left them, under that previous cycle's ALU mode. Flags
/// thus always reflect the ALU state one cycle in the past.
pub proof fn lemma_flag_latch_offset(s: CoreState)
    requires
        !s.controls.halt,
        !step_state(s).controls.halt,
        step_state(s).controls.flags_in,
    ensures
        steps(s, 2).flags == step_state(s).flags_in,
        step_state(s).flags_in == (Flags {
            zero: adder_sum(step_state(s).acc_a, step_state(s).acc_b, s.controls.subtract) == 0,
            carry: adder_carry(step_state(s).acc_a, step_state(s).acc_b, s.controls.subtract),
        }),
{
    reveal(latched);
    let s1 = step_state(s);
    let s2 = step_state(s1);
    assert(steps(s, 0) == s);
    assert(steps(s, 1) == s1);
    assert(steps(s, 2) == s2);
}

} // verus!
