//! The mathematical state of a machine, and the bus resolver.
//!
//! Both machine variants share one state shape and one bus model: the bus
//! value is the bitwise OR of every enabled source, reproducing a shared
//! physical bus where any number of drivers may assert simultaneously, and
//! the ALU's pending flags are computed every cycle whether or not its
//! output drives the bus.

use vstd::prelude::*;
use crate::control::{Controls, Flags};

verus! {

/// A machine state: the six 8-bit registers, memory, the current control
/// word, the pending and latched flags, and the microstep counter.
pub struct CoreState {
    /// Program counter.
    pub pc: u8,
    /// Accumulator A, the ALU's left operand.
    pub acc_a: u8,
    /// Accumulator B, the ALU's right operand.
    pub acc_b: u8,
    /// Output register; writing it produces an output byte.
    pub output: u8,
    /// Memory address register; all memory accesses route through it.
    pub ram_address: u8,
    /// Instruction register.
    pub instruction: u8,
    /// Memory contents; the length is the variant's capacity.
    pub memory: Seq<u8>,
    /// The control word governing the current cycle.
    pub controls: Controls,
    /// Pending flags: the ALU outputs computed on the previous cycle.
    pub flags_in: Flags,
    /// Latched flags: committed from pending when the flags latch is signalled.
    pub flags: Flags,
    /// Microstep counter.
    pub micro: nat,
}

/// The ALU result: `a + b` or `a - b`, wrapping modulo 256.
pub open spec fn adder_sum(a: u8, b: u8, subtract: bool) -> u8 {
    if subtract {
        ((a - b) % 256) as u8
    } else {
        ((a + b) % 256) as u8
    }
}

/// The ALU carry output: overflow of the addition, or borrow of the
/// subtraction.
pub open spec fn adder_carry(a: u8, b: u8, subtract: bool) -> bool {
    if subtract {
        a < b
    } else {
        a + b > 255
    }
}

/// The pending flags a state's ALU asserts this cycle: Zero iff the result
/// is zero, Carry iff the addition overflowed or the subtraction borrowed.
/// These are live every cycle, whatever the control word says.
pub open spec fn pending_flags(s: CoreState) -> Flags {
    Flags {
        zero: adder_sum(s.acc_a, s.acc_b, s.controls.subtract) == 0,
        carry: adder_carry(s.acc_a, s.acc_b, s.controls.subtract),
    }
}

/// The value asserted on the shared data bus this cycle: the bitwise OR of
/// every source whose drive signal is enabled. The instruction register
/// drives only its low operand nibble; the opcode bits are masked off.
#[verifier::opaque]
pub open spec fn bus_value(s: CoreState) -> u8 {
    let d0: u8 = if s.controls.counter_out {
        s.pc
    } else {
        0
    };
    let d1: u8 = if s.controls.a_out {
        d0 | s.acc_a
    } else {
        d0
    };
    let d2: u8 = if s.controls.b_out {
        d1 | s.acc_b
    } else {
        d1
    };
    let d3: u8 = if s.controls.instruction_out {
        d2 | (s.instruction & 0xF)
    } else {
        d2
    };
    let d4: u8 = if s.controls.ram_out {
        d3 | s.memory[s.ram_address as int]
    } else {
        d3
    };
    if s.controls.adder_out {
        d4 | adder_sum(s.acc_a, s.acc_b, s.controls.subtract)
    } else {
        d4
    }
}

/// The latch phase of one cycle: every enabled bus-in signal writes the one
/// resolved bus value `data` into its destination (a memory write goes to
/// the possibly-just-updated address register); the previous cycle's pending
/// flags are committed if the flags latch is signalled; and the pending
/// flags are recomputed from the just-written accumulators. The program
/// counter, control word, and microstep are untouched here.
#[verifier::opaque]
pub open spec fn latched(s: CoreState, data: u8) -> CoreState {
    let addr2: u8 = if s.controls.ram_addr_in {
        data
    } else {
        s.ram_address
    };
    let a2: u8 = if s.controls.a_in {
        data
    } else {
        s.acc_a
    };
    let b2: u8 = if s.controls.b_in {
        data
    } else {
        s.acc_b
    };
    CoreState {
        acc_a: a2,
        acc_b: b2,
        output: if s.controls.output_in {
            data
        } else {
            s.output
        },
        ram_address: addr2,
        instruction: if s.controls.instruction_in {
            data
        } else {
            s.instruction
        },
        memory: if s.controls.ram_in {
            s.memory.update(addr2 as int, data)
        } else {
            s.memory
        },
        flags: if s.controls.flags_in {
            s.flags_in
        } else {
            s.flags
        },
        flags_in: Flags {
            zero: adder_sum(a2, b2, s.controls.subtract) == 0,
            carry: adder_carry(a2, b2, s.controls.subtract),
        },
        ..s
    }
}

/// Bus conflicts are not arbitrated: when both accumulators drive the bus in
/// the same control word (and no other source does), the resolved value is
/// the bitwise OR of the two, not an error.
pub proof fn lemma_bus_conflict_or(s: CoreState)
    requires
        s.controls.a_out,
        s.controls.b_out,
        !s.controls.counter_out,
        !s.controls.instruction_out,
        !s.controls.ram_out,
        !s.controls.adder_out,
    ensures
        bus_value(s) == s.acc_a | s.acc_b,
{
    reveal(bus_value);
    let a = s.acc_a;
    let b = s.acc_b;
    assert((0u8 | a) | b == a | b) by (bit_vector);
}

} // verus!
