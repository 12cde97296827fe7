//! Control words and ALU flags.
//!
//! A control word is the immutable set of named boolean signals that governs
//! one machine cycle. It is produced fresh each cycle by the microsequencer
//! and never partially updated. Modelling it as a record of named booleans
//! (rather than a raw integer) prevents accidental arithmetic on signal sets.

use vstd::prelude::*;

verus! {

/// One cycle's control signals: bus-out selectors, bus-in selectors, the ALU
/// mode, halt, the jump signals, the flags latch, counter increment, and the
/// microstep reset.
#[derive(Clone, Copy, Debug, PartialEq, Eq, Structural)]
pub struct Controls {
    /// Stop the machine; a machine is halted exactly while its current
    /// control word carries this signal.
    pub halt: bool,
    /// ALU mode: subtract instead of add.
    pub subtract: bool,
    /// Drive the ALU result onto the bus.
    pub adder_out: bool,
    /// Latch the bus into the memory address register.
    pub ram_addr_in: bool,
    /// Latch the bus into the output register, producing an output byte.
    pub output_in: bool,
    /// Latch the bus into accumulator A.
    pub a_in: bool,
    /// Drive accumulator A onto the bus.
    pub a_out: bool,
    /// Latch the bus into accumulator B.
    pub b_in: bool,
    /// Drive accumulator B onto the bus.
    pub b_out: bool,
    /// Latch the bus into the instruction register.
    pub instruction_in: bool,
    /// Drive the instruction register's operand bits onto the bus.
    pub instruction_out: bool,
    /// Write the bus into memory at the memory address register.
    pub ram_in: bool,
    /// Drive memory at the memory address register onto the bus.
    pub ram_out: bool,
    /// Drive the program counter onto the bus.
    pub counter_out: bool,
    /// Increment the program counter, wrapping at the memory capacity.
    pub counter_increment: bool,
    /// Unconditionally load the program counter from the bus.
    pub jump: bool,
    /// Load the program counter from the bus if the committed Zero flag is set.
    pub jump_if_zero: bool,
    /// Load the program counter from the bus if the committed Carry flag is set.
    pub jump_if_carry: bool,
    /// Commit the pending ALU flags computed on the previous cycle.
    pub flags_in: bool,
    /// Reset the microstep counter, ending the current instruction.
    pub reset_micro: bool,
}

impl Controls {
    /// The empty control word: no signal asserted. A cycle under this word
    /// changes nothing but the pending flags and the microstep counter.
    pub open spec fn empty_spec() -> Controls {
        Controls {
            halt: false,
            subtract: false,
            adder_out: false,
            ram_addr_in: false,
            output_in: false,
            a_in: false,
            a_out: false,
            b_in: false,
            b_out: false,
            instruction_in: false,
            instruction_out: false,
            ram_in: false,
            ram_out: false,
            counter_out: false,
            counter_increment: false,
            jump: false,
            jump_if_zero: false,
            jump_if_carry: false,
            flags_in: false,
            reset_micro: false,
        }
    }

    /// Build the empty control word.
    pub fn empty() -> (r: Controls)
        ensures
            r == Controls::empty_spec(),
    {
        Controls {
            halt: false,
            subtract: false,
            adder_out: false,
            ram_addr_in: false,
            output_in: false,
            a_in: false,
            a_out: false,
            b_in: false,
            b_out: false,
            instruction_in: false,
            instruction_out: false,
            ram_in: false,
            ram_out: false,
            counter_out: false,
            counter_increment: false,
            jump: false,
            jump_if_zero: false,
            jump_if_carry: false,
            flags_in: false,
            reset_micro: false,
        }
    }

    /// The union of two signal sets: a signal is asserted in the result iff
    /// it is asserted in either operand.
    pub open spec fn union_spec(self, o: Controls) -> Controls {
        Controls {
            halt: self.halt || o.halt,
            subtract: self.subtract || o.subtract,
            adder_out: self.adder_out || o.adder_out,
            ram_addr_in: self.ram_addr_in || o.ram_addr_in,
            output_in: self.output_in || o.output_in,
            a_in: self.a_in || o.a_in,
            a_out: self.a_out || o.a_out,
            b_in: self.b_in || o.b_in,
            b_out: self.b_out || o.b_out,
            instruction_in: self.instruction_in || o.instruction_in,
            instruction_out: self.instruction_out || o.instruction_out,
            ram_in: self.ram_in || o.ram_in,
            ram_out: self.ram_out || o.ram_out,
            counter_out: self.counter_out || o.counter_out,
            counter_increment: self.counter_increment || o.counter_increment,
            jump: self.jump || o.jump,
            jump_if_zero: self.jump_if_zero || o.jump_if_zero,
            jump_if_carry: self.jump_if_carry || o.jump_if_carry,
            flags_in: self.flags_in || o.flags_in,
            reset_micro: self.reset_micro || o.reset_micro,
        }
    }

    /// Build the union of two signal sets.
    pub fn union(self, o: Controls) -> (r: Controls)
        ensures
            r == self.union_spec(o),
    {
        Controls {
            halt: self.halt || o.halt,
            subtract: self.subtract || o.subtract,
            adder_out: self.adder_out || o.adder_out,
            ram_addr_in: self.ram_addr_in || o.ram_addr_in,
            output_in: self.output_in || o.output_in,
            a_in: self.a_in || o.a_in,
            a_out: self.a_out || o.a_out,
            b_in: self.b_in || o.b_in,
            b_out: self.b_out || o.b_out,
            instruction_in: self.instruction_in || o.instruction_in,
            instruction_out: self.instruction_out || o.instruction_out,
            ram_in: self.ram_in || o.ram_in,
            ram_out: self.ram_out || o.ram_out,
            counter_out: self.counter_out || o.counter_out,
            counter_increment: self.counter_increment || o.counter_increment,
            jump: self.jump || o.jump,
            jump_if_zero: self.jump_if_zero || o.jump_if_zero,
            jump_if_carry: self.jump_if_carry || o.jump_if_carry,
            flags_in: self.flags_in || o.flags_in,
            reset_micro: self.reset_micro || o.reset_micro,
        }
    }

    /// The intersection of two signal sets: a signal is asserted in the
    /// result iff it is asserted in both operands.
    pub open spec fn intersect_spec(self, o: Controls) -> Controls {
        Controls {
            halt: self.halt && o.halt,
            subtract: self.subtract && o.subtract,
            adder_out: self.adder_out && o.adder_out,
            ram_addr_in: self.ram_addr_in && o.ram_addr_in,
            output_in: self.output_in && o.output_in,
            a_in: self.a_in && o.a_in,
            a_out: self.a_out && o.a_out,
            b_in: self.b_in && o.b_in,
            b_out: self.b_out && o.b_out,
            instruction_in: self.instruction_in && o.instruction_in,
            instruction_out: self.instruction_out && o.instruction_out,
            ram_in: self.ram_in && o.ram_in,
            ram_out: self.ram_out && o.ram_out,
            counter_out: self.counter_out && o.counter_out,
            counter_increment: self.counter_increment && o.counter_increment,
            jump: self.jump && o.jump,
            jump_if_zero: self.jump_if_zero && o.jump_if_zero,
            jump_if_carry: self.jump_if_carry && o.jump_if_carry,
            flags_in: self.flags_in && o.flags_in,
            reset_micro: self.reset_micro && o.reset_micro,
        }
    }

    /// Build the intersection of two signal sets.
    pub fn intersect(self, o: Controls) -> (r: Controls)
        ensures
            r == self.intersect_spec(o),
    {
        Controls {
            halt: self.halt && o.halt,
            subtract: self.subtract && o.subtract,
            adder_out: self.adder_out && o.adder_out,
            ram_addr_in: self.ram_addr_in && o.ram_addr_in,
            output_in: self.output_in && o.output_in,
            a_in: self.a_in && o.a_in,
            a_out: self.a_out && o.a_out,
            b_in: self.b_in && o.b_in,
            b_out: self.b_out && o.b_out,
            instruction_in: self.instruction_in && o.instruction_in,
            instruction_out: self.instruction_out && o.instruction_out,
            ram_in: self.ram_in && o.ram_in,
            ram_out: self.ram_out && o.ram_out,
            counter_out: self.counter_out && o.counter_out,
            counter_increment: self.counter_increment && o.counter_increment,
            jump: self.jump && o.jump,
            jump_if_zero: self.jump_if_zero && o.jump_if_zero,
            jump_if_carry: self.jump_if_carry && o.jump_if_carry,
            flags_in: self.flags_in && o.flags_in,
            reset_micro: self.reset_micro && o.reset_micro,
        }
    }

    /// Whether every signal asserted in `o` is asserted in `self`.
    pub open spec fn contains_spec(self, o: Controls) -> bool {
        &&& (o.halt ==> self.halt)
        &&& (o.subtract ==> self.subtract)
        &&& (o.adder_out ==> self.adder_out)
        &&& (o.ram_addr_in ==> self.ram_addr_in)
        &&& (o.output_in ==> self.output_in)
        &&& (o.a_in ==> self.a_in)
        &&& (o.a_out ==> self.a_out)
        &&& (o.b_in ==> self.b_in)
        &&& (o.b_out ==> self.b_out)
        &&& (o.instruction_in ==> self.instruction_in)
        &&& (o.instruction_out ==> self.instruction_out)
        &&& (o.ram_in ==> self.ram_in)
        &&& (o.ram_out ==> self.ram_out)
        &&& (o.counter_out ==> self.counter_out)
        &&& (o.counter_increment ==> self.counter_increment)
        &&& (o.jump ==> self.jump)
        &&& (o.jump_if_zero ==> self.jump_if_zero)
        &&& (o.jump_if_carry ==> self.jump_if_carry)
        &&& (o.flags_in ==> self.flags_in)
        &&& (o.reset_micro ==> self.reset_micro)
    }

    /// Query containment: does this word assert every signal `o` asserts?
    pub fn contains(self, o: Controls) -> (r: bool)
        ensures
            r == self.contains_spec(o),
    {
        (!o.halt || self.halt) && (!o.subtract || self.subtract) && (!o.adder_out || self.adder_out) && (!o.ram_addr_in || self.ram_addr_in) && (!o.output_in || self.output_in) && (!o.a_in || self.a_in) && (!o.a_out || self.a_out) && (!o.b_in || self.b_in) && (!o.b_out || self.b_out) && (!o.instruction_in || self.instruction_in) && (!o.instruction_out || self.instruction_out) && (!o.ram_in || self.ram_in) && (!o.ram_out || self.ram_out) && (!o.counter_out || self.counter_out) && (!o.counter_increment || self.counter_increment) && (!o.jump || self.jump) && (!o.jump_if_zero || self.jump_if_zero) && (!o.jump_if_carry || self.jump_if_carry) && (!o.flags_in || self.flags_in) && (!o.reset_micro || self.reset_micro)
    }
}

/// The two ALU condition flags. A pending value is recomputed from the ALU
/// every cycle; a latched value is committed from the pending one only when
/// the flags latch signal is present.
#[derive(Clone, Copy, Debug, PartialEq, Eq, Structural)]
pub struct Flags {
    /// The ALU result was zero.
    pub zero: bool,
    /// The ALU addition overflowed, or the subtraction borrowed.
    pub carry: bool,
}

impl Flags {
    /// Both flags clear.
    pub open spec fn clear_spec() -> Flags {
        Flags { zero: false, carry: false }
    }

    /// Build the flag set with both flags clear.
    pub fn clear() -> (r: Flags)
        ensures
            r == Flags::clear_spec(),
    {
        Flags { zero: false, carry: false }
    }
}

/// The first universal fetch word: drive the program counter onto the bus
/// and latch it into the memory address register.
pub open spec fn fetch_word() -> Controls {
    Controls { counter_out: true, ram_addr_in: true, ..Controls::empty_spec() }
}

/// The second universal fetch word: drive the addressed memory byte onto the
/// bus, latch it into the instruction register, and increment the program
/// counter in the same cycle.
pub open spec fn fetch_latch_word() -> Controls {
    Controls {
        counter_increment: true,
        ram_out: true,
        instruction_in: true,
        ..Controls::empty_spec()
    }
}

} // verus!
