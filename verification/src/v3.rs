//! The 256-byte machine: full-byte opcodes over a sparse instruction set.
//!
//! Decoding is fallible here: most byte values name no instruction, and a
//! failed decode is a fatal condition surfaced as an explicit error that
//! leaves the machine untouched. Many enumerated opcodes have no microcode
//! beyond the universal fetch; such an instruction silently stalls (no-op
//! cycles until the microstep safety bound resets the counter), which is
//! documented behaviour distinct from a decode failure.

use vstd::prelude::*;
use crate::control::{Controls, Flags, fetch_word, fetch_latch_word};
use crate::state::{CoreState, adder_sum, adder_carry, pending_flags, bus_value, latched};
use crate::errors::{DecodeError, InputTooLong};

verus! {

/// Memory capacity of this variant, in bytes. Program counter arithmetic
/// wraps at this bound.
pub const MEMORY_SIZE: usize = 256;

/// The instruction set: one variant per enumerated opcode byte. Only `Nop`,
/// `Out`, and `Hlt` carry microcode beyond the universal fetch; the others
/// are enumerated but incompletely specified and stall when executed.
#[derive(Clone, Copy, Debug, PartialEq, Eq, Hash, Structural)]
#[allow(missing_docs)]
pub enum Instruction {
    Nop,
    MovAB,
    MovAV,
    MovAM,
    MovBA,
    MovBV,
    MovBM,
    MovMA,
    MovMB,
    MovMV,
    MovMM,
    AddAB,
    AddAV,
    AddAM,
    AddVB,
    AddVV,
    AddVM,
    AddMB,
    AddMV,
    AddMM,
    SubAB,
    SubAV,
    SubAM,
    SubVB,
    SubVV,
    SubVM,
    SubMB,
    SubMV,
    SubMM,
    Jmp,
    Jz,
    Jnz,
    Jc,
    Jnc,
    Out,
    Hlt,
}

/// The six registers, by semantic identifier.
#[derive(Clone, Copy, Debug, PartialEq, Eq, Hash, Structural)]
pub enum Register {
    /// Program counter.
    Counter,
    /// Accumulator A.
    A,
    /// Accumulator B.
    B,
    /// Output register.
    Output,
    /// Memory address register.
    RamAddress,
    /// Instruction register.
    Instruction,
}

/// The instruction an opcode byte decodes to, or nothing: the opcode space
/// is sparse, and a byte outside the enumerated set does not decode.
pub open spec fn spec_decode(byte: u8) -> Option<Instruction> {
    if byte == 0x00 {
        Some(Instruction::Nop)
    } else if byte == 0x01 {
        Some(Instruction::MovAB)
    } else if byte == 0x02 {
        Some(Instruction::MovAV)
    } else if byte == 0x03 {
        Some(Instruction::MovAM)
    } else if byte == 0x04 {
        Some(Instruction::MovBA)
    } else if byte == 0x05 {
        Some(Instruction::MovBV)
    } else if byte == 0x06 {
        Some(Instruction::MovBM)
    } else if byte == 0x07 {
        Some(Instruction::MovMA)
    } else if byte == 0x08 {
        Some(Instruction::MovMB)
    } else if byte == 0x09 {
        Some(Instruction::MovMV)
    } else if byte == 0x0A {
        Some(Instruction::MovMM)
    } else if byte == 0x10 {
        Some(Instruction::AddAB)
    } else if byte == 0x11 {
        Some(Instruction::AddAV)
    } else if byte == 0x12 {
        Some(Instruction::AddAM)
    } else if byte == 0x13 {
        Some(Instruction::AddVB)
    } else if byte == 0x14 {
        Some(Instruction::AddVV)
    } else if byte == 0x15 {
        Some(Instruction::AddVM)
    } else if byte == 0x16 {
        Some(Instruction::AddMB)
    } else if byte == 0x17 {
        Some(Instruction::AddMV)
    } else if byte == 0x18 {
        Some(Instruction::AddMM)
    } else if byte == 0x20 {
        Some(Instruction::SubAB)
    } else if byte == 0x21 {
        Some(Instruction::SubAV)
    } else if byte == 0x22 {
        Some(Instruction::SubAM)
    } else if byte == 0x23 {
        Some(Instruction::SubVB)
    } else if byte == 0x24 {
        Some(Instruction::SubVV)
    } else if byte == 0x25 {
        Some(Instruction::SubVM)
    } else if byte == 0x26 {
        Some(Instruction::SubMB)
    } else if byte == 0x27 {
        Some(Instruction::SubMV)
    } else if byte == 0x28 {
        Some(Instruction::SubMM)
    } else if byte == 0xD0 {
        Some(Instruction::Jmp)
    } else if byte == 0xD1 {
        Some(Instruction::Jz)
    } else if byte == 0xD2 {
        Some(Instruction::Jnz)
    } else if byte == 0xD3 {
        Some(Instruction::Jc)
    } else if byte == 0xD4 {
        Some(Instruction::Jnc)
    } else if byte == 0xE0 {
        Some(Instruction::Out)
    } else if byte == 0xFF {
        Some(Instruction::Hlt)
    } else {
        None
    }
}

/// Decode an opcode byte, failing explicitly on a bit pattern outside the
/// enumerated set: an unchecked cast is exactly the correctness boundary
/// this machine refuses to cross.
pub fn decode(byte: u8) -> (r: Result<Instruction, DecodeError>)
    ensures
        spec_decode(byte) matches Some(i) ==> r == Ok::<Instruction, DecodeError>(i),
        spec_decode(byte) is None ==> r == Err::<Instruction, DecodeError>(
            DecodeError { byte },
        ),
{
    if byte == 0x00 {
        Ok(Instruction::Nop)
    } else if byte == 0x01 {
        Ok(Instruction::MovAB)
    } else if byte == 0x02 {
        Ok(Instruction::MovAV)
    } else if byte == 0x03 {
        Ok(Instruction::MovAM)
    } else if byte == 0x04 {
        Ok(Instruction::MovBA)
    } else if byte == 0x05 {
        Ok(Instruction::MovBV)
    } else if byte == 0x06 {
        Ok(Instruction::MovBM)
    } else if byte == 0x07 {
        Ok(Instruction::MovMA)
    } else if byte == 0x08 {
        Ok(Instruction::MovMB)
    } else if byte == 0x09 {
        Ok(Instruction::MovMV)
    } else if byte == 0x0A {
        Ok(Instruction::MovMM)
    } else if byte == 0x10 {
        Ok(Instruction::AddAB)
    } else if byte == 0x11 {
        Ok(Instruction::AddAV)
    } else if byte == 0x12 {
        Ok(Instruction::AddAM)
    } else if byte == 0x13 {
        Ok(Instruction::AddVB)
    } else if byte == 0x14 {
        Ok(Instruction::AddVV)
    } else if byte == 0x15 {
        Ok(Instruction::AddVM)
    } else if byte == 0x16 {
        Ok(Instruction::AddMB)
    } else if byte == 0x17 {
        Ok(Instruction::AddMV)
    } else if byte == 0x18 {
        Ok(Instruction::AddMM)
    } else if byte == 0x20 {
        Ok(Instruction::SubAB)
    } else if byte == 0x21 {
        Ok(Instruction::SubAV)
    } else if byte == 0x22 {
        Ok(Instruction::SubAM)
    } else if byte == 0x23 {
        Ok(Instruction::SubVB)
    } else if byte == 0x24 {
        Ok(Instruction::SubVV)
    } else if byte == 0x25 {
        Ok(Instruction::SubVM)
    } else if byte == 0x26 {
        Ok(Instruction::SubMB)
    } else if byte == 0x27 {
        Ok(Instruction::SubMV)
    } else if byte == 0x28 {
        Ok(Instruction::SubMM)
    } else if byte == 0xD0 {
        Ok(Instruction::Jmp)
    } else if byte == 0xD1 {
        Ok(Instruction::Jz)
    } else if byte == 0xD2 {
        Ok(Instruction::Jnz)
    } else if byte == 0xD3 {
        Ok(Instruction::Jc)
    } else if byte == 0xD4 {
        Ok(Instruction::Jnc)
    } else if byte == 0xE0 {
        Ok(Instruction::Out)
    } else if byte == 0xFF {
        Ok(Instruction::Hlt)
    } else {
        Err(DecodeError { byte })
    }
}

/// The microsequencer: microsteps 0 and 1 are the universal fetch shared by
/// all instructions; from microstep 2 onward only `Nop`, `Out`, and `Hlt`
/// have table entries. Every other pair yields the empty control word: the
/// instruction stalls in no-op cycles until the microstep safety bound
/// forces a reset, which is documented behaviour for the incompletely
/// specified opcodes, distinct from a decode failure.
#[verifier::opaque]
pub open spec fn control_word(i: Instruction, m: nat) -> Controls {
    if m == 0 {
        fetch_word()
    } else if m == 1 {
        fetch_latch_word()
    } else {
        match i {
            Instruction::Nop => if m == 2 {
                Controls { reset_micro: true, ..Controls::empty_spec() }
            } else {
                Controls::empty_spec()
            },
            Instruction::Out => if m == 2 {
                Controls { a_out: true, output_in: true, reset_micro: true, ..Controls::empty_spec() }
            } else {
                Controls::empty_spec()
            },
            Instruction::Hlt => if m == 2 {
                Controls { halt: true, reset_micro: true, ..Controls::empty_spec() }
            } else {
                Controls::empty_spec()
            },
            _ => Controls::empty_spec(),
        }
    }
}

/// Look up the control word for `i` at microstep `micro`.
pub fn next_control(i: Instruction, micro: usize) -> (r: Controls)
    ensures
        r == control_word(i, micro as nat),
{
    proof {
        reveal(control_word);
    }
    if micro == 0 {
        Controls { counter_out: true, ram_addr_in: true, ..Controls::empty() }
    } else if micro == 1 {
        Controls {
            counter_increment: true,
            ram_out: true,
            instruction_in: true,
            ..Controls::empty()
        }
    } else {
        match i {
            Instruction::Nop => if micro == 2 {
                Controls { reset_micro: true, ..Controls::empty() }
            } else {
                Controls::empty()
            },
            Instruction::Out => if micro == 2 {
                Controls { a_out: true, output_in: true, reset_micro: true, ..Controls::empty() }
            } else {
                Controls::empty()
            },
            Instruction::Hlt => if micro == 2 {
                Controls { halt: true, reset_micro: true, ..Controls::empty() }
            } else {
                Controls::empty()
            },
            _ => Controls::empty(),
        }
    }
}

/// Well-formedness of a machine state: memory has exactly the capacity and
/// the microstep counter is within the safety bound. Every 8-bit register
/// value already addresses the 256-byte memory.
pub open spec fn wf_state(s: CoreState) -> bool {
    &&& s.memory.len() == 256
    &&& s.micro <= 4
}

/// The state of a fresh machine: registers, memory, and latched flags all
/// zero; the control word is the first universal fetch word; the pending
/// flags show Zero, since the ALU of an all-zero machine outputs zero.
pub open spec fn initial_state() -> CoreState {
    CoreState {
        pc: 0,
        acc_a: 0,
        acc_b: 0,
        output: 0,
        ram_address: 0,
        instruction: 0,
        memory: Seq::new(256, |i: int| 0u8),
        controls: fetch_word(),
        flags_in: Flags { zero: true, carry: false },
        flags: Flags { zero: false, carry: false },
        micro: 0,
    }
}

/// A state after a program image is loaded: the image fills memory from
/// address 0, the rest of memory and all other components are untouched.
pub open spec fn load_state(s: CoreState, input: Seq<u8>) -> CoreState {
    CoreState { memory: input + s.memory.skip(input.len() as int), ..s }
}

/// The byte the instruction register holds once this cycle's latch phase is
/// done: the bus value if the instruction latch is signalled, else the old
/// value. This is the byte the microsequencer must decode at the end of the
/// cycle.
pub open spec fn next_instruction(s: CoreState) -> u8 {
    if s.controls.instruction_in {
        bus_value(s)
    } else {
        s.instruction
    }
}

/// Whether a cycle from this state completes: it does unless the byte the
/// instruction register would hold fails to decode. A halted machine
/// trivially completes (it does nothing).
pub open spec fn step_ok(s: CoreState) -> bool {
    s.controls.halt || spec_decode(next_instruction(s)) is Some
}

/// The program counter after one cycle: a jump signal that fires loads the
/// counter from the bus (the full byte is the address width here), then the
/// increment signal advances it modulo the capacity.
pub open spec fn next_pc(s: CoreState, data: u8) -> u8 {
    let jumping = s.controls.jump || (s.controls.jump_if_zero && s.flags.zero) || (
    s.controls.jump_if_carry && s.flags.carry);
    let pc1: u8 = if jumping {
        data
    } else {
        s.pc
    };
    if s.controls.counter_increment {
        ((pc1 + 1) % 256) as u8
    } else {
        pc1
    }
}

/// One completed machine cycle on a non-halted state whose fetched byte
/// decodes to `i`: resolve the bus once, apply the latch phase, evaluate
/// jump and increment against the freshly committed flags, look up the next
/// control word at the current microstep, and advance the microstep,
/// resetting it when the looked-up word says so or the safety bound of 4 is
/// exceeded.
pub open spec fn step_state(s: CoreState, i: Instruction) -> CoreState {
    let data = bus_value(s);
    let m = latched(s, data);
    let ctrl2 = control_word(i, s.micro);
    let micro2: nat = if ctrl2.reset_micro || s.micro + 1 > 4 {
        0
    } else {
        s.micro + 1
    };
    CoreState { pc: next_pc(m, data), controls: ctrl2, micro: micro2, ..m }
}

/// One machine cycle as a total function on states: a halted machine and a
/// machine whose fetched byte does not decode are both left unchanged; any
/// other state completes a cycle.
pub open spec fn cycle(s: CoreState) -> CoreState {
    if s.controls.halt {
        s
    } else {
        match spec_decode(next_instruction(s)) {
            Some(i) => step_state(s, i),
            None => s,
        }
    }
}

/// The output a cycle produces: the bus value, exactly when a completed
/// cycle latches the output register.
pub open spec fn cycle_output(s: CoreState) -> Option<u8> {
    if !s.controls.halt && step_ok(s) && s.controls.output_in {
        Some(bus_value(s))
    } else {
        None
    }
}

/// The state after `n` machine cycles.
pub open spec fn steps(s: CoreState, n: nat) -> CoreState
    decreases n,
{
    if n == 0 {
        s
    } else {
        cycle(steps(s, (n - 1) as nat))
    }
}

/// The output bytes the first `n` machine cycles produce, in order.
pub open spec fn outputs(s: CoreState, n: nat) -> Seq<u8>
    decreases n,
{
    if n == 0 {
        Seq::empty()
    } else {
        let prefix = outputs(s, (n - 1) as nat);
        match cycle_output(steps(s, (n - 1) as nat)) {
            Some(b) => prefix.push(b),
            None => prefix,
        }
    }
}

/// Whether the machine eventually halts or hits a decode failure from this
/// state: the two ways a run can end.
pub open spec fn reaches_end(s: CoreState) -> bool {
    exists|n: nat|
        {
            let sn = #[trigger] steps(s, n);
            sn.controls.halt || !step_ok(sn)
        }
}

/// The 256-byte machine.
pub struct PuttPc {
    /// Program counter.
    pub pc: u8,
    /// Accumulator A.
    pub acc_a: u8,
    /// Accumulator B.
    pub acc_b: u8,
    /// Output register.
    pub output: u8,
    /// Memory address register.
    pub ram_address: u8,
    /// Instruction register.
    pub instruction: u8,
    /// Memory; always exactly [`MEMORY_SIZE`] bytes.
    pub memory: Vec<u8>,
    /// The control word governing the current cycle.
    pub controls: Controls,
    /// Pending flags, computed on the previous cycle.
    pub flags_in: Flags,
    /// Latched flags.
    pub flags: Flags,
    /// Microstep counter.
    pub micro: usize,
}

impl View for PuttPc {
    type V = CoreState;

    open spec fn view(&self) -> CoreState {
        CoreState {
            pc: self.pc,
            acc_a: self.acc_a,
            acc_b: self.acc_b,
            output: self.output,
            ram_address: self.ram_address,
            instruction: self.instruction,
            memory: self.memory@,
            controls: self.controls,
            flags_in: self.flags_in,
            flags: self.flags,
            micro: self.micro as nat,
        }
    }
}

impl PuttPc {
    /// Well-formedness of the machine, preserved by every operation.
    pub open spec fn wf(&self) -> bool {
        wf_state(self@)
    }

    /// Build a fresh machine: all registers, memory, and latched flags zero,
    /// the universal fetch control word, microstep 0, not halted.
    pub fn new() -> (m: PuttPc)
        ensures
            m.wf(),
            m@ == initial_state(),
    {
        let mut memory: Vec<u8> = Vec::new();
        let mut i: usize = 0;
        while i < 256
            invariant
                i <= 256,
                memory@.len() == i,
                forall|j: int| 0 <= j < i ==> memory@[j] == 0u8,
            decreases 256 - i,
        {
            memory.push(0);
            i = i + 1;
        }
        proof {
            assert(memory@ =~= Seq::new(256, |j: int| 0u8));
        }
        let m = PuttPc {
            pc: 0,
            acc_a: 0,
            acc_b: 0,
            output: 0,
            ram_address: 0,
            instruction: 0,
            memory,
            controls: Controls { counter_out: true, ram_addr_in: true, ..Controls::empty() },
            flags_in: Flags { zero: true, carry: false },
            flags: Flags { zero: false, carry: false },
            micro: 0,
        };
        proof {
            assert(m@ =~= initial_state());
        }
        m
    }

    /// Whether the machine is halted: true exactly while the current control
    /// word carries the halt signal. Only building a new machine clears it.
    pub fn is_halted(&self) -> (r: bool)
        ensures
            r == self@.controls.halt,
    {
        self.controls.halt
    }

    /// Read a register by its semantic identifier.
    pub fn reg(&self, r: Register) -> (v: u8)
        ensures
            v == match r {
                Register::Counter => self@.pc,
                Register::A => self@.acc_a,
                Register::B => self@.acc_b,
                Register::Output => self@.output,
                Register::RamAddress => self@.ram_address,
                Register::Instruction => self@.instruction,
            },
    {
        match r {
            Register::Counter => self.pc,
            Register::A => self.acc_a,
            Register::B => self.acc_b,
            Register::Output => self.output,
            Register::RamAddress => self.ram_address,
            Register::Instruction => self.instruction,
        }
    }

    /// The ALU result for the current cycle: `A + B` or, when the subtract
    /// signal is set, `A - B`, wrapping modulo 256.
    pub fn adder(&self) -> (r: u8)
        ensures
            r == adder_sum(self@.acc_a, self@.acc_b, self@.controls.subtract),
    {
        if self.controls.subtract {
            self.acc_a.wrapping_sub(self.acc_b)
        } else {
            self.acc_a.wrapping_add(self.acc_b)
        }
    }

    /// Resolve the shared data bus for the current cycle: the bitwise OR of
    /// every enabled source. Conflicting drivers are not arbitrated; their
    /// values combine, faithfully to the physical bus.
    pub fn data_bus(&self) -> (r: u8)
        requires
            self.wf(),
        ensures
            r == bus_value(self@),
    {
        proof {
            reveal(bus_value);
        }
        let d0: u8 = if self.controls.counter_out {
            self.pc
        } else {
            0
        };
        let d1: u8 = if self.controls.a_out {
            d0 | self.acc_a
        } else {
            d0
        };
        let d2: u8 = if self.controls.b_out {
            d1 | self.acc_b
        } else {
            d1
        };
        let d3: u8 = if self.controls.instruction_out {
            d2 | (self.instruction & 0xF)
        } else {
            d2
        };
        let d4: u8 = if self.controls.ram_out {
            d3 | self.memory[self.ram_address as usize]
        } else {
            d3
        };
        if self.controls.adder_out {
            d4 | self.adder()
        } else {
            d4
        }
    }

    /// The pending flags the ALU asserts this cycle: computed every cycle,
    /// whatever the control word says; only the flags latch decides whether
    /// this candidate ever reaches the stored flags.
    pub fn flags_in_bus(&self) -> (r: Flags)
        ensures
            r == pending_flags(self@),
    {
        let sum = self.adder();
        let carry = if self.controls.subtract {
            self.acc_a < self.acc_b
        } else {
            self.acc_a > 255 - self.acc_b
        };
        Flags { zero: sum == 0, carry }
    }

    /// Look up next cycle's control word: decode the instruction register
    /// and consult the microsequencer at the current microstep. Fails, with
    /// the offending byte, when the register holds no opcode.
    pub fn controls_bus(&self) -> (r: Result<Controls, DecodeError>)
        ensures
            spec_decode(self@.instruction) matches Some(i) ==> r == Ok::<Controls, DecodeError>(
                control_word(i, self@.micro as nat),
            ),
            spec_decode(self@.instruction) is None ==> r == Err::<Controls, DecodeError>(
                DecodeError { byte: self@.instruction },
            ),
    {
        match decode(self.instruction) {
            Ok(i) => Ok(next_control(i, self.micro)),
            Err(e) => Err(e),
        }
    }

    /// The latch phase of [`Self::step`]: apply every enabled bus-in signal
    /// with the one resolved bus value, commit last cycle's pending flags if
    /// signalled, then recompute the pending flags from the freshly written
    /// accumulators.
    fn apply_latches(&mut self, data: u8) -> (out: Option<u8>)
        requires
            old(self)@.memory.len() == 256,
        ensures
            final(self)@ == latched(old(self)@, data),
            out == (if old(self)@.controls.output_in {
                Some(data)
            } else {
                None::<u8>
            }),
            final(self)@.pc == old(self)@.pc,
            final(self)@.controls == old(self)@.controls,
            final(self)@.micro == old(self)@.micro,
            final(self)@.memory.len() == old(self)@.memory.len(),
    {
        proof {
            reveal(latched);
        }
        let mut out: Option<u8> = None;
        if self.controls.ram_addr_in {
            self.ram_address = data;
        }
        if self.controls.output_in {
            self.output = data;
            out = Some(data);
        }
        if self.controls.a_in {
            self.acc_a = data;
        }
        if self.controls.b_in {
            self.acc_b = data;
        }
        if self.controls.instruction_in {
            self.instruction = data;
        }
        if self.controls.ram_in {
            let addr = self.ram_address as usize;
            self.memory[addr] = data;
        }
        // Commit last cycle's pending flags first, then recompute the
        // pending flags from the freshly written accumulators.
        if self.controls.flags_in {
            self.flags = self.flags_in;
        }
        self.flags_in = self.flags_in_bus();
        proof {
            assert(self@ =~= latched(old(self)@, data));
        }
        out
    }

    /// The jump/increment phase of [`Self::step`]: a firing jump signal
    /// loads the counter from the bus, then the increment signal advances it
    /// modulo the capacity.
    fn update_counter(&mut self, data: u8)
        ensures
            final(self)@ == (CoreState { pc: next_pc(old(self)@, data), ..old(self)@ }),
    {
        if self.controls.jump || (self.controls.jump_if_zero && self.flags.zero) || (
        self.controls.jump_if_carry && self.flags.carry) {
            self.pc = data;
        }
        if self.controls.counter_increment {
            self.pc = self.pc.wrapping_add(1);
        }
        proof {
            assert(self@ =~= (CoreState { pc: next_pc(old(self)@, data), ..old(self)@ }));
        }
    }

    /// Run one machine cycle. A completed cycle returns the output byte, if
    /// this cycle wrote the output register; a halted machine does not
    /// mutate and produces no output. When the byte the instruction register
    /// would hold at the end of the cycle fails to decode, the whole cycle
    /// is abandoned before any state is committed: the machine is left
    /// untouched and the offending byte is returned as the error, so every
    /// further step reports the same fatal condition.
    pub fn step(&mut self) -> (r: Result<Option<u8>, DecodeError>)
        requires
            old(self).wf(),
        ensures
            final(self).wf(),
            step_ok(old(self)@) ==> r == Ok::<Option<u8>, DecodeError>(
                cycle_output(old(self)@),
            ) && final(self)@ == cycle(old(self)@),
            !step_ok(old(self)@) ==> r == Err::<Option<u8>, DecodeError>(
                DecodeError { byte: next_instruction(old(self)@) },
            ) && final(self)@ == old(self)@,
    {
        if self.controls.halt {
            return Ok(None);
        }
        let data = self.data_bus();
        let fetched = if self.controls.instruction_in {
            data
        } else {
            self.instruction
        };
        let instr = match decode(fetched) {
            Ok(i) => i,
            Err(e) => {
                return Err(e);
            },
        };
        let out = self.apply_latches(data);
        self.update_counter(data);
        let next = next_control(instr, self.micro);
        self.controls = next;
        if next.reset_micro || self.micro >= 4 {
            self.micro = 0;
        } else {
            self.micro = self.micro + 1;
        }
        proof {
            assert(self@ =~= step_state(old(self)@, instr));
        }
        Ok(out)
    }

    /// Copy a program image into the start of memory. An image longer than
    /// the capacity is rejected whole, leaving the machine untouched.
    pub fn set_input(&mut self, input: &[u8]) -> (r: Result<(), InputTooLong>)
        requires
            old(self).wf(),
        ensures
            final(self).wf(),
            input@.len() <= 256 ==> r == Ok::<(), InputTooLong>(()) && final(self)@ == load_state(
                old(self)@,
                input@,
            ),
            input@.len() > 256 ==> r == Err::<(), InputTooLong>(
                InputTooLong { len: input@.len() as usize, capacity: 256 },
            ) && final(self)@ == old(self)@,
    {
        let len: usize = input.len();
        if len > MEMORY_SIZE {
            return Err(InputTooLong { len, capacity: MEMORY_SIZE });
        }
        let ghost s0 = self@;
        let mut i: usize = 0;
        while i < len
            invariant
                i <= len,
                len == input@.len(),
                len <= 256,
                self@.memory.len() == 256,
                forall|j: int| 0 <= j < i ==> self@.memory[j] == input@[j],
                forall|j: int| i <= j < 256 ==> self@.memory[j] == s0.memory[j],
                self@ == (CoreState { memory: self@.memory, ..s0 }),
            decreases len - i,
        {
            self.memory[i] = input[i];
            i = i + 1;
        }
        proof {
            assert(self@.memory =~= input@ + s0.memory.skip(input@.len() as int));
            assert(self@ =~= load_state(s0, input@));
        }
        Ok(())
    }

    /// Build a fresh machine with a program image already loaded.
    pub fn with_input(input: &[u8]) -> (r: Result<PuttPc, InputTooLong>)
        ensures
            input@.len() <= 256 ==> (r matches Ok(m) && m.wf() && m@ == load_state(
                initial_state(),
                input@,
            )),
            input@.len() > 256 ==> r == Err::<PuttPc, InputTooLong>(
                InputTooLong { len: input@.len() as usize, capacity: 256 },
            ),
    {
        let mut m = PuttPc::new();
        match m.set_input(input) {
            Ok(()) => Ok(m),
            Err(e) => Err(e),
        }
    }

    /// Run the machine until it halts, collecting every output byte in
    /// order, or until a fetched byte fails to decode, which abandons the
    /// run and reports the fatal condition. The machine must be known to
    /// reach one of those two ends: a program that never does cannot be run
    /// to completion, and bounding such a run is the caller's responsibility
    /// (drive [`Self::step`] directly).
    pub fn run(&mut self) -> (r: Result<Vec<u8>, DecodeError>)
        requires
            old(self).wf(),
            reaches_end(old(self)@),
        ensures
            final(self).wf(),
            exists|n: nat|
                {
                    &&& final(self)@ == (#[trigger] steps(old(self)@, n))
                    &&& forall|k: nat|
                        k < n ==> !(#[trigger] steps(old(self)@, k)).controls.halt && step_ok(
                            steps(old(self)@, k),
                        )
                    &&& match r {
                        Ok(out) => steps(old(self)@, n).controls.halt && out@ == outputs(
                            old(self)@,
                            n,
                        ),
                        Err(e) => !steps(old(self)@, n).controls.halt && !step_ok(
                            steps(old(self)@, n),
                        ) && e == (DecodeError {
                            byte: next_instruction(steps(old(self)@, n)),
                        }),
                    }
                },
    {
        let ghost s0 = self@;
        let ghost total: nat = choose|t: nat|
            {
                let st = #[trigger] steps(s0, t);
                st.controls.halt || !step_ok(st)
            };
        let ghost n: nat = 0;
        let mut output: Vec<u8> = Vec::new();
        while !self.is_halted()
            invariant
                s0 == old(self)@,
                self.wf(),
                self@ == steps(s0, n),
                output@ == outputs(s0, n),
                forall|k: nat|
                    k < n ==> !(#[trigger] steps(s0, k)).controls.halt && step_ok(steps(s0, k)),
                steps(s0, total).controls.halt || !step_ok(steps(s0, total)),
                n <= total,
            decreases total - n,
        {
            let o = match self.step() {
                Ok(o) => o,
                Err(e) => {
                    proof {
                        assert(final(self)@ == steps(s0, n) && !steps(s0, n).controls.halt
                            && !step_ok(steps(s0, n)) && output@ == outputs(s0, n));
                    }
                    return Err(e);
                },
            };
            if let Some(b) = o {
                output.push(b);
            }
            proof {
                n = n + 1;
            }
        }
        proof {
            assert(self@ == steps(s0, n));
            assert(steps(s0, n).controls.halt);
            assert(output@ == outputs(s0, n));
        }
        Ok(output)
    }
}

impl Default for PuttPc {
    /// A fresh machine, as [`PuttPc::new`] builds it.
    fn default() -> (m: PuttPc)
        ensures
            m.wf(),
            m@ == initial_state(),
    {
        PuttPc::new()
    }
}

/// Halt stability: a halted machine does not change at all under stepping,
/// and produces no output. Only building a new machine clears the halt.
pub proof fn lemma_halt_stable(s: CoreState)
    requires
        s.controls.halt,
    ensures
        cycle(s) == s,
        cycle_output(s) == None::<u8>,
{
}

/// The universal fetch. From any well-formed state that is about to execute
/// the first fetch word (the state every instruction boundary passes
/// through), and whose current and fetched instruction bytes decode, two
/// cycles load the instruction register from memory at the program counter
/// and advance the counter by one, wrapping at the capacity; the
/// accumulators, flags, memory, and output register are untouched and no
/// output is produced.
pub proof fn lemma_universal_fetch(s: CoreState)
    requires
        wf_state(s),
        s.controls == fetch_word(),
        s.micro == 1,
        spec_decode(s.instruction) is Some,
        spec_decode(s.memory[s.pc as int]) is Some,
    ensures
        steps(s, 2).instruction == s.memory[s.pc as int],
        steps(s, 2).pc == ((s.pc + 1) % 256) as u8,
        steps(s, 2).ram_address == s.pc,
        steps(s, 2).acc_a == s.acc_a,
        steps(s, 2).acc_b == s.acc_b,
        steps(s, 2).output == s.output,
        steps(s, 2).flags == s.flags,
        steps(s, 2).memory == s.memory,
        cycle_output(s) == None::<u8>,
        cycle_output(steps(s, 1)) == None::<u8>,
{
    reveal(control_word);
    reveal(bus_value);
    reveal(latched);
    let s1 = cycle(s);
    assert(bus_value(s) == s.pc);
    assert(s1.ram_address == s.pc);
    assert(s1.controls == fetch_latch_word());
    assert(s1.micro == 2);
    let mem: u8 = s.memory[s.pc as int];
    assert(0u8 | mem == mem) by (bit_vector);
    assert(bus_value(s1) == mem);
    let s2 = cycle(s1);
    assert(steps(s, 0) == s);
    assert(steps(s, 1) == s1);
    assert(steps(s, 2) == s2);
    assert(s2.instruction == mem);
    assert(s2.pc == ((s.pc + 1) % 256) as u8);
}

/// A freshly built machine with its program loaded reaches the fetch
/// boundary state in one cycle: the same state but at microstep 1, with the
/// memory address register pointed at the program counter. From there,
/// [`lemma_universal_fetch`] describes the fetch itself.
pub proof fn lemma_initial_fetch_boundary(input: Seq<u8>)
    requires
        input.len() <= 256,
    ensures
        ({
            let s = load_state(initial_state(), input);
            cycle(s) == (CoreState { micro: 1, ..s })
        }),
{
    reveal(control_word);
    reveal(bus_value);
    reveal(latched);
    let s = load_state(initial_state(), input);
    assert(bus_value(s) == 0);
    assert(cycle(s) =~= (CoreState { micro: 1, ..s }));
}

/// Flags on every completed cycle: the flags after the cycle are last
/// cycle's pending flags exactly when this cycle's control word carries the
/// flags latch (and are unchanged otherwise), and the new pending flags are
/// the ALU outputs over the just-written accumulators under this cycle's
/// ALU mode — recomputed whether or not anything asked for them.
pub proof fn lemma_flags_one_cycle(s: CoreState)
    requires
        !s.controls.halt,
        step_ok(s),
    ensures
        cycle(s).flags == (if s.controls.flags_in {
            s.flags_in
        } else {
            s.flags
        }),
        cycle(s).flags_in == (Flags {
            zero: adder_sum(cycle(s).acc_a, cycle(s).acc_b, s.controls.subtract) == 0,
            carry: adder_carry(cycle(s).acc_a, cycle(s).acc_b, s.controls.subtract),
        }),
{
    reveal(latched);
}

/// The flag latch offset: when the flags latch is asserted on a cycle, the
/// flags committed by that cycle are exactly the pending flags computed on
/// the previous cycle — the ALU outputs over the accumulators as that
/// previous cycle left them, under that previous cycle's ALU mode. Flags
/// thus always reflect the ALU state one cycle in the past.
pub proof fn lemma_flag_latch_offset(s: CoreState)
    requires
        !s.controls.halt,
        step_ok(s),
        !cycle(s).controls.halt,
        step_ok(cycle(s)),
        cycle(s).controls.flags_in,
    ensures
        steps(s, 2).flags == cycle(s).flags_in,
        cycle(s).flags_in == (Flags {
            zero: adder_sum(cycle(s).acc_a, cycle(s).acc_b, s.controls.subtract) == 0,
            carry: adder_carry(cycle(s).acc_a, cycle(s).acc_b, s.controls.subtract),
        }),
{
    reveal(latched);
    let s1 = cycle(s);
    let s2 = cycle(s1);
    assert(steps(s, 0) == s);
    assert(steps(s, 1) == s1);
    assert(steps(s, 2) == s2);
}

} // verus!
