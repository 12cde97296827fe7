//! A cycle-accurate emulator of a minimal stored-program 8-bit computer built
//! from discrete registers, a shared data bus, and a microcode-driven control
//! unit.
//!
//! Each machine cycle, a control word (a set of boolean signals) derived from
//! the current instruction and microstep decides which sources drive the
//! shared bus, which registers latch it, whether the ALU flags are committed,
//! and how the program counter advances. Two machine variants are provided:
//! [`v2`], with 16 bytes of memory and 4-bit opcodes over a complete
//! instruction set, and [`v3`], with 256 bytes of memory, full-byte opcodes,
//! and a partially populated microcode table.

pub mod control;
pub mod errors;
pub mod state;
pub mod v2;
pub mod v3;

use vstd::prelude::*;
use crate::state::CoreState;

verus! {

/// A stored-program machine driven one cycle at a time.
///
/// The trait captures the operations the surrounding tooling drives: load an
/// input image, step one cycle, run to the halt, and query the halt. Every
/// implementation exposes its mathematical state through [`Machine::model`]
/// and pins its behaviour to associated spec functions: the one-cycle
/// transition, that cycle's output, the effect of loading an image, and
/// their iterates, which [`Machine::lemma_steps_spec`] obliges every
/// implementation to prove are really the cycle-by-cycle unrolling of the
/// transition. The contracts here are therefore exactly as strong as the
/// implementation's own: `step` performs one transition and returns that
/// cycle's output, `set_input` loads the image, and `run` returns every
/// output of the run, in order, up to the first halted state.
///
/// The wide-opcode machine ([`v3::PuttPc`]) does not implement this trait:
/// its stepping is fallible (a fetched byte may fail to decode), which these
/// signatures cannot carry, so its interface is inherent only.
pub trait Machine {
    /// The type of a single unit of input.
    type Input;

    /// The type of a single unit of output.
    type Output;

    /// The invariant every operation of the machine preserves.
    spec fn inv(&self) -> bool;

    /// The machine's mathematical state.
    spec fn model(&self) -> CoreState;

    /// One machine cycle, as a function on states.
    spec fn transition(s: CoreState) -> CoreState;

    /// The output one machine cycle from `s` produces, if any.
    spec fn transition_output(s: CoreState) -> Option<Self::Output>;

    /// The state after an input image is loaded into `s`.
    spec fn loaded(s: CoreState, input: Seq<Self::Input>) -> CoreState;

    /// The state after `n` machine cycles from `s`.
    spec fn steps_spec(s: CoreState, n: nat) -> CoreState;

    /// The outputs of the first `n` machine cycles from `s`, in order.
    spec fn outputs_spec(s: CoreState, n: nat) -> Seq<Self::Output>;

    /// The obligation that ties the iterated forms to the one-cycle ones:
    /// every implementation must prove that [`Machine::steps_spec`] unrolls
    /// [`Machine::transition`] cycle by cycle from `s`, and that
    /// [`Machine::outputs_spec`] collects [`Machine::transition_output`] of
    /// each cycle along the way.
    proof fn lemma_steps_spec(s: CoreState, n: nat)
        ensures
            n == 0 ==> Self::steps_spec(s, n) == s && Self::outputs_spec(s, n)
                == Seq::<Self::Output>::empty(),
            n > 0 ==> Self::steps_spec(s, n) == Self::transition(
                Self::steps_spec(s, (n - 1) as nat),
            ) && Self::outputs_spec(s, n) == (match Self::transition_output(
                Self::steps_spec(s, (n - 1) as nat),
            ) {
                Some(b) => Self::outputs_spec(s, (n - 1) as nat).push(b),
                None => Self::outputs_spec(s, (n - 1) as nat),
            }),
    ;

    /// Whether some halting condition has been met.
    fn is_halted(&self) -> (r: bool)
        ensures
            r == self.model().controls.halt,
    ;

    /// Set the full input of the machine.
    fn set_input(&mut self, input: &[Self::Input])
        requires
            old(self).inv(),
            input@.len() <= old(self).model().memory.len(),
        ensures
            final(self).inv(),
            final(self).model() == Self::loaded(old(self).model(), input@),
    ;

    /// Perform one step of the machine.
    fn step(&mut self) -> (r: Option<Self::Output>)
        requires
            old(self).inv(),
        ensures
            final(self).inv(),
            final(self).model() == Self::transition(old(self).model()),
            r == Self::transition_output(old(self).model()),
    ;

    /// Run the machine until some halting condition is met, returning every
    /// output the run produced, in order.
    fn run(&mut self) -> (out: Vec<Self::Output>)
        requires
            old(self).inv(),
            exists|n: nat| (#[trigger] Self::steps_spec(old(self).model(), n)).controls.halt,
        ensures
            final(self).inv(),
            exists|n: nat|
                {
                    &&& final(self).model() == (#[trigger] Self::steps_spec(
                        old(self).model(),
                        n,
                    ))
                    &&& Self::steps_spec(old(self).model(), n).controls.halt
                    &&& out@ == Self::outputs_spec(old(self).model(), n)
                    &&& forall|k: nat|
                        k < n ==> !(#[trigger] Self::steps_spec(
                            old(self).model(),
                            k,
                        )).controls.halt
                },
    ;

    /// Run the machine until some halting condition is met, with the input
    /// provided.
    fn run_with_input(&mut self, input: &[Self::Input]) -> (out: Vec<Self::Output>)
        requires
            old(self).inv(),
            input@.len() <= old(self).model().memory.len(),
            exists|n: nat|
                (#[trigger] Self::steps_spec(
                    Self::loaded(old(self).model(), input@),
                    n,
                )).controls.halt,
        ensures
            final(self).inv(),
            exists|n: nat|
                {
                    &&& final(self).model() == (#[trigger] Self::steps_spec(
                        Self::loaded(old(self).model(), input@),
                        n,
                    ))
                    &&& Self::steps_spec(Self::loaded(old(self).model(), input@), n).controls.halt
                    &&& out@ == Self::outputs_spec(Self::loaded(old(self).model(), input@), n)
                    &&& forall|k: nat|
                        k < n ==> !(#[trigger] Self::steps_spec(
                            Self::loaded(old(self).model(), input@),
                            k,
                        )).controls.halt
                },
    ;
}

impl Machine for v2::PuttPc {
    type Input = u8;

    type Output = u8;

    open spec fn inv(&self) -> bool {
        self.wf()
    }

    open spec fn model(&self) -> CoreState {
        self@
    }

    open spec fn transition(s: CoreState) -> CoreState {
        v2::step_state(s)
    }

    open spec fn transition_output(s: CoreState) -> Option<u8> {
        v2::step_output(s)
    }

    open spec fn loaded(s: CoreState, input: Seq<u8>) -> CoreState {
        v2::load_state(s, input)
    }

    open spec fn steps_spec(s: CoreState, n: nat) -> CoreState {
        v2::steps(s, n)
    }

    open spec fn outputs_spec(s: CoreState, n: nat) -> Seq<u8> {
        v2::outputs(s, n)
    }

    proof fn lemma_steps_spec(s: CoreState, n: nat) {
    }

    fn is_halted(&self) -> (r: bool) {
        self.is_halted()
    }

    fn set_input(&mut self, input: &[u8]) {
        let r = self.set_input(input);
        proof {
            assert(r is Ok);
        }
    }

    fn step(&mut self) -> (r: Option<u8>) {
        self.step()
    }

    fn run(&mut self) -> (out: Vec<u8>) {
        proof {
            let s0 = self@;
            let t = choose|n: nat| (#[trigger] Self::steps_spec(s0, n)).controls.halt;
            assert(v2::steps(s0, t).controls.halt);
            assert(v2::reaches_halt(s0));
        }
        let out = self.run();
        proof {
            let s0 = old(self)@;
            let n = choose|n: nat|
                {
                    &&& final(self)@ == v2::steps(s0, n)
                    &&& v2::steps(s0, n).controls.halt
                    &&& out@ == v2::outputs(s0, n)
                    &&& forall|k: nat| k < n ==> !(#[trigger] v2::steps(s0, k)).controls.halt
                };
            assert(final(self).model() == Self::steps_spec(s0, n));
            assert(Self::steps_spec(s0, n).controls.halt);
            assert(out@ == Self::outputs_spec(s0, n));
            assert forall|k: nat| k < n implies !(#[trigger] Self::steps_spec(
                s0,
                k,
            )).controls.halt by {}
        }
        out
    }

    fn run_with_input(&mut self, input: &[u8]) -> (out: Vec<u8>) {
        let r = self.set_input(input);
        proof {
            assert(r is Ok);
            let s0 = v2::load_state(old(self)@, input@);
            let t = choose|n: nat| (#[trigger] Self::steps_spec(s0, n)).controls.halt;
            assert(v2::steps(s0, t).controls.halt);
            assert(v2::reaches_halt(s0));
        }
        let out = self.run();
        proof {
            let s0 = v2::load_state(old(self)@, input@);
            let n = choose|n: nat|
                {
                    &&& final(self)@ == v2::steps(s0, n)
                    &&& v2::steps(s0, n).controls.halt
                    &&& out@ == v2::outputs(s0, n)
                    &&& forall|k: nat| k < n ==> !(#[trigger] v2::steps(s0, k)).controls.halt
                };
            assert(final(self).model() == Self::steps_spec(s0, n));
            assert(Self::steps_spec(s0, n).controls.halt);
            assert(out@ == Self::outputs_spec(s0, n));
            assert forall|k: nat| k < n implies !(#[trigger] Self::steps_spec(
                s0,
                k,
            )).controls.halt by {}
        }
        out
    }
}

} // verus!
